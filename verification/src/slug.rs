//! Slug validation: the URL path segment under which a page is served.

use vstd::prelude::*;
use vstd::utf8::encode_utf8;
use vstd::utf8::is_ascii_chars;
use crate::error::ErrorView;
use crate::error::LinkdropError;
use crate::error::result_view;

verus! {

/// The longest slug accepted, in bytes.
pub const MAX_SLUG_LEN: usize = 64;

/// The regular expression a slug must match as a whole.
pub const SLUG_PATTERN: &'static str = "^[a-z0-9](?:[a-z0-9-]*[a-z0-9])?$";

/// Whether `regex::Regex::is_match`, on the regex compiled from `pattern`, finds a match in `haystack`.
pub uninterp spec fn regex_is_match(pattern: Seq<char>, haystack: Seq<char>) -> bool;

/// A character that may stand in a slug: `a`-`z`, `0`-`9` or `-`.
pub open spec fn is_slug_char(c: char) -> bool {
    ||| 'a' as u32 <= c as u32 <= 'z' as u32
    ||| '0' as u32 <= c as u32 <= '9' as u32
    ||| c == '-'
}

/// The strings that [`SLUG_PATTERN`] matches: one or more slug characters,
/// neither the first nor the last of them a hyphen.
pub open spec fn is_slug_shape(s: Seq<char>) -> bool {
    &&& s.len() >= 1
    &&& forall|i: int| 0 <= i < s.len() ==> is_slug_char(#[trigger] s[i])
    &&& s[0] != '-'
    &&& s.last() != '-'
}

/// Compiles `pattern` with `regex::Regex::new` and, when it compiles, reports
/// what `Regex::is_match` answers for `haystack`.
///
/// Claimed of the outside code: the answer is a function of the pattern and
/// the haystack (`regex_is_match`); the slug pattern compiles; and, as the
/// regex crate's syntax documentation defines `^`, `$`, character classes,
/// `*` and optional non-capturing groups, the slug pattern matches exactly the
/// strings of `is_slug_shape`.  Nothing is said of which other patterns compile.
#[verifier::external_body]
fn regex_match(pattern: &str, haystack: &str) -> (r: Option<bool>)
    ensures
        r matches Some(b) ==> b == regex_is_match(pattern@, haystack@),
        pattern@ == SLUG_PATTERN@ ==> r is Some,
        r matches Some(b) ==> (pattern@ == SLUG_PATTERN@ ==> (b <==> is_slug_shape(haystack@))),
{
    match regex::Regex::new(pattern) {
        Ok(re) => Some(re.is_match(haystack)),
        Err(_) => None,
    }
}

/// A character takes one to four bytes in UTF-8, so a string has at least as
/// many bytes as characters and at most four times as many.
proof fn lemma_utf8_len_bounds(s: Seq<char>)
    ensures
        s.len() <= encode_utf8(s).len() <= 4 * s.len(),
    decreases s.len(),
{
    if s.len() > 0 {
        lemma_utf8_len_bounds(s.drop_first());
    }
}

/// What [`validate_slug`] answers for a slug.
pub open spec fn slug_verdict(s: Seq<char>) -> Result<(), ErrorView> {
    if s.len() == 0 || encode_utf8(s).len() > MAX_SLUG_LEN {
        Err(ErrorView::InvalidSlug("slug must be 1-64 characters"@))
    } else if !is_slug_shape(s) {
        Err(
            ErrorView::InvalidSlug(
                "slug may only contain lowercase letters, digits, and hyphens (no leading/trailing hyphen)"@,
            ),
        )
    } else {
        Ok(())
    }
}

/// Whether `s` is a slug that [`validate_slug`] accepts.
pub open spec fn is_valid_slug(s: Seq<char>) -> bool {
    slug_verdict(s) is Ok
}

/// Checks that `slug` is 1 to 64 bytes long and made of lowercase letters,
/// digits and inner hyphens.
pub fn validate_slug(slug: &str) -> (r: Result<(), LinkdropError>)
    ensures
        result_view(r) == slug_verdict(slug@),
{
    let chars: usize = slug.unicode_len();
    proof {
        lemma_utf8_len_bounds(slug@);
    }
    if chars == 0 || chars > MAX_SLUG_LEN || slug.len() > MAX_SLUG_LEN {
        return Err(LinkdropError::InvalidSlug(String::from_str("slug must be 1-64 characters")));
    }
    match regex_match(SLUG_PATTERN, slug) {
        Some(true) => Ok(()),
        _ => Err(
            LinkdropError::InvalidSlug(
                String::from_str(
                    "slug may only contain lowercase letters, digits, and hyphens (no leading/trailing hyphen)",
                ),
            ),
        ),
    }
}

/// A slug is valid exactly when it has 1 to 64 characters, each a lowercase
/// letter, a digit or a hyphen, and neither begins nor ends with a hyphen; a
/// valid slug is ASCII, so its length in characters and in bytes agree.
pub proof fn valid_slug_characterization(s: Seq<char>)
    ensures
        is_valid_slug(s) <==> (1 <= s.len() <= 64 && is_slug_shape(s)),
        is_valid_slug(s) ==> is_ascii_chars(s) && encode_utf8(s).len() == s.len(),
{
    if is_slug_shape(s) {
        assert forall|i| 0 <= i < s.len() implies '\0' <= #[trigger] s[i] <= '\u{7f}' by {
            assert(is_slug_char(s[i]));
            vstd::utf8::char_u32_cast(s[i], s[i] as u32);
        }
        vstd::utf8::is_ascii_chars_encode_utf8(s);
    }
}

} // verus!

verus! {

/// The number of characters in a generated slug.
pub const GENERATED_SLUG_LEN: usize = 8;

/// The character a base-36 digit stands for in a generated slug: `a`-`z`
/// for 0 to 25, `0`-`9` for 26 to 35.
pub open spec fn id_char(d: nat) -> char {
    if d < 26 {
        (97 + d) as u8 as char
    } else {
        (48 + (d - 26)) as u8 as char
    }
}

/// The `n` characters spelled by `bits`, least significant base-36 digit first.
pub open spec fn id_chars(bits: nat, n: nat) -> Seq<char>
    decreases n,
{
    if n == 0 {
        Seq::<char>::empty()
    } else {
        seq![id_char(bits % 36)] + id_chars(bits / 36, (n - 1) as nat)
    }
}

fn id_char_of(d: u64) -> (c: char)
    requires
        d < 36,
    ensures
        c == id_char(d as nat),
        is_slug_char(c),
        c != '-',
{
    if d < 26 {
        let b: u8 = 97u8 + d as u8;
        let c: char = b as char;
        assert(c as u32 == b as u32);
        c
    } else {
        let b: u8 = 48u8 + (d - 26) as u8;
        let c: char = b as char;
        assert(c as u32 == b as u32);
        c
    }
}

proof fn lemma_id_chars_shape(bits: nat, n: nat)
    ensures
        id_chars(bits, n).len() == n,
        forall|i: int|
            0 <= i < n ==> is_slug_char(#[trigger] id_chars(bits, n)[i]) && id_chars(bits, n)[i]
                != '-',
    decreases n,
{
    if n > 0 {
        lemma_id_chars_shape(bits / 36, (n - 1) as nat);
        let d = bits % 36;
        let b: u8 = if d < 26 {
            (97 + d) as u8
        } else {
            (48 + (d - 26)) as u8
        };
        let c: char = b as char;
        assert(c as u32 == b as u32);
        assert(id_char(d) == c);
        let s = id_chars(bits, n);
        assert forall|i: int| 0 <= i < n implies is_slug_char(#[trigger] s[i]) && s[i] != '-' by {
            if i > 0 {
                assert(s[i] == id_chars(bits / 36, (n - 1) as nat)[i - 1]);
            }
        }
    }
}

/// The slug generated from random `bits` when a page is pushed without one:
/// eight lowercase letters and digits, the base-36 digits of `bits`, least
/// significant first.  It is always a valid slug.
pub fn slug_from_bits(bits: u64) -> (s: String)
    ensures
        s@ == id_chars(bits as nat, GENERATED_SLUG_LEN as nat),
        is_valid_slug(s@),
{
    let mut s = String::new();
    let mut b: u64 = bits;
    let mut i: usize = 0;
    while i < GENERATED_SLUG_LEN
        invariant
            i <= GENERATED_SLUG_LEN,
            s@ + id_chars(b as nat, (GENERATED_SLUG_LEN - i) as nat) == id_chars(
                bits as nat,
                GENERATED_SLUG_LEN as nat,
            ),
        decreases GENERATED_SLUG_LEN - i,
    {
        let c = id_char_of(b % 36);
        let ghost rest = id_chars(b as nat, (GENERATED_SLUG_LEN - i) as nat);
        let ghost tail = id_chars((b / 36) as nat, (GENERATED_SLUG_LEN - i - 1) as nat);
        assert(rest == seq![c] + tail);
        assert(s@.push(c) + tail == s@ + (seq![c] + tail));
        crate::text::push_char(&mut s, c);
        b = b / 36;
        i = i + 1;
    }
    assert(s@ + id_chars(b as nat, 0) == s@);
    proof {
        lemma_id_chars_shape(bits as nat, GENERATED_SLUG_LEN as nat);
        valid_slug_characterization(s@);
    }
    s
}

} // verus!

verus! {

/// The slug rules in plain terms: a slug is accepted exactly when it has 1 to
/// 64 characters, each a lowercase ASCII letter, an ASCII digit or a hyphen,
/// and it neither begins nor ends with a hyphen.  A leading or trailing digit
/// is allowed.
pub proof fn slug_rules(s: Seq<char>)
    ensures
        is_valid_slug(s) <==> {
            &&& 1 <= s.len() <= 64
            &&& forall|i: int|
                0 <= i < s.len() ==> ('a' as u32 <= #[trigger] s[i] as u32 <= 'z' as u32 || '0' as u32
                    <= s[i] as u32 <= '9' as u32 || s[i] == '-')
            &&& s[0] != '-'
            &&& s[s.len() - 1] != '-'
        },
{
    valid_slug_characterization(s);
}

} // verus!
