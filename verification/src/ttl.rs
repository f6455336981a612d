//! Time-to-live parsing: `"90"`, `"90s"`, `"15min"`, `"24h"`, `"7days"`.

use vstd::prelude::*;
use crate::error::ErrorView;
use crate::error::LinkdropError;
use crate::text::digit_value;
use crate::text::is_digit;
use crate::text::is_unicode_whitespace;
use crate::text::to_chars;
use crate::text::trim;
use crate::text::trim_bounds;
use crate::text::trim_end;
use crate::text::trim_start;

verus! {

/// All characters of `s` are ASCII digits.
pub open spec fn all_digits(s: Seq<char>) -> bool {
    forall|i: int| 0 <= i < s.len() ==> is_digit(#[trigger] s[i])
}

/// The number that a string of ASCII digits spells in base ten.
pub open spec fn digits_value(s: Seq<char>) -> nat
    decreases s.len(),
{
    if s.len() == 0 {
        0
    } else {
        digits_value(s.drop_last()) * 10 + digit_value(s.last())
    }
}

/// What `str::parse::<u64>` accepts: an optional `+`, then one or more ASCII
/// digits whose value fits in a `u64`.
pub open spec fn parse_u64_spec(s: Seq<char>) -> Option<nat> {
    let d = if s.len() > 0 && s[0] == '+' {
        s.drop_first()
    } else {
        s
    };
    if d.len() > 0 && all_digits(d) && digits_value(d) <= u64::MAX {
        Some(digits_value(d))
    } else {
        None
    }
}

/// The number of leading ASCII digits of `s`.
pub open spec fn leading_digits(s: Seq<char>) -> nat
    decreases s.len(),
{
    if s.len() > 0 && is_digit(s[0]) {
        1 + leading_digits(s.drop_first())
    } else {
        0
    }
}

/// The seconds in one unit of a TTL suffix; the empty suffix counts seconds.
pub open spec fn unit_seconds(u: Seq<char>) -> Option<nat> {
    if u == seq!['s'] || u == seq!['s', 'e', 'c'] || u == seq!['s', 'e', 'c', 's'] || u
        == Seq::<char>::empty() {
        Some(1)
    } else if u == seq!['m'] || u == seq!['m', 'i', 'n'] || u == seq!['m', 'i', 'n', 's'] {
        Some(60)
    } else if u == seq!['h'] || u == seq!['h', 'r'] || u == seq!['h', 'r', 's'] {
        Some(3600)
    } else if u == seq!['d'] || u == seq!['d', 'a', 'y'] || u == seq!['d', 'a', 'y', 's'] {
        Some(86400)
    } else {
        None
    }
}

/// A TTL read as an amount and the seconds per unit of that amount.
pub open spec fn ttl_parts(input: Seq<char>) -> Result<(nat, nat), ErrorView> {
    let t = trim(input);
    if t.len() == 0 {
        Err(ErrorView::InvalidSlug("ttl cannot be empty"@))
    } else if parse_u64_spec(t) is Some {
        Ok((parse_u64_spec(t)->0, 1))
    } else {
        let i: int = leading_digits(t) as int;
        let num = t.subrange(0, i);
        let unit = t.subrange(i, t.len() as int);
        match parse_u64_spec(num) {
            None => Err(ErrorView::InvalidSlug("invalid ttl: "@ + input)),
            Some(amount) => match unit_seconds(unit) {
                None => Err(ErrorView::InvalidSlug("invalid ttl unit in: "@ + input)),
                Some(m) => Ok((amount, m)),
            },
        }
    }
}

/// What [`parse_ttl`] answers for `input`: the TTL in seconds, or the error.
pub open spec fn ttl_verdict(input: Seq<char>) -> Result<nat, ErrorView> {
    match ttl_parts(input) {
        Ok((amount, m)) => Ok(amount * m),
        Err(e) => Err(e),
    }
}

/// The TTL that `input` spells, when there is one, fits in a `u64` of seconds
/// (an amount times its unit that does not fit overflows the multiplication).
pub open spec fn ttl_fits(input: Seq<char>) -> bool {
    ttl_verdict(input) matches Ok(n) ==> n <= u64::MAX
}

proof fn lemma_digits_value_prefix(s: Seq<char>, k: int)
    requires
        0 <= k <= s.len(),
    ensures
        digits_value(s.subrange(0, k)) <= digits_value(s),
    decreases s.len(),
{
    if k < s.len() {
        lemma_digits_value_prefix(s.drop_last(), k);
        assert(s.drop_last().subrange(0, k) == s.subrange(0, k));
    } else {
        assert(s.subrange(0, k) == s);
    }
}

/// `str::parse::<u64>` on `cs[from..to]`, written out over the characters.
pub(crate) fn parse_u64_chars(cs: &Vec<char>, from: usize, to: usize) -> (r: Option<u64>)
    requires
        from <= to <= cs@.len(),
    ensures
        r matches Some(v) ==> parse_u64_spec(cs@.subrange(from as int, to as int)) == Some(
            v as nat,
        ),
        r is None ==> parse_u64_spec(cs@.subrange(from as int, to as int)) is None,
{
    let ghost s = cs@.subrange(from as int, to as int);
    let mut start: usize = from;
    if from < to && cs[from] == '+' {
        start = from + 1;
    }
    let ghost d = cs@.subrange(start as int, to as int);
    assert(d == (if s.len() > 0 && s[0] == '+' {
        s.drop_first()
    } else {
        s
    }));
    if start == to {
        return None;
    }
    let mut value: u64 = 0;
    let mut i: usize = start;
    while i < to
        invariant
            start <= i <= to <= cs@.len(),
            d == cs@.subrange(start as int, to as int),
            s == cs@.subrange(from as int, to as int),
            d.len() > 0,
            d == (if s.len() > 0 && s[0] == '+' {
                s.drop_first()
            } else {
                s
            }),
            forall|j: int| start <= j < i ==> is_digit(#[trigger] cs@[j]),
            value == digits_value(cs@.subrange(start as int, i as int)),
        decreases to - i,
    {
        let c = cs[i];
        if !('0' as u32 <= c as u32 && c as u32 <= '9' as u32) {
            assert(d[i - start] == c);
            return None;
        }
        let dv: u64 = (c as u32 - '0' as u32) as u64;
        let ghost pre = cs@.subrange(start as int, i + 1);
        assert(pre.drop_last() == cs@.subrange(start as int, i as int));
        assert(pre.last() == c);
        if value > (u64::MAX - dv) / 10 {
            proof {
                assert(digits_value(pre) > u64::MAX) by (nonlinear_arith)
                    requires
                        digits_value(pre) == value * 10 + dv,
                        value > (u64::MAX - dv) / 10,
                        dv <= 9,
                ;
                if all_digits(d) {
                    lemma_digits_value_prefix(d, i + 1 - start);
                    assert(d.subrange(0, i + 1 - start) == pre);
                }
            }
            return None;
        }
        value = value * 10 + dv;
        i = i + 1;
    }
    assert(cs@.subrange(start as int, to as int) == d);
    Some(value)
}

proof fn lemma_leading_digits_skip(s: Seq<char>, k: int)
    requires
        0 <= k <= s.len(),
        forall|j: int| 0 <= j < k ==> is_digit(#[trigger] s[j]),
    ensures
        leading_digits(s) == k + leading_digits(s.subrange(k, s.len() as int)),
    decreases k,
{
    if k > 0 {
        assert(is_digit(s[0]));
        let t = s.drop_first();
        assert forall|j: int| 0 <= j < k - 1 implies is_digit(#[trigger] t[j]) by {
            assert(t[j] == s[j + 1]);
        }
        lemma_leading_digits_skip(t, k - 1);
        assert(t.subrange(k - 1, t.len() as int) == s.subrange(k, s.len() as int));
    } else {
        assert(s.subrange(0, s.len() as int) == s);
    }
}

/// Whether `cs[from..to]` is exactly the word `w`.
fn chars_equal(cs: &Vec<char>, from: usize, to: usize, w: &[char]) -> (b: bool)
    requires
        from <= to <= cs@.len(),
    ensures
        b == (cs@.subrange(from as int, to as int) == w@),
{
    if to - from != w.len() {
        return false;
    }
    let mut i: usize = 0;
    while i < w.len()
        invariant
            from <= to <= cs@.len(),
            to - from == w@.len(),
            i <= w@.len(),
            forall|j: int| 0 <= j < i ==> cs@[from + j] == w@[j],
        decreases w@.len() - i,
    {
        if cs[from + i] != w[i] {
            assert(cs@.subrange(from as int, to as int)[i as int] != w@[i as int]);
            return false;
        }
        i = i + 1;
    }
    assert(cs@.subrange(from as int, to as int) == w@);
    true
}

/// The seconds per unit of the suffix `cs[from..to]`, if it names a unit.
fn unit_seconds_of(cs: &Vec<char>, from: usize, to: usize) -> (r: Option<u64>)
    requires
        from <= to <= cs@.len(),
    ensures
        r matches Some(m) ==> unit_seconds(cs@.subrange(from as int, to as int)) == Some(m as nat),
        r is None ==> unit_seconds(cs@.subrange(from as int, to as int)) is None,
{
    let ghost u = cs@.subrange(from as int, to as int);
    assert(['s']@ == seq!['s']);
    assert(['s', 'e', 'c']@ == seq!['s', 'e', 'c']);
    assert(['s', 'e', 'c', 's']@ == seq!['s', 'e', 'c', 's']);
    assert(['m']@ == seq!['m']);
    assert(['m', 'i', 'n']@ == seq!['m', 'i', 'n']);
    assert(['m', 'i', 'n', 's']@ == seq!['m', 'i', 'n', 's']);
    assert(['h']@ == seq!['h']);
    assert(['h', 'r']@ == seq!['h', 'r']);
    assert(['h', 'r', 's']@ == seq!['h', 'r', 's']);
    assert(['d']@ == seq!['d']);
    assert(['d', 'a', 'y']@ == seq!['d', 'a', 'y']);
    assert(['d', 'a', 'y', 's']@ == seq!['d', 'a', 'y', 's']);
    if from == to || chars_equal(cs, from, to, &['s']) || chars_equal(cs, from, to, &['s', 'e', 'c'])
        || chars_equal(cs, from, to, &['s', 'e', 'c', 's']) {
        assert(from == to ==> u == Seq::<char>::empty());
        Some(1)
    } else if chars_equal(cs, from, to, &['m']) || chars_equal(cs, from, to, &['m', 'i', 'n'])
        || chars_equal(cs, from, to, &['m', 'i', 'n', 's']) {
        Some(60)
    } else if chars_equal(cs, from, to, &['h']) || chars_equal(cs, from, to, &['h', 'r'])
        || chars_equal(cs, from, to, &['h', 'r', 's']) {
        Some(3600)
    } else if chars_equal(cs, from, to, &['d']) || chars_equal(cs, from, to, &['d', 'a', 'y'])
        || chars_equal(cs, from, to, &['d', 'a', 'y', 's']) {
        Some(86400)
    } else {
        assert(u.len() != 0);
        None
    }
}

/// Reads `input` as an amount and the seconds per unit of that amount.
fn ttl_parts_of(input: &str) -> (r: Result<(u64, u64), LinkdropError>)
    ensures
        r matches Ok((a, m)) ==> ttl_parts(input@) == Ok::<(nat, nat), ErrorView>(
            (a as nat, m as nat),
        ),
        r matches Err(e) ==> ttl_parts(input@) == Err::<(nat, nat), ErrorView>(e@),
{
    let cs = to_chars(input);
    let (start, end): (usize, usize) = trim_bounds(&cs);
    let ghost t = cs@.subrange(start as int, end as int);
    if start == end {
        return Err(LinkdropError::InvalidSlug(String::from_str("ttl cannot be empty")));
    }
    if let Some(v) = parse_u64_chars(&cs, start, end) {
        return Ok((v, 1));
    }
    let mut i: usize = start;
    while i < end && '0' as u32 <= cs[i] as u32 && cs[i] as u32 <= '9' as u32
        invariant
            start <= i <= end <= cs@.len(),
            forall|j: int| start <= j < i ==> is_digit(#[trigger] cs@[j]),
        decreases end - i,
    {
        i = i + 1;
    }
    proof {
        assert forall|j: int| 0 <= j < i - start implies is_digit(#[trigger] t[j]) by {
            assert(t[j] == cs@[start + j]);
        }
        lemma_leading_digits_skip(t, i - start);
        let rest = t.subrange(i - start, t.len() as int);
        if rest.len() > 0 {
            assert(rest[0] == cs@[i as int]);
        }
        assert(leading_digits(rest) == 0);
        assert(t.subrange(0, i - start) == cs@.subrange(start as int, i as int));
        assert(rest == cs@.subrange(i as int, end as int));
    }
    match parse_u64_chars(&cs, start, i) {
        None => {
            let mut m = String::from_str("invalid ttl: ");
            m.append(input);
            Err(LinkdropError::InvalidSlug(m))
        },
        Some(amount) => match unit_seconds_of(&cs, i, end) {
            None => {
                let mut m = String::from_str("invalid ttl unit in: ");
                m.append(input);
                Err(LinkdropError::InvalidSlug(m))
            },
            Some(mult) => Ok((amount, mult)),
        },
    }
}

/// Parses a TTL: a plain number of seconds, or a number followed by one of the
/// units `s`/`sec`/`secs`, `m`/`min`/`mins`, `h`/`hr`/`hrs`, `d`/`day`/`days`.
/// Surrounding whitespace is ignored.  The result is in seconds.
pub fn parse_ttl(input: &str) -> (r: Result<u64, LinkdropError>)
    requires
        ttl_fits(input@),
    ensures
        r matches Ok(secs) ==> ttl_verdict(input@) == Ok::<nat, ErrorView>(secs as nat),
        r matches Err(e) ==> ttl_verdict(input@) == Err::<nat, ErrorView>(e@),
{
    match ttl_parts_of(input) {
        Ok((amount, mult)) => {
            assert(amount * mult <= u64::MAX);
            Ok(amount * mult)
        },
        Err(e) => Err(e),
    }
}

/// Whether `input` meets the precondition of [`parse_ttl`]: the TTL it spells,
/// if any, fits in a `u64` of seconds.
pub fn ttl_in_range(input: &str) -> (b: bool)
    ensures
        b == ttl_fits(input@),
{
    match ttl_parts_of(input) {
        Ok((amount, mult)) => amount.checked_mul(mult).is_some(),
        Err(_) => true,
    }
}

} // verus!

verus! {

/// A plain number of seconds, with no unit, is read as that many seconds.
pub proof fn ttl_plain_number(digits: Seq<char>)
    requires
        digits.len() > 0,
        all_digits(digits),
        digits_value(digits) <= u64::MAX,
    ensures
        ttl_verdict(digits) == Ok::<nat, ErrorView>(digits_value(digits)),
{
    assert(is_digit(digits[0]) && is_digit(digits.last()));
    crate::text::trim_of_unpadded(digits);
}

/// A number followed by a unit is read as that number of units, in seconds:
/// `s`/`sec`/`secs` count 1, `m`/`min`/`mins` 60, `h`/`hr`/`hrs` 3600 and
/// `d`/`day`/`days` 86400 seconds.
pub proof fn ttl_number_with_unit(digits: Seq<char>, unit: Seq<char>)
    requires
        digits.len() > 0,
        all_digits(digits),
        digits_value(digits) <= u64::MAX,
        unit.len() > 0,
        unit_seconds(unit) is Some,
    ensures
        ttl_verdict(digits + unit) == Ok::<nat, ErrorView>(
            digits_value(digits) * unit_seconds(unit)->0,
        ),
{
    let s = digits + unit;
    assert(!is_digit(unit[0]) && !is_unicode_whitespace(unit.last()));
    assert(s[0] == digits[0]);
    assert(s.last() == unit.last());
    assert(is_digit(digits[0]));
    crate::text::trim_of_unpadded(s);
    assert(s[digits.len() as int] == unit[0]);
    assert(!all_digits(s));
    assert forall|j: int| 0 <= j < digits.len() implies is_digit(#[trigger] s[j]) by {
        assert(s[j] == digits[j]);
    }
    lemma_leading_digits_skip(s, digits.len() as int);
    let rest = s.subrange(digits.len() as int, s.len() as int);
    assert(rest == unit);
    assert(s.subrange(0, digits.len() as int) == digits);
}

/// Whitespace around a TTL does not change the seconds it is read as.
pub proof fn ttl_ignores_surrounding_whitespace(input: Seq<char>)
    ensures
        ttl_verdict(input) is Ok <==> ttl_verdict(trim(input)) is Ok,
        ttl_verdict(input) is Ok ==> ttl_verdict(input) == ttl_verdict(trim(input)),
{
    crate::text::trim_idempotent(input);
}

} // verus!

verus! {

/// The twelve unit words and what each multiplies by: `s`, `sec`, `secs`
/// count seconds; `m`, `min`, `mins` minutes (60 s); `h`, `hr`, `hrs` hours
/// (3600 s); `d`, `day`, `days` days (86400 s).
pub proof fn ttl_unit_words(digits: Seq<char>)
    requires
        digits.len() > 0,
        all_digits(digits),
        digits_value(digits) <= u64::MAX,
    ensures
        ttl_verdict(digits + seq!['s']) == Ok::<nat, ErrorView>(digits_value(digits)),
        ttl_verdict(digits + seq!['s', 'e', 'c']) == Ok::<nat, ErrorView>(digits_value(digits)),
        ttl_verdict(digits + seq!['s', 'e', 'c', 's']) == Ok::<nat, ErrorView>(digits_value(digits)),
        ttl_verdict(digits + seq!['m']) == Ok::<nat, ErrorView>(digits_value(digits) * 60),
        ttl_verdict(digits + seq!['m', 'i', 'n']) == Ok::<nat, ErrorView>(digits_value(digits) * 60),
        ttl_verdict(digits + seq!['m', 'i', 'n', 's']) == Ok::<nat, ErrorView>(
            digits_value(digits) * 60,
        ),
        ttl_verdict(digits + seq!['h']) == Ok::<nat, ErrorView>(digits_value(digits) * 3600),
        ttl_verdict(digits + seq!['h', 'r']) == Ok::<nat, ErrorView>(digits_value(digits) * 3600),
        ttl_verdict(digits + seq!['h', 'r', 's']) == Ok::<nat, ErrorView>(
            digits_value(digits) * 3600,
        ),
        ttl_verdict(digits + seq!['d']) == Ok::<nat, ErrorView>(digits_value(digits) * 86400),
        ttl_verdict(digits + seq!['d', 'a', 'y']) == Ok::<nat, ErrorView>(
            digits_value(digits) * 86400,
        ),
        ttl_verdict(digits + seq!['d', 'a', 'y', 's']) == Ok::<nat, ErrorView>(
            digits_value(digits) * 86400,
        ),
{
    assert(digits_value(digits) * 1 == digits_value(digits));
    assert(unit_seconds(seq!['s']) is Some);
    ttl_number_with_unit(digits, seq!['s']);
    assert(unit_seconds(seq!['s', 'e', 'c']) is Some);
    ttl_number_with_unit(digits, seq!['s', 'e', 'c']);
    assert(unit_seconds(seq!['s', 'e', 'c', 's']) is Some);
    ttl_number_with_unit(digits, seq!['s', 'e', 'c', 's']);
    assert(unit_seconds(seq!['m']) is Some);
    ttl_number_with_unit(digits, seq!['m']);
    assert(unit_seconds(seq!['m', 'i', 'n']) is Some);
    ttl_number_with_unit(digits, seq!['m', 'i', 'n']);
    assert(unit_seconds(seq!['m', 'i', 'n', 's']) is Some);
    ttl_number_with_unit(digits, seq!['m', 'i', 'n', 's']);
    assert(unit_seconds(seq!['h']) is Some);
    ttl_number_with_unit(digits, seq!['h']);
    assert(unit_seconds(seq!['h', 'r']) is Some);
    ttl_number_with_unit(digits, seq!['h', 'r']);
    assert(unit_seconds(seq!['h', 'r', 's']) is Some);
    ttl_number_with_unit(digits, seq!['h', 'r', 's']);
    assert(unit_seconds(seq!['d']) is Some);
    ttl_number_with_unit(digits, seq!['d']);
    assert(unit_seconds(seq!['d', 'a', 'y']) is Some);
    ttl_number_with_unit(digits, seq!['d', 'a', 'y']);
    assert(unit_seconds(seq!['d', 'a', 'y', 's']) is Some);
    ttl_number_with_unit(digits, seq!['d', 'a', 'y', 's']);
}

/// Only the twelve unit words are units: a number followed by any other
/// suffix (that does not start with a digit and does not end in whitespace),
/// such as `1month` or `5w` or `5M`, is refused with
/// `invalid ttl unit in: <input>`.
pub proof fn ttl_unknown_unit_refused(digits: Seq<char>, unit: Seq<char>)
    requires
        digits.len() > 0,
        forall|i: int| 0 <= i < digits.len() ==> '0' as u32 <= #[trigger] digits[i] as u32 <= '9' as u32,
        digits_value(digits) <= u64::MAX,
        unit.len() > 0,
        !('0' as u32 <= unit[0] as u32 <= '9' as u32),
        !is_unicode_whitespace(unit.last()),
        unit != seq!['s'],
        unit != seq!['s', 'e', 'c'],
        unit != seq!['s', 'e', 'c', 's'],
        unit != seq!['m'],
        unit != seq!['m', 'i', 'n'],
        unit != seq!['m', 'i', 'n', 's'],
        unit != seq!['h'],
        unit != seq!['h', 'r'],
        unit != seq!['h', 'r', 's'],
        unit != seq!['d'],
        unit != seq!['d', 'a', 'y'],
        unit != seq!['d', 'a', 'y', 's'],
    ensures
        ttl_verdict(digits + unit) == Err::<nat, ErrorView>(
            ErrorView::InvalidSlug("invalid ttl unit in: "@ + (digits + unit)),
        ),
{
    let s = digits + unit;
    assert(is_digit(digits[0]));
    assert(s[0] == digits[0]);
    assert(s.last() == unit.last());
    crate::text::trim_of_unpadded(s);
    assert(s[digits.len() as int] == unit[0]);
    assert(!all_digits(s));
    assert forall|j: int| 0 <= j < digits.len() implies is_digit(#[trigger] s[j]) by {
        assert(s[j] == digits[j]);
    }
    lemma_leading_digits_skip(s, digits.len() as int);
    let rest = s.subrange(digits.len() as int, s.len() as int);
    assert(rest == unit);
    assert(s.subrange(0, digits.len() as int) == digits);
    assert(unit_seconds(unit) is None);
}

} // verus!
