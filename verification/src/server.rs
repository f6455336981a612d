//! The HTTP server's decisions: its settings, who may use the API, and how
//! requests are answered.

use vstd::prelude::*;
use crate::config::nonempty;
use crate::config::opt_view;
use crate::error::ErrorView;
use crate::error::LinkdropError;
use crate::record::PageRecord;
use crate::record::rfc3339;
use crate::record::rfc3339_text;
use crate::record::valid_timestamp;
use crate::text::strip_prefix;
use crate::text::strip_prefix_str;
use crate::text::trim_end_char;
use crate::text::trim_end_matches_char;
use crate::ttl::parse_u64_spec;
use crate::ttl::parse_ttl;
use crate::ttl::ttl_fits;
use crate::ttl::ttl_verdict;

verus! {

/// The address the server is reached at when `LINKDROP_URL` is not set.
pub open spec fn default_public_url() -> Seq<char> {
    "http://localhost:8080"@
}

/// The port listened on when `PORT` is not a port number.
pub const DEFAULT_PORT: u16 = 8080;

/// The API token from `LINKDROP_TOKEN`, which must be set and not empty.
pub fn server_token(env: Option<String>) -> (r: Option<String>)
    ensures
        r matches Some(t) ==> opt_view(env) == Some(t@) && t@.len() > 0,
        r is None ==> !nonempty(opt_view(env)),
{
    match env {
        Some(t) => {
            if t.as_str().is_empty() {
                None
            } else {
                Some(t)
            }
        },
        None => None,
    }
}

/// The URL pages are published under: `LINKDROP_URL` when set and not empty,
/// else `http://localhost:8080`, without trailing slashes.
pub fn public_url(env: Option<String>) -> (r: String)
    ensures
        r@ == trim_end_char(
            (if nonempty(opt_view(env)) {
                env->0@
            } else {
                default_public_url()
            }),
            '/',
        ),
{
    let base = match env {
        Some(u) => {
            if u.as_str().is_empty() {
                String::from_str("http://localhost:8080")
            } else {
                u
            }
        },
        None => String::from_str("http://localhost:8080"),
    };
    trim_end_matches_char(base.as_str(), '/')
}

/// `PORT` read as a `u16` (what `str::parse::<u16>` accepts), else 8080.
pub open spec fn port_of(env: Option<Seq<char>>) -> u16 {
    match env {
        Some(s) => match parse_u64_spec(s) {
            Some(v) => if v <= u16::MAX {
                v as u16
            } else {
                DEFAULT_PORT
            },
            None => DEFAULT_PORT,
        },
        None => DEFAULT_PORT,
    }
}

/// The port to listen on: `PORT` read as a `u16`, else 8080.
pub fn listen_port(env: Option<&str>) -> (p: u16)
    ensures
        p == port_of(
            match env {
                Some(s) => Some(s@),
                None => None,
            },
        ),
{
    match env {
        Some(s) => {
            let cs = crate::text::to_chars(s);
            match crate::ttl::parse_u64_chars(&cs, 0, cs.len()) {
                Some(v) => {
                    assert(cs@.subrange(0, cs@.len() as int) == s@);
                    if v <= 65535 {
                        v as u16
                    } else {
                        DEFAULT_PORT
                    }
                },
                None => {
                    assert(cs@.subrange(0, cs@.len() as int) == s@);
                    DEFAULT_PORT
                },
            }
        },
        None => DEFAULT_PORT,
    }
}

/// The token a request presents: the `Authorization` header's value after
/// `Bearer `, or else the `x-linkdrop-token` header's value.
pub open spec fn presented_token(authorization: Option<Seq<char>>, alt_token: Option<Seq<char>>) -> Option<Seq<char>> {
    match authorization {
        Some(a) => match strip_prefix(a, "Bearer "@) {
            Some(t) => Some(t),
            None => alt_token,
        },
        None => alt_token,
    }
}

/// Whether a request may use the API: it presents exactly the server's token.
/// `authorization` and `alt_token` are the `Authorization` and
/// `x-linkdrop-token` header values, where present and readable as text.
pub fn is_authorized(authorization: Option<&str>, alt_token: Option<&str>, token: &str) -> (b: bool)
    ensures
        b == (presented_token(
            match authorization {
                Some(a) => Some(a@),
                None => None,
            },
            match alt_token {
                Some(t) => Some(t@),
                None => None,
            },
        ) == Some(token@)),
{
    let stripped = match authorization {
        Some(a) => strip_prefix_str(a, "Bearer "),
        None => None,
    };
    match stripped {
        Some(t) => {
            let tk = String::from_str(token);
            t == tk
        },
        None => match alt_token {
            Some(t) => {
                let ts = String::from_str(t);
                let tk = String::from_str(token);
                ts == tk
            },
            None => false,
        },
    }
}

/// The public URL of the page stored under `slug`.
pub fn page_url(public_url: &str, slug: &str) -> (r: String)
    ensures
        r@ == public_url@ + "/"@ + slug@,
{
    let mut r = String::from_str(public_url);
    r.append("/");
    r.append(slug);
    r
}

/// What the API reports of a stored page.
pub struct PageSummary {
    pub slug: String,
    pub url: String,
    pub created_at: String,
    pub expires_at: Option<String>,
    pub size_bytes: i64,
}

/// The API's report of `record`: its slug, its public URL, its creation and
/// expiry times in RFC 3339 and its size.
pub fn page_summary(public_url: &str, record: &PageRecord) -> (r: PageSummary)
    requires
        valid_timestamp(record.created_at),
        record.expires_at matches Some(e) ==> valid_timestamp(e),
    ensures
        r.slug@ == record.slug@,
        r.url@ == public_url@ + "/"@ + record.slug@,
        r.created_at@ == rfc3339_text(record.created_at.secs, record.created_at.nanos),
        r.expires_at is Some <==> record.expires_at is Some,
        r.expires_at matches Some(x) ==> x@ == rfc3339_text(
            record.expires_at->0.secs,
            record.expires_at->0.nanos,
        ),
        r.size_bytes == record.size_bytes,
{
    let expires_at = match record.expires_at {
        Some(e) => Some(rfc3339(e)),
        None => None,
    };
    PageSummary {
        slug: record.slug.clone(),
        url: page_url(public_url, record.slug.as_str()),
        created_at: rfc3339(record.created_at),
        expires_at,
        size_bytes: record.size_bytes,
    }
}

/// A push request's options once read: the TTL in seconds and whether to overwrite.
pub struct PushOptions {
    pub ttl: Option<u64>,
    pub force: bool,
}

/// An optional string slice taken by its characters.
pub open spec fn opt_str(o: Option<&str>) -> Option<Seq<char>> {
    match o {
        Some(s) => Some(s@),
        None => None,
    }
}

/// The error a push request's TTL is refused with, if it is.
pub open spec fn ttl_refusal(ttl: Option<Seq<char>>) -> Option<ErrorView> {
    match ttl {
        Some(t) => match ttl_verdict(t) {
            Err(e) => Some(e),
            Ok(_) => None,
        },
        None => None,
    }
}

/// Reads a push request's options and checks its size: a TTL that does not
/// parse is refused first, then HTML over [`crate::storage::MAX_HTML_BYTES`];
/// `force` defaults to false.
pub fn prepare_push(ttl: Option<&str>, force: Option<bool>, html_len: usize) -> (r: Result<PushOptions, LinkdropError>)
    requires
        ttl matches Some(t) ==> ttl_fits(t@),
    ensures
        ttl_refusal(opt_str(ttl)) matches Some(err) ==> (r matches Err(e) && e@ == err),
        ttl_refusal(opt_str(ttl)) is None && html_len > crate::storage::MAX_HTML_BYTES ==> (
        r matches Err(e) && e@ == ErrorView::TooLarge { max: crate::storage::MAX_HTML_BYTES }),
        ttl_refusal(opt_str(ttl)) is None && html_len <= crate::storage::MAX_HTML_BYTES ==> r is Ok,
        (match ttl {
            Some(t) => ttl_verdict(t@) is Ok,
            None => true,
        }) && html_len <= crate::storage::MAX_HTML_BYTES ==> (r matches Ok(o) && o.force == (force
            == Some(true)) && (match ttl {
            Some(t) => o.ttl matches Some(secs) && ttl_verdict(t@) == Ok::<nat, ErrorView>(
                secs as nat,
            ),
            None => o.ttl is None,
        })),
        r matches Ok(o) ==> html_len <= crate::storage::MAX_HTML_BYTES && o.force == (force
            == Some(true)) && (match ttl {
            Some(t) => o.ttl matches Some(secs) && ttl_verdict(t@) == Ok::<nat, ErrorView>(
                secs as nat,
            ),
            None => o.ttl is None,
        }),
{
    let force = match force {
        Some(f) => f,
        None => false,
    };
    let ttl = match ttl {
        Some(t) => match parse_ttl(t) {
            Ok(d) => Some(d),
            Err(e) => return Err(e),
        },
        None => None,
    };
    if html_len > crate::storage::MAX_HTML_BYTES {
        return Err(LinkdropError::TooLarge { max: crate::storage::MAX_HTML_BYTES });
    }
    Ok(PushOptions { ttl, force })
}

/// The answer to a delete: a page that was not there to delete is not found.
pub fn confirm_deleted(slug: String, deleted: bool) -> (r: Result<(), LinkdropError>)
    ensures
        deleted ==> r is Ok,
        !deleted ==> (r matches Err(e) && e@ == ErrorView::NotFound(slug@)),
{
    if deleted {
        Ok(())
    } else {
        Err(LinkdropError::NotFound(slug))
    }
}

/// A request that presents no credential is refused, and a request that
/// presents `Bearer <token>` is let in whatever its other header says.
pub proof fn authorization_law(token: Seq<char>, alt: Option<Seq<char>>)
    ensures
        presented_token(None, None) != Some(token),
        presented_token(Some("Bearer "@ + token), alt) == Some(token),
{
    let a = "Bearer "@ + token;
    let p = "Bearer "@;
    assert(a.subrange(0, p.len() as int) == p);
    assert(a.subrange(p.len() as int, a.len() as int) == token);
}

} // verus!

verus! {

/// Which token a request presents, in plain terms: an `Authorization` value
/// that starts with `Bearer ` presents the rest of it; any other
/// `Authorization` value, or none, presents the `x-linkdrop-token` value (or
/// nothing).  So a request whose `Authorization` lacks the `Bearer ` prefix
/// and that has no `x-linkdrop-token` is refused, whatever the token.
pub proof fn presented_token_rules(a: Seq<char>, alt: Option<Seq<char>>, token: Seq<char>)
    ensures
        a.len() >= 7 && a.subrange(0, 7) == seq!['B', 'e', 'a', 'r', 'e', 'r', ' ']
            ==> presented_token(Some(a), alt) == Some(a.subrange(7, a.len() as int)),
        !(a.len() >= 7 && a.subrange(0, 7) == seq!['B', 'e', 'a', 'r', 'e', 'r', ' '])
            ==> presented_token(Some(a), alt) == alt,
        presented_token(None, alt) == alt,
        !(a.len() >= 7 && a.subrange(0, 7) == seq!['B', 'e', 'a', 'r', 'e', 'r', ' '])
            ==> presented_token(Some(a), None) != Some(token),
{
    reveal_strlit("Bearer ");
    assert("Bearer "@ == seq!['B', 'e', 'a', 'r', 'e', 'r', ' ']);
}

/// A push is refused for its TTL exactly when the TTL does not parse; a push
/// whose TTL parses (or that has none) and whose HTML fits is accepted, with
/// the parsed seconds as its TTL.
pub proof fn push_refused_for_ttl_only_when_unparsable(t: Seq<char>)
    ensures
        ttl_refusal(Some(t)) is Some <==> ttl_verdict(t) is Err,
        ttl_verdict(t) matches Err(e) ==> ttl_refusal(Some(t)) == Some(e),
        ttl_refusal(None) is None,
{
}

} // verus!
