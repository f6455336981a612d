//! Page records: what is known of a stored page, its timestamps and its expiry.

use vstd::prelude::*;
use crate::error::ErrorView;
use crate::error::LinkdropError;

verus! {

/// The earliest second `chrono` can represent (1 January of year -262143, UTC).
pub const MIN_TIMESTAMP: i64 = -8334601315200;

/// The latest second `chrono` can represent (31 December of year 262142, 23:59:59 UTC).
pub const MAX_TIMESTAMP: i64 = 8210266876799;

/// The largest whole number of seconds a `chrono::TimeDelta` holds (`i64::MAX` milliseconds).
pub const MAX_DELTA_SECS: u64 = 9223372036854775;

/// A UTC instant: whole seconds since the Unix epoch and the nanoseconds past them.
#[derive(Clone, Copy, Debug, PartialEq, Eq, Structural)]
pub struct Timestamp {
    pub secs: i64,
    pub nanos: u32,
}

/// An instant that `chrono` represents as an ordinary (non-leap) time.
pub open spec fn valid_timestamp(t: Timestamp) -> bool {
    MIN_TIMESTAMP <= t.secs <= MAX_TIMESTAMP && t.nanos < 1_000_000_000
}

/// `a` is the same instant as `b` or an earlier one.
pub open spec fn at_or_before(a: Timestamp, b: Timestamp) -> bool {
    a.secs < b.secs || (a.secs == b.secs && a.nanos <= b.nanos)
}

/// The seconds a TTL adds to the creation time: `TimeDelta::from_std` of it,
/// or nothing when it is longer than a `TimeDelta` holds.
pub open spec fn effective_ttl(ttl: u64) -> int {
    if ttl <= MAX_DELTA_SECS {
        ttl as int
    } else {
        0
    }
}

/// When a page created at `now` with `ttl` seconds to live expires.
pub open spec fn expiry_of(now: Timestamp, ttl: u64) -> Timestamp {
    Timestamp { secs: (now.secs + effective_ttl(ttl)) as i64, nanos: now.nanos }
}

/// Adding `ttl` to `now` stays within what `chrono` represents (beyond it the
/// addition panics).
pub open spec fn expiry_representable(now: Timestamp, ttl: Option<u64>) -> bool {
    ttl matches Some(d) ==> now.secs + effective_ttl(d) <= MAX_TIMESTAMP
}

/// What is known of a stored page.
#[derive(Clone, Debug)]
pub struct PageRecord {
    pub slug: String,
    pub filename: String,
    pub created_at: Timestamp,
    pub expires_at: Option<Timestamp>,
    pub size_bytes: i64,
}

/// The instant that `DateTime::from_timestamp(secs, 0)` gives, when there is one.
pub open spec fn from_timestamp(secs: i64) -> Option<Timestamp> {
    if MIN_TIMESTAMP <= secs <= MAX_TIMESTAMP {
        Some(Timestamp { secs, nanos: 0 })
    } else {
        None
    }
}

/// Whether [`PageRecord::new_at`] can be called with `now` and `ttl`.
pub fn expiry_in_range(now: Timestamp, ttl: Option<u64>) -> (b: bool)
    ensures
        b == expiry_representable(now, ttl),
{
    match ttl {
        Some(d) => {
            let eff: i128 = if d <= MAX_DELTA_SECS {
                d as i128
            } else {
                0
            };
            (now.secs as i128) + eff <= MAX_TIMESTAMP as i128
        },
        None => true,
    }
}

fn timestamp_from_secs(secs: i64) -> (r: Option<Timestamp>)
    ensures
        r == from_timestamp(secs),
{
    if MIN_TIMESTAMP <= secs && secs <= MAX_TIMESTAMP {
        Some(Timestamp { secs, nanos: 0 })
    } else {
        None
    }
}

impl PageRecord {
    /// The record of a page stored at `now`: created then, expiring `ttl`
    /// seconds later when a TTL is given, `size_bytes` long.
    pub fn new_at(slug: &str, filename: &str, size_bytes: usize, ttl: Option<u64>, now: Timestamp) -> (r: PageRecord)
        requires
            expiry_representable(now, ttl),
        ensures
            r.slug@ == slug@,
            r.filename@ == filename@,
            r.created_at == now,
            r.expires_at == (match ttl {
                Some(d) => Some(expiry_of(now, d)),
                None => None::<Timestamp>,
            }),
            r.size_bytes == size_bytes as i64,
            valid_timestamp(now) ==> (r.expires_at matches Some(e) ==> valid_timestamp(e)),
    {
        let expires_at = match ttl {
            Some(d) => {
                let eff: i64 = if d <= MAX_DELTA_SECS {
                    d as i64
                } else {
                    0
                };
                Some(Timestamp { secs: now.secs + eff, nanos: now.nanos })
            },
            None => None,
        };
        PageRecord {
            slug: String::from_str(slug),
            filename: String::from_str(filename),
            created_at: now,
            expires_at,
            size_bytes: size_bytes as i64,
        }
    }

    /// The record read back from a stored row: the creation time falls back to
    /// the Unix epoch and the expiry to none when `chrono` cannot represent them.
    pub fn from_row(slug: String, filename: String, created_secs: i64, expires_secs: Option<i64>, size_bytes: i64) -> (r: PageRecord)
        ensures
            r.slug == slug,
            r.filename == filename,
            r.created_at == (match from_timestamp(created_secs) {
                Some(t) => t,
                None => Timestamp { secs: 0, nanos: 0 },
            }),
            r.expires_at == (match expires_secs {
                Some(e) => from_timestamp(e),
                None => None,
            }),
            r.size_bytes == size_bytes,
    {
        let created_at = match timestamp_from_secs(created_secs) {
            Some(t) => t,
            None => Timestamp { secs: 0, nanos: 0 },
        };
        let expires_at = match expires_secs {
            Some(e) => timestamp_from_secs(e),
            None => None,
        };
        PageRecord { slug, filename, created_at, expires_at, size_bytes }
    }

    /// Whether the page's expiry time has come by `now`.
    pub fn is_expired(&self, now: Timestamp) -> (b: bool)
        ensures
            b == (self.expires_at matches Some(e) && at_or_before(e, now)),
    {
        match self.expires_at {
            Some(e) => e.secs < now.secs || (e.secs == now.secs && e.nanos <= now.nanos),
            None => false,
        }
    }

    /// Refuses the page with [`LinkdropError::Expired`] once it has expired.
    pub fn check_not_expired(&self, now: Timestamp) -> (r: Result<(), LinkdropError>)
        ensures
            r is Ok <==> !(self.expires_at matches Some(e) && at_or_before(e, now)),
            r matches Err(e) ==> e@ == ErrorView::Expired(self.slug@),
    {
        if self.is_expired(now) {
            return Err(LinkdropError::Expired(self.slug.clone()));
        }
        Ok(())
    }
}

/// A page stored without a TTL never expires.
pub proof fn no_ttl_never_expires(r: PageRecord, now: Timestamp)
    requires
        r.expires_at is None,
    ensures
        !(r.expires_at matches Some(e) && at_or_before(e, now)),
{
}

/// Once expired, a page stays expired: expiry is monotone in time.
pub proof fn expiry_is_permanent(e: Timestamp, t1: Timestamp, t2: Timestamp)
    requires
        at_or_before(e, t1),
        at_or_before(t1, t2),
    ensures
        at_or_before(e, t2),
{
}

/// A page stored at `now` with a TTL of `d` seconds (no longer than a
/// `TimeDelta` holds, and with an expiry `chrono` can represent) is expired at `t` exactly when `d` seconds have passed
/// since `now`.
pub proof fn ttl_expires_after_exactly(now: Timestamp, d: u64, t: Timestamp)
    requires
        d <= MAX_DELTA_SECS,
        valid_timestamp(now),
        expiry_representable(now, Some(d)),
    ensures
        at_or_before(expiry_of(now, d), t) <==> (now.secs + d < t.secs || (now.secs + d == t.secs
            && now.nanos <= t.nanos)),
{
}

} // verus!

verus! {

/// A timestamp stored as its whole seconds and read back (as the database
/// round trip of a record does) keeps its second and loses only its
/// nanoseconds; this holds of every creation and expiry time that
/// [`PageRecord::new_at`] makes.
pub proof fn stored_timestamp_round_trip(t: Timestamp)
    requires
        valid_timestamp(t),
    ensures
        from_timestamp(t.secs) == Some(Timestamp { secs: t.secs, nanos: 0 }),
{
}

} // verus!

verus! {

/// The text `DateTime::<Utc>::to_rfc3339` renders for the instant `secs`
/// seconds and `nanos` nanoseconds after the Unix epoch.
pub uninterp spec fn rfc3339_text(secs: i64, nanos: u32) -> Seq<char>;

/// Builds the `chrono::DateTime<Utc>` of an instant with `DateTime::from_timestamp`
/// and renders it with `DateTime::to_rfc3339`.
///
/// Claimed of the outside code: the text is a function of the instant
/// (`rfc3339_text`), and `from_timestamp` gives a date-time for every second
/// within chrono's range when the nanoseconds are below one second.  Nothing
/// is said of the text's form.
#[verifier::external_body]
fn chrono_rfc3339(secs: i64, nanos: u32) -> (r: Option<String>)
    ensures
        r matches Some(s) ==> s@ == rfc3339_text(secs, nanos),
        MIN_TIMESTAMP <= secs <= MAX_TIMESTAMP && nanos < 1_000_000_000 ==> r is Some,
{
    match chrono::DateTime::from_timestamp(secs, nanos) {
        Some(d) => Some(d.to_rfc3339()),
        None => None,
    }
}

/// The RFC 3339 text of an instant, as the API reports creation and expiry times.
pub fn rfc3339(t: Timestamp) -> (s: String)
    requires
        valid_timestamp(t),
    ensures
        s@ == rfc3339_text(t.secs, t.nanos),
{
    match chrono_rfc3339(t.secs, t.nanos) {
        Some(s) => s,
        None => String::new(),
    }
}

/// Whether `t` is an instant `chrono` represents (see [`valid_timestamp`]).
pub fn is_valid_timestamp(t: Timestamp) -> (b: bool)
    ensures
        b == valid_timestamp(t),
{
    MIN_TIMESTAMP <= t.secs && t.secs <= MAX_TIMESTAMP && t.nanos < 1_000_000_000
}

impl PageRecord {
    /// Whether the record's creation and expiry times are instants `chrono`
    /// represents, as every record made by [`PageRecord::new_at`] from a valid
    /// time and every record read back with [`PageRecord::from_row`] is.
    pub fn has_valid_times(&self) -> (b: bool)
        ensures
            b == (valid_timestamp(self.created_at) && (self.expires_at matches Some(e)
                ==> valid_timestamp(e))),
    {
        is_valid_timestamp(self.created_at) && match self.expires_at {
            Some(e) => is_valid_timestamp(e),
            None => true,
        }
    }
}

/// Records read back from the database always carry valid times.
pub proof fn rows_have_valid_times(created_secs: i64, expires_secs: Option<i64>)
    ensures
        valid_timestamp(
            match from_timestamp(created_secs) {
                Some(t) => t,
                None => Timestamp { secs: 0, nanos: 0 },
            },
        ),
        (match expires_secs {
            Some(e) => from_timestamp(e),
            None => None,
        }) matches Some(t) ==> valid_timestamp(t),
{
}

} // verus!
