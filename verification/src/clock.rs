//! Points in time, as `chrono` reads and writes them.
use vstd::prelude::*;
use chrono::SecondsFormat;

verus! {

/// The first second, counted from 1970, that a `chrono::DateTime<Utc>` can hold.
pub const MIN_SECS: i64 = -8334601228800;

/// The last second, counted from 1970, that a `chrono::DateTime<Utc>` can hold.
pub const MAX_SECS: i64 = 8210266876799;

/// A point in time: seconds since 1970 and nanoseconds into the second.
#[derive(Clone, Copy, Debug, PartialEq, Eq, Structural)]
pub struct Timestamp {
    pub secs: i64,
    pub nanos: u32,
}

impl Timestamp {
    /// Whether `chrono` can hold this time, outside leap seconds.
    pub open spec fn valid(&self) -> bool {
        MIN_SECS <= self.secs <= MAX_SECS && self.nanos < 1_000_000_000
    }

    /// Whether this time is before `other`.
    pub open spec fn before_spec(&self, other: Timestamp) -> bool {
        self.secs < other.secs || (self.secs == other.secs && self.nanos < other.nanos)
    }

    /// Whether this time is before `other`.
    pub fn before(&self, other: Timestamp) -> (r: bool)
        ensures
            r == self.before_spec(other),
    {
        self.secs < other.secs || (self.secs == other.secs && self.nanos < other.nanos)
    }
}

/// The whole seconds from `from` to `to`, or 0 where `to` is not after `from`.
pub open spec fn whole_seconds(from: Timestamp, to: Timestamp) -> int {
    let d: int = (to.secs - from.secs) * 1_000_000_000 + (to.nanos - from.nanos);
    if d <= 0 {
        0
    } else {
        d / 1_000_000_000
    }
}

/// The whole seconds that are left from `from` to `to`.
pub fn seconds_left(from: Timestamp, to: Timestamp) -> (r: i64)
    requires
        from.valid(),
        to.valid(),
    ensures
        r == whole_seconds(from, to),
{
    let d: i64 = to.secs - from.secs;
    if to.nanos < from.nanos {
        if d <= 0 {
            0
        } else {
            d - 1
        }
    } else if d < 0 {
        0
    } else {
        d
    }
}

/// `chrono::Utc::now`: some time from 1970 on that `chrono` can hold. `chrono`
/// panics where the system clock is set before 1970.
#[verifier::external_body]
pub(crate) fn system_now() -> (r: Timestamp)
    ensures
        r.valid(),
        r.secs >= 0,
{
    let now = chrono::Utc::now();
    Timestamp { secs: now.timestamp(), nanos: now.timestamp_subsec_nanos() }
}

/// The current time.
pub fn utc_now() -> (r: Timestamp)
    ensures
        r.valid(),
        r.secs >= 0,
{
    system_now()
}

/// A time as RFC 3339 text with a numeric offset.
pub uninterp spec fn rfc3339_text(secs: i64, nanos: u32) -> Seq<char>;

/// `chrono::DateTime::<Utc>::to_rfc3339`: the text depends on the time alone.
#[verifier::external_body]
pub(crate) fn rfc3339(t: Timestamp) -> (r: String)
    requires
        t.valid(),
    ensures
        r@ == rfc3339_text(t.secs, t.nanos),
{
    chrono::DateTime::from_timestamp(t.secs, t.nanos).unwrap().to_rfc3339()
}

/// A time as RFC 3339 text that ends in `Z`, which is how `chrono` serialises it.
pub uninterp spec fn json_time_text(secs: i64, nanos: u32) -> Seq<char>;

/// `chrono::DateTime::<Utc>::to_rfc3339_opts` with automatic fractions and `Z`:
/// the text depends on the time alone.
#[verifier::external_body]
pub(crate) fn json_time(t: Timestamp) -> (r: String)
    requires
        t.valid(),
    ensures
        r@ == json_time_text(t.secs, t.nanos),
{
    chrono::DateTime::from_timestamp(t.secs, t.nanos).unwrap().to_rfc3339_opts(SecondsFormat::AutoSi, true)
}

/// A time as `chrono` displays it.
pub uninterp spec fn display_time_text(secs: i64, nanos: u32) -> Seq<char>;

/// `Display` of `chrono::DateTime<Utc>`: the text depends on the time alone.
#[verifier::external_body]
pub(crate) fn display_time(t: Timestamp) -> (r: String)
    requires
        t.valid(),
    ensures
        r@ == display_time_text(t.secs, t.nanos),
{
    chrono::DateTime::from_timestamp(t.secs, t.nanos).unwrap().to_string()
}

/// The date of a time, as year, month and day joined by hyphens.
pub uninterp spec fn date_text(secs: i64, nanos: u32) -> Seq<char>;

/// `chrono::DateTime::<Utc>::format` with `%Y-%m-%d`: the text depends on the
/// time alone.
#[verifier::external_body]
pub(crate) fn date(t: Timestamp) -> (r: String)
    requires
        t.valid(),
    ensures
        r@ == date_text(t.secs, t.nanos),
{
    chrono::DateTime::from_timestamp(t.secs, t.nanos).unwrap().format("%Y-%m-%d").to_string()
}

/// The current time as RFC 3339 text.
pub fn now_rfc3339() -> (r: String)
    ensures
        exists|t: Timestamp| t.valid() && t.secs >= 0 && r@ == #[trigger] rfc3339_text(t.secs, t.nanos),
{
    let t: Timestamp = system_now();
    rfc3339(t)
}

/// A requested date, or today's.
pub fn date_or_today(date: Option<String>, today: Timestamp) -> (r: String)
    requires
        today.valid(),
    ensures
        r@ == match date {
            Some(d) => d@,
            None => date_text(today.secs, today.nanos),
        },
{
    match date {
        Some(d) => d,
        None => self::date(today),
    }
}

} // verus!
