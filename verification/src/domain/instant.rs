//! Instants of UTC time as the engine holds them, and their text as the store keeps it.

use vstd::prelude::*;
use std::fmt::Write;

verus! {

/// The text form in which the store keeps an instant: second precision, UTC.
pub const STORAGE_FORMAT: &'static str = "%Y-%m-%d %H:%M:%S";

/// The same with `T` between date and time.
pub const ISO_FORMAT: &'static str = "%Y-%m-%dT%H:%M:%S";

/// The same with `T` and an optional fraction of a second.
pub const ISO_FRACTION_FORMAT: &'static str = "%Y-%m-%dT%H:%M:%S%.f";

/// An instant of UTC time: whole seconds since 1970-01-01 00:00:00, and the
/// nanoseconds since that whole second.
#[derive(Debug, Clone, Copy, PartialEq, Eq, Structural)]
pub struct Timestamp {
    pub secs: i64,
    pub nanos: u32,
}

impl Timestamp {
    /// This instant is strictly earlier than `other`.
    pub open spec fn before(&self, other: &Timestamp) -> bool {
        self.secs < other.secs || (self.secs == other.secs && self.nanos < other.nanos)
    }

    /// This instant is `other` or earlier.
    pub open spec fn at_or_before(&self, other: &Timestamp) -> bool {
        self.before(other) || *self == *other
    }

    /// Whether this instant is strictly earlier than `other`.
    pub fn is_before(&self, other: &Timestamp) -> (r: bool)
        ensures
            r == self.before(other),
    {
        self.secs < other.secs || (self.secs == other.secs && self.nanos < other.nanos)
    }

    /// Whether this instant is strictly later than `other`.
    pub fn is_after(&self, other: &Timestamp) -> (r: bool)
        ensures
            r == other.before(self),
    {
        other.is_before(self)
    }
}

/// What chrono writes for the UTC instant `secs`, `nanos` under the format `fmt`;
/// `None` where it has no such instant or cannot write it under that format.
pub uninterp spec fn utc_text(secs: int, nanos: int, fmt: Seq<char>) -> Option<Seq<char>>;

/// What chrono reads from `s` under the format `fmt` as a date and time of day, taken
/// as UTC; `None` where `s` is not of that format.
pub uninterp spec fn naive_instant(s: Seq<char>, fmt: Seq<char>) -> Option<Timestamp>;

/// `chrono::DateTime::<Utc>::from_timestamp` and `DateTime::format`: the instant written
/// under a strftime format. The text is a function of the three arguments alone. `None`
/// when chrono has no instant for the arguments or its formatter reports a failure.
#[verifier::external_body]
pub(crate) fn write_utc(secs: i64, nanos: u32, fmt: &str) -> (r: Option<String>)
    ensures
        match r {
            Some(s) => utc_text(secs as int, nanos as int, fmt@) == Some(s@),
            None => utc_text(secs as int, nanos as int, fmt@) is None,
        },
{
    let dt = chrono::DateTime::<chrono::Utc>::from_timestamp(secs, nanos)?;
    let mut s = String::new();
    write!(s, "{}", dt.format(fmt)).ok()?;
    Some(s)
}

/// `chrono::NaiveDateTime::parse_from_str`, the result taken as UTC: the instant that
/// `s` denotes under a strftime format. It is a function of the two arguments alone.
#[verifier::external_body]
pub(crate) fn read_naive(s: &str, fmt: &str) -> (r: Option<Timestamp>)
    ensures
        r == naive_instant(s@, fmt@),
{
    let dt = chrono::NaiveDateTime::parse_from_str(s, fmt).ok()?.and_utc();
    Some(Timestamp { secs: dt.timestamp(), nanos: dt.timestamp_subsec_nanos() })
}

/// `chrono::Utc::now`: the instant at which the call is made. Nothing is claimed of it.
#[verifier::external_body]
pub(crate) fn read_clock() -> (now: Timestamp) {
    let dt = chrono::Utc::now();
    Timestamp { secs: dt.timestamp(), nanos: dt.timestamp_subsec_nanos() }
}

/// `chrono::DateTime::with_timezone(&Local)` and `DateTime::format`: the instant
/// written under a strftime format in the time zone of this machine. The text
/// depends on the machine; nothing is claimed of it.
#[verifier::external_body]
pub(crate) fn write_local(secs: i64, nanos: u32, fmt: &str) -> (r: Option<String>) {
    let dt = chrono::DateTime::<chrono::Utc>::from_timestamp(secs, nanos)?;
    let mut s = String::new();
    write!(s, "{}", dt.with_timezone(&chrono::Local).format(fmt)).ok()?;
    Some(s)
}

/// The text under which the store keeps `t`, if chrono can write it.
pub open spec fn stored_text(t: Timestamp) -> Option<Seq<char>> {
    utc_text(t.secs as int, t.nanos as int, STORAGE_FORMAT@)
}

/// The instant that a stored text denotes: the first of the three accepted formats
/// under which it can be read decides.
pub open spec fn stored_instant(s: Seq<char>) -> Option<Timestamp> {
    if naive_instant(s, STORAGE_FORMAT@) is Some {
        naive_instant(s, STORAGE_FORMAT@)
    } else if naive_instant(s, ISO_FORMAT@) is Some {
        naive_instant(s, ISO_FORMAT@)
    } else {
        naive_instant(s, ISO_FRACTION_FORMAT@)
    }
}

/// The text under which the store keeps `t`: `YYYY-MM-DD HH:MM:SS`.
pub fn format_datetime(t: &Timestamp) -> (r: Option<String>)
    ensures
        match r {
            Some(s) => stored_text(*t) == Some(s@),
            None => stored_text(*t) is None,
        },
{
    write_utc(t.secs, t.nanos, STORAGE_FORMAT)
}

/// The instant that a stored text denotes, or `None` where it is of none of the
/// accepted formats.
pub fn parse_datetime(s: &str) -> (r: Option<Timestamp>)
    ensures
        r == stored_instant(s@),
{
    match read_naive(s, STORAGE_FORMAT) {
        Some(t) => Some(t),
        None => match read_naive(s, ISO_FORMAT) {
            Some(t) => Some(t),
            None => read_naive(s, ISO_FRACTION_FORMAT),
        },
    }
}

/// The instant now.
pub fn now() -> (t: Timestamp) {
    read_clock()
}

/// The instant `t` as a reader of this machine sees it: `YYYY-MM-DD HH:MM:SS` in the
/// machine's time zone, or nothing where the instant cannot be written.
pub fn local_text(t: &Timestamp) -> (r: String) {
    match write_local(t.secs, t.nanos, STORAGE_FORMAT) {
        Some(s) => s,
        None => String::new(),
    }
}

/// The instant that a filter names: `YYYY-MM-DDTHH:MM:SS`, taken as UTC.
pub fn parse_datetime_filter(s: &str) -> (r: Option<Timestamp>)
    ensures
        r == naive_instant(s@, ISO_FORMAT@),
{
    read_naive(s, ISO_FORMAT)
}

} // verus!
