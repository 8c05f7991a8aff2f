//! Instants of log entries and their text forms.
use chrono::{DateTime, FixedOffset, Local};
use vstd::prelude::*;

verus! {

/// The earliest second (since the Unix epoch) that chrono's
/// `DateTime::from_timestamp` accepts: -262143-01-01 00:00:00 UTC, the first
/// instant of `NaiveDate::MIN`.
pub const MIN_SECS: i64 = -8334601228800i64;

/// The latest second (since the Unix epoch) that chrono's
/// `DateTime::from_timestamp` accepts: 262142-12-31 23:59:59 UTC, the last second
/// of `NaiveDate::MAX`.
pub const MAX_SECS: i64 = 8210266876799i64;

/// The format of timestamps in component log entries: day/month/two-digit year,
/// 12-hour clock time with AM/PM, UTC offset.
pub const ENTRY_FORMAT: &'static str = "%d/%m/%y %r %Z";

/// The format of timestamps in message log entries.
pub const MESSAGE_FORMAT: &'static str = "%Y-%m-%d %H:%M:%S";

/// Whether the parts describe an instant that chrono can represent, with an
/// offset that chrono accepts.
pub open spec fn instant_ok(secs: int, nanos: int, offset: int) -> bool {
    &&& MIN_SECS <= secs <= MAX_SECS
    &&& 0 <= nanos < 1_000_000_000
    &&& -86_400 < offset < 86_400
}

/// A moment in time together with the UTC offset of the clock that read it.
#[derive(Clone, Copy, Debug)]
pub struct Timestamp {
    secs: i64,
    nanos: u32,
    offset: i32,
}

impl Timestamp {
    #[verifier::type_invariant]
    spec fn inv(self) -> bool {
        instant_ok(self.secs as int, self.nanos as int, self.offset as int)
    }

    /// Whole seconds since the Unix epoch.
    pub closed spec fn secs_spec(self) -> int {
        self.secs as int
    }

    /// Nanoseconds past `secs_spec`.
    pub closed spec fn nanos_spec(self) -> int {
        self.nanos as int
    }

    /// Seconds that the clock's local time is ahead of UTC.
    pub closed spec fn offset_spec(self) -> int {
        self.offset as int
    }

    /// The same instant: what chrono's `==` on two date-times compares (the
    /// offsets play no part).
    pub open spec fn same_instant(self, other: Timestamp) -> bool {
        self.secs_spec() == other.secs_spec() && self.nanos_spec() == other.nanos_spec()
    }

    /// A timestamp from its parts, when chrono can represent them.
    pub fn new(secs: i64, nanos: u32, offset: i32) -> (r: Option<Timestamp>)
        ensures
            r is Some <==> instant_ok(secs as int, nanos as int, offset as int),
            r matches Some(t) ==> t.secs_spec() == secs && t.nanos_spec() == nanos
                && t.offset_spec() == offset,
    {
        if MIN_SECS <= secs && secs <= MAX_SECS && nanos < 1_000_000_000 && -86_400 < offset
            && offset < 86_400 {
            Some(Timestamp { secs, nanos, offset })
        } else {
            None
        }
    }

    pub fn secs(&self) -> (r: i64)
        ensures
            r == self.secs_spec(),
    {
        self.secs
    }

    pub fn nanos(&self) -> (r: u32)
        ensures
            r == self.nanos_spec(),
    {
        self.nanos
    }

    pub fn offset(&self) -> (r: i32)
        ensures
            r == self.offset_spec(),
    {
        self.offset
    }

    /// Whether two timestamps name the same instant.
    pub fn same_instant_as(&self, other: &Timestamp) -> (r: bool)
        ensures
            r == self.same_instant(*other),
    {
        self.secs == other.secs && self.nanos == other.nanos
    }

    /// The timestamp written with one of the library's chrono formats.
    pub fn format(&self, fmt: &str) -> (r: String)
        requires
            fmt@ == ENTRY_FORMAT@ || fmt@ == MESSAGE_FORMAT@,
        ensures
            r@ == chrono_format(self.secs_spec(), self.nanos_spec(), self.offset_spec(), fmt@),
    {
        proof {
            use_type_invariant(self);
        }
        format_instant(self.secs, self.nanos, self.offset, fmt)
    }

    /// The timestamp as chrono displays a date-time.
    pub fn display(&self) -> (r: String)
        ensures
            r@ == chrono_display(self.secs_spec(), self.nanos_spec(), self.offset_spec()),
    {
        proof {
            use_type_invariant(self);
        }
        display_instant(self.secs, self.nanos, self.offset)
    }
}

/// What chrono's `DateTime::format(fmt).to_string()` gives for the instant
/// `secs`/`nanos` seen at UTC offset `offset`.
pub uninterp spec fn chrono_format(secs: int, nanos: int, offset: int, fmt: Seq<char>) -> Seq<char>;

/// What chrono's `DateTime::to_string()` gives for the instant `secs`/`nanos` seen at
/// UTC offset `offset`.
pub uninterp spec fn chrono_display(secs: int, nanos: int, offset: int) -> Seq<char>;

/// Reads the local clock.
///
/// Trusted: `chrono::Local::now()`. Its seconds, nanoseconds and offset are within
/// the ranges that chrono's `DateTime<FixedOffset>` can hold (the type invariant of
/// `Timestamp`): chrono builds the value from `SystemTime`, whose sub-second part is
/// below one second, and a `FixedOffset` lies strictly within a day. Which instant
/// comes back depends on the clock and is left unsaid.
#[verifier::external_body]
pub(crate) fn local_now() -> (t: Timestamp) {
    let now = Local::now();
    Timestamp { secs: now.timestamp(), nanos: now.timestamp_subsec_nanos(), offset: now.offset().local_minus_utc() }
}

/// Formats an instant.
///
/// Trusted: chrono's `DateTime::<Utc>::from_timestamp(secs, nanos)`, turned to the
/// `FixedOffset` of `offset` seconds and formatted with `fmt`. The result is a
/// function of the four arguments, named `chrono_format`. The two `unwrap`s hold
/// because `requires` keeps the parts within chrono's ranges, and chrono accepts
/// both of the library's format strings.
#[verifier::external_body]
fn format_instant(secs: i64, nanos: u32, offset: i32, fmt: &str) -> (r: String)
    requires
        instant_ok(secs as int, nanos as int, offset as int),
        fmt@ == ENTRY_FORMAT@ || fmt@ == MESSAGE_FORMAT@,
    ensures
        r@ == chrono_format(secs as int, nanos as int, offset as int, fmt@),
{
    let utc = DateTime::from_timestamp(secs, nanos).unwrap();
    utc.with_timezone(&FixedOffset::east_opt(offset).unwrap()).format(fmt).to_string()
}

/// Displays an instant.
///
/// Trusted: chrono's `DateTime::<Utc>::from_timestamp(secs, nanos)`, turned to the
/// `FixedOffset` of `offset` seconds and displayed with `to_string`. The result is a
/// function of the three arguments, named `chrono_display`.
#[verifier::external_body]
fn display_instant(secs: i64, nanos: u32, offset: i32) -> (r: String)
    requires
        instant_ok(secs as int, nanos as int, offset as int),
    ensures
        r@ == chrono_display(secs as int, nanos as int, offset as int),
{
    let utc = DateTime::from_timestamp(secs, nanos).unwrap();
    utc.with_timezone(&FixedOffset::east_opt(offset).unwrap()).to_string()
}

} // verus!
