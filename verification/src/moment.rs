//! Instants and the distance between two of them, held as plain numbers.
//!
//! A [`Timestamp`] is a point on the UTC time line and a [`Span`] is a signed
//! distance on it. Subtraction, comparison and the clock are the date and time
//! library's; the contracts here say what they return for these numbers.

use vstd::prelude::*;

verus! {

/// Nanoseconds in one second.
pub const NANOS_PER_SEC: i64 = 1_000_000_000;

/// Seconds in one minute.
pub const SECS_PER_MINUTE: i64 = 60;

/// Seconds in one hour.
pub const SECS_PER_HOUR: i64 = 3_600;

/// Seconds in one day.
pub const SECS_PER_DAY: i64 = 86_400;

/// Seconds in one week.
pub const SECS_PER_WEEK: i64 = 604_800;

/// The earliest second that a [`Timestamp`] can hold: the first of January of the
/// year -262143.
pub const MIN_SECS: i64 = -8_334_601_228_800;

/// The latest second that a [`Timestamp`] can hold: the last of December of the
/// year 262142.
pub const MAX_SECS: i64 = 8_210_266_876_799;

/// The greatest number of whole seconds between two [`Timestamp`]s.
pub const MAX_SPAN_SECS: i64 = 16_544_868_105_599;

/// An instant: whole seconds since the first of January 1970, 0:00 UTC, and the
/// nanoseconds past that second. Leap seconds are not counted and cannot be
/// expressed.
#[derive(Debug, Clone, Copy, PartialEq, Eq, Structural)]
pub struct Timestamp {
    secs: i64,
    nanos: u32,
}

/// A signed distance between two instants: whole seconds, rounded toward zero, and
/// the remaining nanoseconds, which have the sign of the whole.
#[derive(Debug, Clone, Copy, PartialEq, Eq, Structural)]
pub struct Span {
    secs: i64,
    nanos: i32,
}

/// The quotient of `a` by a positive `b`, rounded toward zero.
pub open spec fn toward_zero(a: int, b: int) -> int {
    if a >= 0 {
        a / b
    } else {
        -((-a) / b)
    }
}

/// The distance of `a` from zero.
pub open spec fn magnitude_of(a: int) -> nat {
    if a >= 0 {
        a as nat
    } else {
        (-a) as nat
    }
}

/// The distance of `a` from zero.
pub fn magnitude(a: i64) -> (m: u64)
    ensures
        m == magnitude_of(a as int),
{
    if a >= 0 {
        a as u64
    } else {
        (-(a + 1)) as u64 + 1
    }
}

impl Timestamp {
    /// The whole seconds since the epoch.
    pub closed spec fn seconds(self) -> int {
        self.secs as int
    }

    /// The nanoseconds past the whole second.
    pub closed spec fn subsec(self) -> int {
        self.nanos as int
    }

    /// The nanoseconds since the epoch.
    pub open spec fn total_nanos(self) -> int {
        self.seconds() * 1_000_000_000 + self.subsec()
    }

    /// Whether the numbers name an instant that the date and time library can
    /// hold.
    pub open spec fn wf(self) -> bool {
        &&& MIN_SECS <= self.seconds() <= MAX_SECS
        &&& 0 <= self.subsec() < NANOS_PER_SEC
    }

    /// The instant `nanos` nanoseconds after the second `secs`, if there is one:
    /// the second must lie between [`MIN_SECS`] and [`MAX_SECS`], and `nanos` must
    /// be less than a second.
    pub fn new(secs: i64, nanos: u32) -> (t: Option<Timestamp>)
        ensures
            t is Some <==> MIN_SECS <= secs <= MAX_SECS && nanos < NANOS_PER_SEC,
            t matches Some(ts) ==> ts.wf() && ts.seconds() == secs && ts.subsec() == nanos,
    {
        if MIN_SECS <= secs && secs <= MAX_SECS && nanos < 1_000_000_000 {
            Some(Timestamp { secs, nanos })
        } else {
            None
        }
    }

    /// The whole seconds since the epoch.
    pub fn secs(&self) -> (s: i64)
        ensures
            s == self.seconds(),
    {
        self.secs
    }

    /// The nanoseconds past the whole second.
    pub fn nanos(&self) -> (n: u32)
        ensures
            n == self.subsec(),
    {
        self.nanos
    }
}

impl Span {
    /// The whole seconds, rounded toward zero.
    pub closed spec fn seconds(self) -> int {
        self.secs as int
    }

    /// The nanoseconds beyond the whole seconds.
    pub closed spec fn subsec(self) -> int {
        self.nanos as int
    }

    /// The distance in nanoseconds.
    pub open spec fn total_nanos(self) -> int {
        self.seconds() * 1_000_000_000 + self.subsec()
    }

    /// Whether the numbers are a distance between two instants: both parts have
    /// the sign of the whole, and the whole is no more than the time line is long.
    pub open spec fn wf(self) -> bool {
        &&& -MAX_SPAN_SECS <= self.seconds() <= MAX_SPAN_SECS
        &&& -NANOS_PER_SEC < self.subsec() < NANOS_PER_SEC
        &&& self.seconds() > 0 ==> self.subsec() >= 0
        &&& self.seconds() < 0 ==> self.subsec() <= 0
    }

    /// The whole seconds of the distance without its sign.
    pub open spec fn abs_seconds(self) -> nat {
        magnitude_of(self.seconds())
    }

    /// The whole seconds, rounded toward zero.
    pub fn num_seconds(&self) -> (n: i64)
        ensures
            n == self.seconds(),
    {
        self.secs
    }

    /// The nanoseconds beyond the whole seconds; negative in a negative distance.
    pub fn subsec_nanos(&self) -> (n: i32)
        ensures
            n == self.subsec(),
    {
        self.nanos
    }

    /// The whole minutes, rounded toward zero.
    pub fn num_minutes(&self) -> (n: i64)
        ensures
            n == toward_zero(self.seconds(), SECS_PER_MINUTE as int),
    {
        self.secs / SECS_PER_MINUTE
    }

    /// The whole hours, rounded toward zero.
    pub fn num_hours(&self) -> (n: i64)
        ensures
            n == toward_zero(self.seconds(), SECS_PER_HOUR as int),
    {
        self.secs / SECS_PER_HOUR
    }

    /// The whole days, rounded toward zero.
    pub fn num_days(&self) -> (n: i64)
        ensures
            n == toward_zero(self.seconds(), SECS_PER_DAY as int),
    {
        self.secs / SECS_PER_DAY
    }

    /// The whole weeks, rounded toward zero.
    pub fn num_weeks(&self) -> (n: i64)
        ensures
            n == toward_zero(self.seconds(), SECS_PER_WEEK as int),
    {
        self.num_days() / 7
    }
}

/// Calls `chrono::DateTime::signed_duration_since` on the two instants and reads
/// the result with `TimeDelta::num_seconds` and `TimeDelta::subsec_nanos`. Between
/// two instants without leap seconds the library's result is their plain
/// difference, target minus reference; the two readings split it into whole
/// seconds and a remainder of the same sign.
#[verifier::external_body]
pub(crate) fn signed_duration_since(target: Timestamp, reference: Timestamp) -> (d: Span)
    requires
        target.wf(),
        reference.wf(),
    ensures
        d.wf(),
        d.total_nanos() == target.total_nanos() - reference.total_nanos(),
{
    let t = chrono::DateTime::from_timestamp(target.secs, target.nanos).unwrap();
    let r = chrono::DateTime::from_timestamp(reference.secs, reference.nanos).unwrap();
    let d = t.signed_duration_since(r);
    Span { secs: d.num_seconds(), nanos: d.subsec_nanos() }
}

/// Calls `le` of `chrono::DateTime`, which orders two instants by their place on
/// the UTC time line: whether the target is the reference or comes before it.
#[verifier::external_body]
pub(crate) fn not_after(target: Timestamp, reference: Timestamp) -> (b: bool)
    requires
        target.wf(),
        reference.wf(),
    ensures
        b == (target.total_nanos() <= reference.total_nanos()),
{
    let t = chrono::DateTime::from_timestamp(target.secs, target.nanos).unwrap();
    let r = chrono::DateTime::from_timestamp(reference.secs, reference.nanos).unwrap();
    t.le(&r)
}

/// Calls `chrono::Local::now` and reads the instant with `DateTime::timestamp` and
/// `DateTime::timestamp_subsec_nanos`. The clock decides which instant comes
/// back; of every one it holds that the library can hold it and that it carries no
/// leap second.
#[verifier::external_body]
pub(crate) fn now() -> (t: Timestamp)
    ensures
        t.wf(),
{
    let n = chrono::Local::now();
    Timestamp { secs: n.timestamp(), nanos: n.timestamp_subsec_nanos() }
}

} // verus!
