//! The telemetry message that a vehicle sensor sends, and its timestamp.
use vstd::prelude::*;

verus! {

/// Whether chrono's `DateTime::from_timestamp` accepts `secs` seconds since
/// the Unix epoch and `nanos` nanoseconds past that second. chrono holds a
/// leap second as nanoseconds from one to two seconds in the last second of
/// a minute.
pub uninterp spec fn chrono_accepts(secs: i64, nanos: u32) -> bool;

/// The whole minutes, rounded toward zero, of chrono's `DateTime`
/// difference (`signed_duration_since`, then `TimeDelta::num_minutes`) from
/// the time `earlier_secs`, `earlier_nanos` to the time `later_secs`,
/// `later_nanos`, leap seconds counted as chrono counts them.
pub uninterp spec fn chrono_whole_minutes(
    later_secs: i64,
    later_nanos: u32,
    earlier_secs: i64,
    earlier_nanos: u32,
) -> i64;

/// Nanoseconds in a minute.
pub open spec fn nanos_per_minute() -> int {
    60_000_000_000
}

/// Nanoseconds since the Unix epoch of a time without a leap second.
pub open spec fn total_nanos(secs: i64, nanos: u32) -> int {
    secs * 1_000_000_000 + nanos
}

/// `d` nanoseconds in whole minutes, rounded toward zero.
pub open spec fn whole_minutes_of(d: int) -> int {
    if d >= 0 {
        d / nanos_per_minute()
    } else {
        -((-d) / nanos_per_minute())
    }
}

/// Whether chrono's `DateTime::from_timestamp` accepts `secs` and `nanos`.
///
/// What it claims of chrono: the result is the name `chrono_accepts`;
/// chrono accepts nanoseconds from one to two seconds only in the last
/// second of a minute, and none from two seconds on; it accepts every time
/// with fewer than a second of nanoseconds from the Unix epoch up to the
/// end of the year 9999. The exact range of years that chrono accepts is
/// left unsaid.
#[verifier::external_body]
fn chrono_accepts_timestamp(secs: i64, nanos: u32) -> (ok: bool)
    ensures
        ok == chrono_accepts(secs, nanos),
        ok ==> nanos < 2_000_000_000,
        ok && nanos >= 1_000_000_000 ==> secs % 60 == 59,
        0 <= secs <= 253_402_300_799 && nanos < 1_000_000_000 ==> ok,
{
    chrono::DateTime::from_timestamp(secs, nanos).is_some()
}

/// The whole minutes between two times as chrono counts them: both are made
/// into `DateTime<Utc>` by `DateTime::from_timestamp`, subtracted
/// (`signed_duration_since`), and the difference's `num_minutes` is taken.
///
/// What it claims of chrono: the result is the name `chrono_whole_minutes`;
/// a time less its own self is zero minutes; and when neither time is a
/// leap second the difference is the exact difference in nanoseconds, so the
/// result is its whole minutes rounded toward zero. How chrono counts a leap
/// second is left to the name.
#[verifier::external_body]
fn chrono_minutes_between(later_secs: i64, later_nanos: u32, earlier_secs: i64, earlier_nanos: u32) -> (m: i64)
    requires
        chrono_accepts(later_secs, later_nanos),
        chrono_accepts(earlier_secs, earlier_nanos),
    ensures
        m == chrono_whole_minutes(later_secs, later_nanos, earlier_secs, earlier_nanos),
        later_secs == earlier_secs && later_nanos == earlier_nanos ==> m == 0,
        later_nanos < 1_000_000_000 && earlier_nanos < 1_000_000_000 ==> m == whole_minutes_of(
            total_nanos(later_secs, later_nanos) - total_nanos(earlier_secs, earlier_nanos),
        ),
{
    let later = chrono::DateTime::from_timestamp(later_secs, later_nanos).unwrap();
    let earlier = chrono::DateTime::from_timestamp(earlier_secs, earlier_nanos).unwrap();
    later.signed_duration_since(earlier).num_minutes()
}

/// A point in time as chrono's `DateTime<Utc>` holds it: whole seconds
/// since the Unix epoch and the nanoseconds past that second, which reach
/// beyond one second during a leap second.
#[derive(Clone, Copy, Debug, PartialEq, Eq)]
pub struct Timestamp {
    secs: i64,
    nanos: u32,
}

impl View for Timestamp {
    type V = (i64, u32);

    closed spec fn view(&self) -> (i64, u32) {
        (self.secs, self.nanos)
    }
}

impl Timestamp {
    #[verifier::type_invariant]
    closed spec fn is_chrono_time(self) -> bool {
        chrono_accepts(self.secs, self.nanos)
    }

    /// The time `secs` seconds and `nanos` nanoseconds after the Unix
    /// epoch, when chrono can hold it.
    pub fn new(secs: i64, nanos: u32) -> (t: Option<Timestamp>)
        ensures
            t is Some <==> chrono_accepts(secs, nanos),
            t matches Some(t) ==> t@ == (secs, nanos),
    {
        if chrono_accepts_timestamp(secs, nanos) {
            Some(Timestamp { secs, nanos })
        } else {
            None
        }
    }

    /// Whole seconds since the Unix epoch.
    pub fn secs(&self) -> (s: i64)
        ensures
            s == self@.0,
    {
        self.secs
    }

    /// Nanoseconds past the second.
    pub fn nanos(&self) -> (n: u32)
        ensures
            n == self@.1,
    {
        self.nanos
    }
}

/// The whole minutes from `earlier` to `later` as chrono counts them.
pub open spec fn spec_whole_minutes_between(later: Timestamp, earlier: Timestamp) -> int {
    chrono_whole_minutes(later@.0, later@.1, earlier@.0, earlier@.1) as int
}

/// The whole minutes from `earlier` to `later` as chrono counts them:
/// rounded toward zero, negative when `later` comes first, leap seconds
/// included.
pub fn whole_minutes_between(later: Timestamp, earlier: Timestamp) -> (m: i64)
    ensures
        m == spec_whole_minutes_between(later, earlier),
        later@ == earlier@ ==> m == 0,
        later@.1 < 1_000_000_000 && earlier@.1 < 1_000_000_000 ==> m == whole_minutes_of(
            total_nanos(later@.0, later@.1) - total_nanos(earlier@.0, earlier@.1),
        ),
{
    proof {
        use_type_invariant(&later);
        use_type_invariant(&earlier);
    }
    chrono_minutes_between(later.secs, later.nanos, earlier.secs, earlier.nanos)
}

/// Position and speed reported by a vehicle, each an IEEE 754 binary64
/// number held as its bit pattern (degrees, degrees, metres, metres per second).
#[derive(Clone, Copy, Debug, PartialEq, Eq)]
pub struct GpsData {
    pub latitude_bits: u64,
    pub longitude_bits: u64,
    pub altitude_bits: u64,
    pub speed_bits: u64,
}

/// The sensor that sent a message.
#[derive(Debug)]
pub struct Sensor {
    pub id: String,
}

/// The vehicle that a message is about.
#[derive(Clone, Copy, Debug)]
pub struct Vehicle {
    pub id: u64,
    pub gps: GpsData,
}

/// One telemetry message.
#[derive(Debug)]
pub struct Message {
    pub timestamp: Timestamp,
    pub sensor: Sensor,
    pub payload: Vehicle,
}

impl Clone for Sensor {
    fn clone(&self) -> (res: Self)
        ensures
            res == *self,
    {
        Sensor { id: self.id.clone() }
    }
}

impl Clone for Message {
    fn clone(&self) -> (res: Self)
        ensures
            res == *self,
    {
        Message { timestamp: self.timestamp, sensor: self.sensor.clone(), payload: self.payload }
    }
}

/// The current time from the system clock, through chrono's `Utc::now`.
///
/// What it returns depends on the clock, so nothing is stated of the time
/// itself; chrono builds it from the duration since the Unix epoch, so the
/// seconds are not negative, the nanoseconds stay below one second, and
/// `DateTime::from_timestamp` accepts the two (it is what built the time).
/// chrono panics when the clock is set before the Unix epoch.
#[verifier::external_body]
pub(crate) fn utc_now() -> (t: Timestamp)
    ensures
        t@.0 >= 0,
        t@.1 < 1_000_000_000,
        chrono_accepts(t@.0, t@.1),
{
    let now = chrono::Utc::now();
    Timestamp { secs: now.timestamp(), nanos: now.timestamp_subsec_nanos() }
}

} // verus!
