use vstd::prelude::*;

verus! {

/// Nanoseconds in one millisecond.
pub const NANOS_PER_MILLI: i128 = 1_000_000;

/// Nanoseconds in one microsecond.
pub const NANOS_PER_MICRO: i128 = 1_000;

/// A point in time, counted in nanoseconds since 1970-01-01T00:00:00 UTC.
///
/// Every instant that `chrono::DateTime<Utc>` can represent fits in this type.
#[derive(Clone, Copy, Debug, PartialEq, Eq, Structural)]
pub struct Timestamp {
    pub nanos: i128,
}

/// The first second that chrono's `DateTime<Utc>` can represent,
/// -262143-01-01T00:00:00Z, in seconds since the epoch.
pub const CHRONO_MIN_SECS: i64 = -8_334_601_228_800;

/// The last whole second that chrono's `DateTime<Utc>` can represent,
/// 262142-12-31T23:59:59Z, in seconds since the epoch.
pub const CHRONO_MAX_SECS: i64 = 8_210_266_876_799;

/// Whether `millis` milliseconds after the epoch lie between chrono's
/// `DateTime::<Utc>::MIN_UTC` and `MAX_UTC`.
pub open spec fn chrono_millis_in_range(millis: i64) -> bool {
    CHRONO_MIN_SECS * 1000 <= millis <= CHRONO_MAX_SECS * 1000 + 999
}

/// Calls `chrono::DateTime::<Utc>::from_timestamp_millis` and reports whether
/// it returned a value. chrono returns one exactly when the instant lies
/// between `DateTime::<Utc>::MIN_UTC` (the first instant of year -262143) and
/// `MAX_UTC` (the last of year 262142); the contract states that range.
#[verifier::external_body]
fn chrono_accepts_millis(millis: i64) -> (r: bool)
    ensures
        r == chrono_millis_in_range(millis),
{
    chrono::DateTime::<chrono::Utc>::from_timestamp_millis(millis).is_some()
}

/// Calls `chrono::Utc::now()` and returns `timestamp_micros()` and
/// `timestamp_subsec_nanos()` of that one reading. The values depend on the
/// system clock, so nothing is stated of them.
#[verifier::external_body]
fn utc_now_micros_and_nanos() -> (i64, u32) {
    let now = chrono::Utc::now();
    (now.timestamp_micros(), now.timestamp_subsec_nanos())
}

/// Latest timestamp the library builds, in nanoseconds (`i64::MAX` milliseconds;
/// chrono's range lies inside it).
pub const MAX_TIMESTAMP_NANOS: i128 = 9_223_372_036_854_775_807_000_000;

/// Earliest timestamp the library builds, in nanoseconds (`i64::MIN` milliseconds).
pub const MIN_TIMESTAMP_NANOS: i128 = -9_223_372_036_854_775_808_000_000;

/// The range of instants the UTC clock can give: whole microseconds that fit
/// an `i64`, plus fewer than a thousand nanoseconds.
pub open spec fn is_clock_reading(t: Timestamp) -> bool {
    i64::MIN * NANOS_PER_MICRO <= t.nanos < (i64::MAX + 1) * NANOS_PER_MICRO
}

impl Timestamp {
    /// The timestamp lies between `MIN_TIMESTAMP_NANOS` and `MAX_TIMESTAMP_NANOS`.
    pub open spec fn in_range(self) -> bool {
        MIN_TIMESTAMP_NANOS <= self.nanos <= MAX_TIMESTAMP_NANOS
    }

    /// The instant `millis` milliseconds after the UNIX epoch.
    pub open spec fn spec_from_millis(millis: int) -> Timestamp {
        Timestamp { nanos: (millis * NANOS_PER_MILLI) as i128 }
    }

    /// The instant `nanos` nanoseconds after the UNIX epoch.
    pub fn from_nanos(nanos: i64) -> (t: Timestamp)
        ensures
            t.nanos == nanos,
            t.in_range(),
    {
        Timestamp { nanos: nanos as i128 }
    }

    /// The instant `millis` milliseconds after the epoch where chrono can
    /// represent it (`representable`), `None` otherwise.
    pub fn from_checked_millis(millis: i64, representable: bool) -> (t: Option<Timestamp>)
        ensures
            t.is_some() == representable,
            t matches Some(t) ==> t == Timestamp::spec_from_millis(millis as int) && t.in_range(),
    {
        if representable {
            proof {
                let m = millis as int;
                assert(MIN_TIMESTAMP_NANOS <= m * NANOS_PER_MILLI <= MAX_TIMESTAMP_NANOS)
                    by (nonlinear_arith)
                    requires
                        i64::MIN <= m <= i64::MAX,
                ;
            }
            Some(Timestamp { nanos: millis as i128 * NANOS_PER_MILLI })
        } else {
            None
        }
    }

    /// Converts milliseconds since the epoch, as `DateTime::<Utc>::from_timestamp_millis`
    /// does: `None` when chrono cannot represent the instant.
    pub fn from_millis(millis: i64) -> (t: Option<Timestamp>)
        ensures
            t.is_some() == chrono_millis_in_range(millis),
            t matches Some(t) ==> t == Timestamp::spec_from_millis(millis as int) && t.in_range(),
    {
        Timestamp::from_checked_millis(millis, chrono_accepts_millis(millis))
    }

    /// The instant read from a clock as whole microseconds since the epoch
    /// and nanoseconds past the whole second; the nanoseconds below a
    /// microsecond are added to the microseconds.
    pub fn from_clock_reading(micros: i64, subsec_nanos: u32) -> (t: Timestamp)
        ensures
            t.nanos == micros * NANOS_PER_MICRO + subsec_nanos % 1000,
            is_clock_reading(t),
            t.in_range(),
    {
        Timestamp { nanos: micros as i128 * NANOS_PER_MICRO + (subsec_nanos % 1000) as i128 }
    }

    /// The current time of the UTC clock, to the nanosecond.
    pub fn now() -> (t: Timestamp)
        ensures
            is_clock_reading(t),
            t.in_range(),
    {
        let (micros, subsec_nanos) = utc_now_micros_and_nanos();
        Timestamp::from_clock_reading(micros, subsec_nanos)
    }

    /// The signed distance `self - earlier` in nanoseconds, when it fits in an
    /// `i64` (as `TimeDelta::num_nanoseconds` gives it); `None` otherwise.
    pub fn nanos_since(&self, earlier: &Timestamp) -> (d: Option<i64>)
        requires
            self.in_range(),
            earlier.in_range(),
        ensures
            d.is_some() == (i64::MIN <= self.nanos - earlier.nanos <= i64::MAX),
            d matches Some(d) ==> d == self.nanos - earlier.nanos,
    {
        let diff: i128 = self.nanos - earlier.nanos;
        if i64::MIN as i128 <= diff && diff <= i64::MAX as i128 {
            Some(diff as i64)
        } else {
            None
        }
    }
}

} // verus!
