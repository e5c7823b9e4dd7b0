//! Instants, ages and configured durations.
//!
//! The calendar arithmetic is done by `chrono`; this module holds the plain values that go in
//! and come out, and says what they mean in nanoseconds.
use chrono::Timelike;
use vstd::prelude::*;

verus! {

/// Nanoseconds in one second.
pub const NANOS_PER_SEC: u32 = 1_000_000_000;

/// The Unix second of the first representable instant, the start of the year -262143.
pub const MIN_UNIX_SECS: i64 = -8_334_601_228_800;

/// The Unix second of the last representable instant, the end of the year 262142.
pub const MAX_UNIX_SECS: i64 = 8_210_266_876_799;

/// An instant in UTC, with nanosecond precision.
///
/// An instant is a Unix second together with the nanoseconds that have passed since that second
/// began. The nanoseconds reach one second and more only within a leap second, which is told as
/// a prolongation of the second before it.
#[derive(Clone, Copy, Debug)]
pub struct Timestamp {
    secs: i64,
    nanos: u32,
}

impl Timestamp {
    #[verifier::type_invariant]
    spec fn well_formed(self) -> bool {
        is_instant(self.secs as int, self.nanos as int)
    }

    /// The Unix second in which the instant lies.
    pub closed spec fn secs(self) -> int {
        self.secs as int
    }

    /// The nanoseconds since that second began.
    pub closed spec fn nanos(self) -> int {
        self.nanos as int
    }

    /// The second and the nanoseconds are those of an instant.
    pub open spec fn is_valid(self) -> bool {
        is_instant(self.secs(), self.nanos())
    }

    /// The instant is `other` or comes after it.
    pub open spec fn is_at_or_after(self, other: Timestamp) -> bool {
        ||| self.secs() > other.secs()
        ||| self.secs() == other.secs() && self.nanos() >= other.nanos()
    }

    /// The instant lies within a leap second.
    pub open spec fn in_leap_second(self) -> bool {
        self.nanos() >= NANOS_PER_SEC
    }

    /// The instant `nanos` nanoseconds after the start of the Unix second `secs`.
    ///
    /// Gives `None` where no such instant can be represented: outside the years -262143 to
    /// 262142, or two seconds and more after the second began.
    pub fn new(secs: i64, nanos: u32) -> (result: Option<Timestamp>)
        ensures
            result is Some <==> is_instant(secs as int, nanos as int),
            result is Some <==> -8_334_601_228_800 <= secs <= 8_210_266_876_799 && nanos
                < 2_000_000_000,
            result matches Some(t) ==> t.secs() == secs && t.nanos() == nanos,
    {
        if MIN_UNIX_SECS <= secs && secs <= MAX_UNIX_SECS && nanos < 2_000_000_000 {
            Some(Timestamp { secs, nanos })
        } else {
            None
        }
    }

    /// The Unix second in which the instant lies.
    pub fn timestamp(&self) -> (result: i64)
        ensures
            result == self.secs(),
            self.is_valid(),
    {
        proof {
            use_type_invariant(self);
        }
        self.secs
    }

    /// The nanoseconds since that second began.
    pub fn timestamp_subsec_nanos(&self) -> (result: u32)
        ensures
            result == self.nanos(),
            self.is_valid(),
    {
        proof {
            use_type_invariant(self);
        }
        self.nanos
    }

    /// The time from `earlier` to `self`, negative where `earlier` is the later one.
    pub fn signed_duration_since(&self, earlier: &Timestamp) -> (result: TimeDelta)
        ensures
            result.as_nanos() == elapsed_nanos(*self, *earlier),
            self.is_valid(),
            earlier.is_valid(),
    {
        proof {
            use_type_invariant(self);
            use_type_invariant(earlier);
        }
        let (secs, nanos) = chrono_signed_duration_since(
            self.secs,
            self.nanos,
            earlier.secs,
            earlier.nanos,
        );
        TimeDelta { secs, nanos }
    }
}

/// The pairs of a Unix second and nanoseconds since its start that are instants.
pub open spec fn is_instant(secs: int, nanos: int) -> bool {
    &&& MIN_UNIX_SECS <= secs <= MAX_UNIX_SECS
    &&& 0 <= nanos < 2_000_000_000
}

/// The leap seconds that count in the time from the instant `(from_secs, from_nanos)` to
/// `(to_secs, to_nanos)`, beside the Unix seconds.
///
/// A leap second that one of the two instants lies in counts once when it separates their times
/// of day.
pub open spec fn leap_seconds_between(
    from_secs: int,
    from_nanos: int,
    to_secs: int,
    to_nanos: int,
) -> int {
    if to_secs % 86_400 > from_secs % 86_400 && from_nanos >= NANOS_PER_SEC {
        1
    } else if to_secs % 86_400 < from_secs % 86_400 && to_nanos >= NANOS_PER_SEC {
        -1
    } else {
        0
    }
}

/// The nanoseconds from the instant `(from_secs, from_nanos)` to `(to_secs, to_nanos)`.
pub open spec fn nanos_between(
    from_secs: int,
    from_nanos: int,
    to_secs: int,
    to_nanos: int,
) -> int {
    let leap = leap_seconds_between(from_secs, from_nanos, to_secs, to_nanos);
    (to_secs - from_secs + leap) * NANOS_PER_SEC + (to_nanos - from_nanos)
}

/// The leap seconds that count in the time that has passed at `now` since `then`.
pub open spec fn elapsed_leap_seconds(now: Timestamp, then: Timestamp) -> int {
    leap_seconds_between(then.secs(), then.nanos(), now.secs(), now.nanos())
}

/// The nanoseconds that have passed at `now` since `then`.
pub open spec fn elapsed_nanos(now: Timestamp, then: Timestamp) -> int {
    nanos_between(then.secs(), then.nanos(), now.secs(), now.nanos())
}

/// A signed length of time, with nanosecond precision.
#[derive(Clone, Copy, Debug)]
pub struct TimeDelta {
    secs: i64,
    nanos: i32,
}

impl TimeDelta {
    /// The length in nanoseconds.
    pub closed spec fn as_nanos(self) -> int {
        self.secs * NANOS_PER_SEC + self.nanos
    }

    /// The length of time that `duration` stands for.
    ///
    /// A duration of more than `i64::MAX` milliseconds has none.
    pub fn from_std(duration: Duration) -> (result: Result<TimeDelta, InvalidDuration>)
        ensures
            result is Ok <==> duration.is_representable(),
            result is Ok <==> duration.as_nanos() <= 9_223_372_036_854_775_807_000_000int,
            result matches Ok(delta) ==> delta.as_nanos() == duration.as_nanos(),
    {
        proof {
            use_type_invariant(&duration);
        }
        match chrono_from_std(duration.secs, duration.nanos) {
            Ok((secs, nanos)) => Ok(TimeDelta { secs, nanos }),
            Err(_) => Err(InvalidDuration),
        }
    }

    /// Whether `self` is no longer than `other`.
    pub fn at_most(&self, other: &TimeDelta) -> (result: bool)
        ensures
            result == (self.as_nanos() <= other.as_nanos()),
    {
        let left: i128 = self.secs as i128 * 1_000_000_000 + self.nanos as i128;
        let right: i128 = other.secs as i128 * 1_000_000_000 + other.nanos as i128;
        left <= right
    }
}

/// A duration is too long to be compared with the age of an object.
#[derive(Clone, Copy, Debug, PartialEq, Eq)]
pub struct InvalidDuration;

/// A configured length of time: whole seconds and the nanoseconds beyond them.
#[derive(Clone, Copy, Debug)]
pub struct Duration {
    secs: u64,
    nanos: u32,
}

impl Duration {
    #[verifier::type_invariant]
    spec fn well_formed(self) -> bool {
        self.nanos < NANOS_PER_SEC
    }

    /// The length in nanoseconds.
    pub closed spec fn as_nanos(self) -> int {
        self.secs * NANOS_PER_SEC + self.nanos
    }

    /// The duration is at most `i64::MAX` milliseconds long.
    pub open spec fn is_representable(self) -> bool {
        self.as_nanos() <= i64::MAX * 1_000_000
    }

    /// The duration of `secs` seconds and `nanos` nanoseconds, the latter less than a second.
    pub fn new(secs: u64, nanos: u32) -> (result: Option<Duration>)
        ensures
            result is Some <==> nanos < 1_000_000_000,
            result matches Some(d) ==> d.as_nanos() == secs * 1_000_000_000 + nanos,
    {
        if nanos < NANOS_PER_SEC {
            Some(Duration { secs, nanos })
        } else {
            None
        }
    }

    /// The duration of `secs` seconds.
    pub fn from_secs(secs: u64) -> (result: Duration)
        ensures
            result.as_nanos() == secs * 1_000_000_000,
    {
        Duration { secs, nanos: 0 }
    }
}

/// The error of `chrono::TimeDelta::from_std`.
#[verifier::external_type_specification]
#[verifier::external_body]
pub struct ExOutOfRangeError(chrono::OutOfRangeError);

/// Calls `chrono::DateTime::<Utc>::signed_duration_since` on two instants, each given by its Unix
/// second and its nanoseconds, and gives the whole seconds and the nanoseconds of the result.
///
/// Trusted: the seconds and nanoseconds add up to the time between the two instants, where a
/// leap second that separates their times of day counts once, and have no opposite signs.
#[verifier::external_body]
fn chrono_signed_duration_since(
    secs: i64,
    nanos: u32,
    earlier_secs: i64,
    earlier_nanos: u32,
) -> (result: (i64, i32))
    requires
        is_instant(secs as int, nanos as int),
        is_instant(earlier_secs as int, earlier_nanos as int),
    ensures
        result.0 * NANOS_PER_SEC + result.1 == nanos_between(
            earlier_secs as int,
            earlier_nanos as int,
            secs as int,
            nanos as int,
        ),
        -NANOS_PER_SEC < result.1 < NANOS_PER_SEC,
        result.0 > 0 ==> result.1 >= 0,
        result.0 < 0 ==> result.1 <= 0,
{
    let whole = chrono::DateTime::from_timestamp(secs, 0).unwrap().naive_utc();
    let instant = whole.with_nanosecond(nanos).unwrap().and_utc();
    let earlier_whole = chrono::DateTime::from_timestamp(earlier_secs, 0).unwrap().naive_utc();
    let earlier = earlier_whole.with_nanosecond(earlier_nanos).unwrap().and_utc();
    let delta = instant.signed_duration_since(earlier);
    (delta.num_seconds(), delta.subsec_nanos())
}

/// Calls `chrono::TimeDelta::from_std` on the `std` duration of `secs` seconds and `nanos`
/// nanoseconds, and gives the whole seconds and the nanoseconds of the result.
///
/// Trusted: the call succeeds exactly on durations of at most `i64::MAX` milliseconds, and the
/// result is as long as the argument.
#[verifier::external_body]
fn chrono_from_std(secs: u64, nanos: u32) -> (result: Result<
    (i64, i32),
    chrono::OutOfRangeError,
>)
    requires
        nanos < NANOS_PER_SEC,
    ensures
        result is Ok <==> secs * NANOS_PER_SEC + nanos <= i64::MAX * 1_000_000,
        result matches Ok((s, n)) ==> s == secs && n == nanos,
{
    match chrono::TimeDelta::from_std(std::time::Duration::new(secs, nanos)) {
        Ok(delta) => Ok((delta.num_seconds(), delta.subsec_nanos())),
        Err(error) => Err(error),
    }
}

} // verus!
