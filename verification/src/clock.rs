//! Conversion between [`SystemTime`] and the clock type of the standard library.

use std::time::{Duration, UNIX_EPOCH};
use vstd::prelude::*;

use crate::time::{SystemTime, NANOS_PER_SEC, WINDOWS_EPOCH_OFFSET_SECS};

verus! {

/// The clock type of the standard library, of which only the distance from the Unix epoch is
/// known here.
#[verifier::external_type_specification]
#[verifier::external_body]
pub struct ExClockTime(std::time::SystemTime);

/// What [`std::time::SystemTime::duration_since`] gives for the Unix epoch: the seconds and
/// nanoseconds that have passed since, or, as an error, those that are still missing.
pub uninterp spec fn since_unix_epoch(time: std::time::SystemTime) -> Result<
    (u64, u32),
    (u64, u32),
>;

/// A distance from the Unix epoch in nanoseconds, negative before the epoch.
pub open spec fn signed_nanos(distance: Result<(u64, u32), (u64, u32)>) -> int {
    match distance {
        Ok(after) => after.0 * NANOS_PER_SEC + after.1,
        Err(before) => -(before.0 * NANOS_PER_SEC + before.1),
    }
}

/// The distance of a point in time at or after the Unix epoch.
pub open spec fn after_epoch(secs: u64, nanos: u32) -> Result<(u64, u32), (u64, u32)> {
    Ok((secs, nanos))
}

/// The distance of a point in time before the Unix epoch.
pub open spec fn before_epoch(secs: u64, nanos: u32) -> Result<(u64, u32), (u64, u32)> {
    Err((secs, nanos))
}

/// The distance from the Unix epoch of a point in time that is given in nanoseconds since then: an
/// error, and so never zero, before the epoch.
pub open spec fn distance_of(nanos: int) -> Result<(u64, u32), (u64, u32)> {
    if nanos >= 0 {
        after_epoch(
            (nanos / (NANOS_PER_SEC as int)) as u64,
            (nanos % (NANOS_PER_SEC as int)) as u32,
        )
    } else {
        before_epoch(
            ((-nanos) / (NANOS_PER_SEC as int)) as u64,
            ((-nanos) % (NANOS_PER_SEC as int)) as u32,
        )
    }
}

/// The clock can represent the point in time at a distance from the Unix epoch.
pub open spec fn clock_reaches(distance: Result<(u64, u32), (u64, u32)>) -> bool {
    exists|time: std::time::SystemTime| #[trigger] since_unix_epoch(time) == distance
}

/// Calls [`std::time::SystemTime::duration_since`] with the Unix epoch. Trusted: the result is a
/// function of the time alone, its nanoseconds are less than one billion, and it is an error only
/// for a time before the epoch, whose distance is not zero.
#[verifier::external_body]
fn duration_since_unix_epoch(time: std::time::SystemTime) -> (distance: Result<
    (u64, u32),
    (u64, u32),
>)
    ensures
        distance == since_unix_epoch(time),
        match distance {
            Ok(after) => after.1 < NANOS_PER_SEC,
            Err(before) => before.1 < NANOS_PER_SEC && (before.0 > 0 || before.1 > 0),
        },
{
    match time.duration_since(UNIX_EPOCH) {
        Ok(after) => Ok((after.as_secs(), after.subsec_nanos())),
        Err(before) => Err((before.duration().as_secs(), before.duration().subsec_nanos())),
    }
}

/// Calls [`std::time::SystemTime::checked_add`] on the Unix epoch. Trusted: a time that the clock
/// can represent comes back, and it lies that far after the epoch. So does any other time that
/// comes back, where the distance is a multiple of 100 nanoseconds, the precision of the clock of
/// Windows; that of Linux is finer. Which times the clock can represent, and how it rounds others,
/// is up to the platform and not stated.
#[verifier::external_body]
fn unix_epoch_plus(secs: u64, nanos: u32) -> (time: Option<std::time::SystemTime>)
    requires
        nanos < NANOS_PER_SEC,
    ensures
        clock_reaches(after_epoch(secs, nanos)) ==> time is Some,
        time matches Some(t) ==> nanos % 100 == 0 || clock_reaches(after_epoch(secs, nanos))
            ==> since_unix_epoch(t) == after_epoch(secs, nanos),
{
    UNIX_EPOCH.checked_add(Duration::new(secs, nanos))
}

/// Calls [`std::time::SystemTime::checked_sub`] on the Unix epoch. Trusted: a time from 1601 on
/// that the clock can represent comes back, and it lies that far before the epoch. So does any
/// other time that comes back, where the distance is a multiple of 100 nanoseconds, the precision
/// of the clock of Windows; that of Linux is finer. Which times the clock can represent, how it
/// rounds others, and which times before 1601 come back, is up to the platform and not stated.
#[verifier::external_body]
fn unix_epoch_minus(secs: u64, nanos: u32) -> (time: Option<std::time::SystemTime>)
    requires
        nanos < NANOS_PER_SEC,
        secs > 0 || nanos > 0,
    ensures
        secs < WINDOWS_EPOCH_OFFSET_SECS && clock_reaches(before_epoch(secs, nanos))
            ==> time is Some,
        time matches Some(t) ==> nanos % 100 == 0 || clock_reaches(before_epoch(secs, nanos))
            ==> since_unix_epoch(t) == before_epoch(secs, nanos),
{
    UNIX_EPOCH.checked_sub(Duration::new(secs, nanos))
}

impl SystemTime {
    /// The point in time at a distance from the Unix epoch, unless it lies outside the
    /// representable range.
    pub fn from_distance(distance: Result<(u64, u32), (u64, u32)>) -> (time: Option<SystemTime>)
        requires
            match distance {
                Ok(after) => after.1 < NANOS_PER_SEC,
                Err(before) => before.1 < NANOS_PER_SEC,
            },
        ensures
            time is Some <==> SystemTime::in_range(signed_nanos(distance)),
            time matches Some(t) ==> t@ == signed_nanos(distance),
    {
        match distance {
            Ok((secs, nanos)) => {
                if secs > i64::MAX as u64 {
                    return None;
                }
                SystemTime::new(secs as i64, nanos)
            },
            Err((secs, nanos)) => {
                if nanos == 0 {
                    if secs > 0x8000_0000_0000_0000 {
                        return None;
                    }
                    if secs == 0 {
                        return SystemTime::new(0, 0);
                    }
                    SystemTime::new(-1 - ((secs - 1) as i64), 0)
                } else {
                    if secs > i64::MAX as u64 {
                        return None;
                    }
                    SystemTime::new(-1 - (secs as i64), NANOS_PER_SEC - nanos)
                }
            },
        }
    }

    /// The point in time that a clock value of the standard library stands for, unless it lies
    /// outside the representable range.
    pub fn from_clock(clock: std::time::SystemTime) -> (time: Option<SystemTime>)
        ensures
            time is Some <==> SystemTime::in_range(signed_nanos(since_unix_epoch(clock))),
            time matches Some(t) ==> t@ == signed_nanos(since_unix_epoch(clock)) && distance_of(t@)
                == since_unix_epoch(clock),
    {
        SystemTime::from_distance(duration_since_unix_epoch(clock))
    }

    /// The distance from the Unix epoch, as an error if the point in time lies before it.
    pub fn distance(&self) -> (distance: Result<(u64, u32), (u64, u32)>)
        ensures
            distance == distance_of(self@),
            signed_nanos(distance) == self@,
            match distance {
                Ok(after) => after.1 < NANOS_PER_SEC,
                Err(before) => before.1 < NANOS_PER_SEC && (before.0 > 0 || before.1 > 0),
            },
    {
        let secs: i64 = self.secs();
        let nanos: u32 = self.subsec_nanos();
        if secs >= 0 {
            Ok((secs as u64, nanos))
        } else if nanos == 0 {
            Err(((-1 - secs) as u64 + 1, 0))
        } else {
            Err(((-1 - secs) as u64, NANOS_PER_SEC - nanos))
        }
    }

    /// The clock value of the standard library for this point in time.
    ///
    /// There is one if the platform's clock can represent the point in time, and, for whole file
    /// time intervals, only then. Of points in time before 1601 only the latter is stated.
    pub fn to_clock(&self) -> (clock: Option<std::time::SystemTime>)
        ensures
            clock_reaches(distance_of(self@)) && self@ > -(WINDOWS_EPOCH_OFFSET_SECS
                * NANOS_PER_SEC) ==> (clock matches Some(c) && since_unix_epoch(c) == distance_of(
                self@,
            )),
            clock matches Some(c) ==> self@ % 100 == 0 ==> since_unix_epoch(c) == distance_of(
                self@,
            ) && signed_nanos(since_unix_epoch(c)) == self@,
    {
        match self.distance() {
            Ok((secs, nanos)) => unix_epoch_plus(secs, nanos),
            Err((secs, nanos)) => unix_epoch_minus(secs, nanos),
        }
    }
}

/// A distance from the Unix epoch is that of exactly one point in time, and the other way round:
/// after the epoch it counts forwards, before the epoch backwards.
pub proof fn distances_are_points_in_time(nanos: int, secs: u64, part: u32)
    requires
        SystemTime::in_range(nanos),
        part < 1_000_000_000,
    ensures
        signed_nanos(Ok((secs, part))) == secs * 1_000_000_000 + part,
        signed_nanos(Err((secs, part))) == -(secs * 1_000_000_000 + part),
        distance_of(nanos) == Ok::<(u64, u32), (u64, u32)>((secs, part)) <==> nanos == secs
            * 1_000_000_000 + part,
        distance_of(nanos) == Err::<(u64, u32), (u64, u32)>((secs, part)) <==> 0 > nanos == -(secs
            * 1_000_000_000 + part),
{
}

/// The clock reaches every point in time that one of its own values stands for.
pub proof fn clock_reaches_its_own_times(time: std::time::SystemTime)
    ensures
        clock_reaches(since_unix_epoch(time)),
{
}

} // verus!
