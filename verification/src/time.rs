//! Points in time, and their form as Windows file times.
//!
//! A file time counts intervals of 100 nanoseconds since the first of January 1601 (UTC).

use vstd::prelude::*;

verus! {

/// Seconds between the Windows epoch (1601) and the Unix epoch (1970).
pub const WINDOWS_EPOCH_OFFSET_SECS: u64 = 11_644_473_600;

/// File time intervals per second.
pub const HUNDRED_NS_PER_SEC: u64 = 10_000_000;

/// Nanoseconds per second.
pub const NANOS_PER_SEC: u32 = 1_000_000_000;

/// The file time of the Unix epoch.
pub const UNIX_EPOCH_FILETIME: u64 = 116_444_736_000_000_000;

/// The file time of a point in time, given in nanoseconds since the Unix epoch: whole intervals
/// are counted, and a time before the Unix epoch counts as the Unix epoch.
pub open spec fn filetime_of(nanos: int) -> int {
    UNIX_EPOCH_FILETIME + if nanos < 0 {
        0
    } else {
        nanos / 100
    }
}

/// The point in time of a file time, in nanoseconds since the Unix epoch.
pub open spec fn instant_of(filetime: int) -> int {
    (filetime - UNIX_EPOCH_FILETIME) * 100
}

/// A point in time. Its view is the number of nanoseconds since the Unix epoch.
#[derive(Debug, Clone, Copy, PartialEq, Eq)]
pub struct SystemTime {
    secs: i64,
    nanos: u32,
}

impl View for SystemTime {
    type V = int;

    closed spec fn view(&self) -> int {
        self.secs * NANOS_PER_SEC + self.nanos
    }
}

impl SystemTime {
    #[verifier::type_invariant]
    spec fn well_formed(self) -> bool {
        self.nanos < NANOS_PER_SEC
    }

    /// A point in time, given in nanoseconds since the Unix epoch, has its whole seconds in 64
    /// bits.
    pub open spec fn in_range(nanos: int) -> bool {
        i64::MIN * NANOS_PER_SEC <= nanos < (i64::MAX + 1) * NANOS_PER_SEC
    }

    /// The file time fits 64 bits.
    pub open spec fn has_filetime(&self) -> bool {
        filetime_of(self@) <= u64::MAX
    }

    /// The point `secs` seconds after the Unix epoch (before it, if negative), and `nanos`
    /// nanoseconds after that.
    pub fn new(secs: i64, nanos: u32) -> (time: Option<SystemTime>)
        ensures
            time is Some <==> nanos < NANOS_PER_SEC,
            time matches Some(t) ==> t@ == secs * NANOS_PER_SEC + nanos,
            time matches Some(t) ==> t@ == secs * 1_000_000_000 + nanos,
    {
        if nanos >= NANOS_PER_SEC {
            return None;
        }
        Some(SystemTime { secs, nanos })
    }

    /// Whether the file time fits 64 bits.
    pub fn is_valid(&self) -> (valid: bool)
        ensures
            valid == self.has_filetime(),
    {
        proof {
            use_type_invariant(self);
        }
        if self.secs < 0 {
            return true;
        }
        let total_secs: u64 = self.secs as u64 + WINDOWS_EPOCH_OFFSET_SECS;
        let intervals: u128 = (total_secs as u128) * 10_000_000 + (self.nanos / 100) as u128;
        intervals <= u64::MAX as u128
    }

    /// Whole seconds since the Unix epoch, rounded down.
    pub fn secs(&self) -> (secs: i64)
        ensures
            secs == self@ / (NANOS_PER_SEC as int),
    {
        proof {
            use_type_invariant(self);
        }
        self.secs
    }

    /// Nanoseconds beyond the whole seconds.
    pub fn subsec_nanos(&self) -> (nanos: u32)
        ensures
            nanos == self@ % (NANOS_PER_SEC as int),
    {
        proof {
            use_type_invariant(self);
        }
        self.nanos
    }
}

/// The file time of a point in time.
pub fn system_time_to_filetime(value: SystemTime) -> (filetime: u64)
    requires
        value.has_filetime(),
    ensures
        filetime == filetime_of(value@),
{
    proof {
        use_type_invariant(value);
    }
    let (secs, nanos): (u64, u32) = if value.secs < 0 {
        (0, 0)
    } else {
        (value.secs as u64, value.nanos)
    };
    (secs + WINDOWS_EPOCH_OFFSET_SECS) * HUNDRED_NS_PER_SEC + (nanos as u64) / 100
}

/// The point in time of a file time, unless it lies before the Unix epoch. The file time 0, which
/// stands for "leave unchanged", is one of those.
pub fn filetime_to_system_time(value: u64) -> (time: Option<SystemTime>)
    ensures
        time is Some <==> value >= UNIX_EPOCH_FILETIME,
        time matches Some(t) ==> t@ == instant_of(value as int),
{
    if value == 0 {
        return None;
    }
    let total_secs: u64 = value / HUNDRED_NS_PER_SEC;
    if total_secs < WINDOWS_EPOCH_OFFSET_SECS {
        return None;
    }
    let secs: u64 = total_secs - WINDOWS_EPOCH_OFFSET_SECS;
    let nanos: u32 = ((value % HUNDRED_NS_PER_SEC) * 100) as u32;
    Some(SystemTime { secs: secs as i64, nanos })
}

/// Reading a file time and writing it again gives back the same file time.
pub proof fn filetime_round_trip(filetime: u64)
    requires
        filetime >= UNIX_EPOCH_FILETIME,
    ensures
        filetime_of(instant_of(filetime as int)) == filetime,
{
}

/// Writing a point in time from the Unix epoch on as a file time and reading that again loses
/// only the part below 100 nanoseconds.
pub proof fn instant_round_trip(nanos: int)
    requires
        0 <= nanos,
    ensures
        filetime_of(nanos) >= UNIX_EPOCH_FILETIME,
        instant_of(filetime_of(nanos)) == nanos - nanos % 100,
{
}

/// File times keep the order of points in time.
pub proof fn filetime_is_monotone(earlier: int, later: int)
    requires
        earlier <= later,
    ensures
        filetime_of(earlier) <= filetime_of(later),
{
}

/// A file time counts whole intervals of 100 nanoseconds from a day that lies 134774 days before
/// the Unix epoch. A time before the Unix epoch has the file time of the Unix epoch.
pub proof fn filetime_counts_from_1601(nanos: int)
    ensures
        0 <= nanos ==> 100 * (filetime_of(nanos) - 134_774 * 86_400 * 10_000_000) <= nanos < 100 * (
        filetime_of(nanos) - 134_774 * 86_400 * 10_000_000) + 100,
        nanos < 0 ==> filetime_of(nanos) == 134_774 * 86_400 * 10_000_000,
        UNIX_EPOCH_FILETIME == 134_774 * 86_400 * 10_000_000,
        WINDOWS_EPOCH_OFFSET_SECS == 134_774 * 86_400,
        HUNDRED_NS_PER_SEC == 10_000_000,
        NANOS_PER_SEC == 1_000_000_000,
{
}

/// Neighbouring file times stand for points in time that lie 100 nanoseconds apart, and the file
/// time 134774 days after the first one for the Unix epoch.
pub proof fn instants_are_an_interval_apart(filetime: int, later: int)
    ensures
        instant_of(later) - instant_of(filetime) == 100 * (later - filetime),
        instant_of(134_774int * 86_400 * 10_000_000) == 0,
{
}

/// The points in time that can be held are those with 64-bit seconds, and those of them have a
/// file time that do not lie after the last one.
pub proof fn range_of_times(nanos: int, time: SystemTime)
    ensures
        SystemTime::in_range(nanos) <==> -0x8000_0000_0000_0000 * 1_000_000_000 <= nanos
            < 0x8000_0000_0000_0000 * 1_000_000_000,
        time.has_filetime() <==> time@ < 100 * (0x1_0000_0000_0000_0000 - 134_774 * 86_400
            * 10_000_000),
{
}

} // verus!
