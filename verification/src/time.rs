//! Wall-clock values and the arithmetic that turns a timeout in milliseconds
//! into the absolute deadline a timed wait is given.

use vstd::prelude::*;

verus! {

/// Nanoseconds in one second.
pub const NANOS_PER_SEC: u64 = 1_000_000_000;

/// Nanoseconds in one millisecond.
pub const NANOS_PER_MILLI: u64 = 1_000_000;

/// Milliseconds in one second.
pub const MILLIS_PER_SEC: u32 = 1_000;

/// A reading of the wall clock: the time elapsed since the Unix epoch.
///
/// `nanos` usually stays below one second, but nothing here depends on it: a
/// reading stands for `secs` whole seconds plus `nanos` nanoseconds, whatever
/// the two fields hold.
#[derive(Clone, Copy, Debug, PartialEq, Eq)]
pub struct Timestamp {
    pub secs: u64,
    pub nanos: u32,
}

impl Timestamp {
    /// The reading as a single count of nanoseconds since the epoch.
    pub open spec fn total_nanos(self) -> int {
        self.secs * NANOS_PER_SEC + self.nanos
    }
}

/// A point in time split into seconds and nanoseconds, the shape in which the
/// native timed waits take their deadline.
#[derive(Clone, Copy, Debug, PartialEq, Eq)]
pub struct Timespec {
    pub tv_sec: i64,
    pub tv_nsec: i64,
}

impl Timespec {
    /// The value as a single count of nanoseconds.
    pub open spec fn total_nanos(self) -> int {
        self.tv_sec * NANOS_PER_SEC + self.tv_nsec
    }

    /// Neither field is negative and `tv_nsec` is less than one second, as the
    /// kernels require of a deadline.
    pub open spec fn normalized(self) -> bool {
        0 <= self.tv_sec && 0 <= self.tv_nsec < NANOS_PER_SEC
    }
}

/// The instant `millis` milliseconds after `now`, in nanoseconds since the
/// epoch.
pub open spec fn deadline_nanos(now: Timestamp, millis: u32) -> int {
    now.total_nanos() + millis * NANOS_PER_MILLI
}

/// Whether the instant `millis` milliseconds after `now` can be written with a
/// signed 64-bit count of seconds.
pub open spec fn deadline_fits(now: Timestamp, millis: u32) -> bool {
    deadline_nanos(now, millis) / (NANOS_PER_SEC as int) <= i64::MAX
}

/// The deadline `millis` milliseconds after `now` as seconds and nanoseconds,
/// or `None` where the seconds do not fit the native representation.
pub open spec fn deadline(now: Timestamp, millis: u32) -> Option<Timespec> {
    if deadline_fits(now, millis) {
        Some(
            Timespec {
                tv_sec: (deadline_nanos(now, millis) / (NANOS_PER_SEC as int)) as i64,
                tv_nsec: (deadline_nanos(now, millis) % (NANOS_PER_SEC as int)) as i64,
            },
        )
    } else {
        None
    }
}

/// A deadline that fits is normalized and denotes exactly `millis`
/// milliseconds after `now`; one that does not fit lies beyond every instant
/// the native representation can name.
pub proof fn lemma_deadline_exact(now: Timestamp, millis: u32)
    ensures
        match deadline(now, millis) {
            Some(at) => at.normalized() && at.total_nanos() == deadline_nanos(now, millis),
            None => deadline_nanos(now, millis) >= (i64::MAX + 1) * NANOS_PER_SEC,
        },
{
    let total: int = deadline_nanos(now, millis);
    let per: int = NANOS_PER_SEC as int;
    assert(total == per * (total / per) + total % per) by {
        vstd::arithmetic::div_mod::lemma_fundamental_div_mod(total, per);
    }
    assert(0 <= total % per < per);
    if deadline_fits(now, millis) {
        assert(0 <= total / per);
    }
}

} // verus!
