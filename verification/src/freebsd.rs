//! The `_umtx_op` backend, for FreeBSD: what to hand to the system call for
//! each operation, and how to read what it returns.

use crate::time::{deadline, lemma_deadline_exact, Timespec, Timestamp};
use crate::time::{NANOS_PER_MILLI, NANOS_PER_SEC};
use omango_util::hint::unlikely;
use vstd::prelude::*;

verus! {

/// Operation: block while the 32-bit word of this process still holds the
/// given value.
pub const UMTX_OP_WAIT_UINT_PRIVATE: i32 = 15;

/// Operation: wake up to the given number of waiters of this process.
pub const UMTX_OP_WAKE_PRIVATE: i32 = 16;

/// Flag of the time structure: the time is a deadline, not a duration.
pub const UMTX_ABSTIME: u32 = 1;

/// Identifier of the wall clock.
pub const CLOCK_REALTIME: u32 = 0;

/// The count that stands for "every waiter".
pub const WAKE_ALL_COUNT: u64 = 0x7fff_ffff;

/// The time structure a timed wait points the system call to. It is a plain
/// value of the call record, so whoever performs the call owns it until the
/// call has returned.
#[derive(Clone, Copy, Debug, PartialEq, Eq)]
pub struct UmtxTime {
    pub timeout: Timespec,
    pub flags: u32,
    pub clockid: u32,
}

impl UmtxTime {
    /// A deadline on the wall clock at `at`.
    pub open spec fn until(at: Timespec) -> UmtxTime {
        UmtxTime { timeout: at, flags: UMTX_ABSTIME, clockid: CLOCK_REALTIME }
    }
}

/// The two ways this backend uses the system call.
#[derive(Clone, Copy, Debug, PartialEq, Eq)]
pub enum UmtxCommand {
    Wait,
    Wake,
}

/// One call of `_umtx_op(address, operation, value, size, timeout)`, where
/// `size` is the size of the time structure when there is one.
#[derive(Clone, Copy, Debug, PartialEq, Eq)]
pub struct UmtxCall {
    /// The address of the watched cell, passed on as a number and never read.
    pub address: usize,
    pub command: UmtxCommand,
    /// For a wait the value the cell is expected to hold, for a wake the
    /// number of waiters to wake.
    pub value: u64,
    /// The deadline of a timed wait; `None` stands for the null pointer.
    pub timeout: Option<UmtxTime>,
}

impl UmtxCall {
    /// The operation code of the call.
    pub open spec fn operation_code(self) -> i32 {
        match self.command {
            UmtxCommand::Wait => UMTX_OP_WAIT_UINT_PRIVATE,
            UmtxCommand::Wake => UMTX_OP_WAKE_PRIVATE,
        }
    }

    /// Whether the call may suspend the calling thread.
    pub open spec fn blocks(self) -> bool {
        self.command is Wait
    }

    /// Whether a raw result reports a call that went through: the system call
    /// answers every failure with a negative number.
    pub open spec fn succeeded(self, raw: i64) -> bool {
        raw >= 0
    }

    /// The operation code to pass to the system call.
    pub fn operation(&self) -> (code: i32)
        ensures
            code == self.operation_code(),
    {
        match self.command {
            UmtxCommand::Wait => UMTX_OP_WAIT_UINT_PRIVATE,
            UmtxCommand::Wake => UMTX_OP_WAKE_PRIVATE,
        }
    }

    /// Maps the raw result of the call to the library's answer.
    pub fn completed(&self, raw: i64) -> (ok: bool)
        ensures
            ok == self.succeeded(raw),
    {
        if unlikely(raw < 0) {
            return false;
        }
        true
    }
}

/// The deadline structure for a wait that ends `millis` milliseconds after
/// `now`, if that instant can be written down.
pub open spec fn deadline_time(now: Timestamp, millis: u32) -> Option<UmtxTime> {
    match deadline(now, millis) {
        Some(at) => Some(UmtxTime::until(at)),
        None => None,
    }
}

/// The call that blocks, with no deadline, while the cell holds `expected`.
pub open spec fn wait_call(address: usize, expected: u32) -> UmtxCall {
    UmtxCall { address, command: UmtxCommand::Wait, value: expected as u64, timeout: None }
}

/// The call that blocks while the cell holds `expected`, until `millis`
/// milliseconds after `now` at the latest. Where that instant cannot be
/// written down the call carries no deadline.
pub open spec fn wait_until_call(
    address: usize,
    expected: u32,
    millis: u32,
    now: Timestamp,
) -> UmtxCall {
    UmtxCall {
        address,
        command: UmtxCommand::Wait,
        value: expected as u64,
        timeout: deadline_time(now, millis),
    }
}

/// The call that wakes up to `count` waiters.
pub open spec fn wake_call(address: usize, count: u64) -> UmtxCall {
    UmtxCall { address, command: UmtxCommand::Wake, value: count, timeout: None }
}

/// Prepares a wait on the cell at `address` that ends `millis` milliseconds
/// after `now`, the current reading of the wall clock.
pub fn wait_until(address: usize, expected: u32, millis: u32, now: Timestamp) -> (call: UmtxCall)
    ensures
        call == wait_until_call(address, expected, millis, now),
{
    UmtxCall {
        address,
        command: UmtxCommand::Wait,
        value: expected as u64,
        timeout: to_duration(now, millis),
    }
}

/// Prepares a wait on the cell at `address` with no deadline.
pub fn wait(address: usize, expected: u32) -> (call: UmtxCall)
    ensures
        call == wait_call(address, expected),
{
    UmtxCall { address, command: UmtxCommand::Wait, value: expected as u64, timeout: None }
}

/// Prepares the wake of at most one waiter on `address`.
pub fn wake_one(address: usize) -> (call: UmtxCall)
    ensures
        call == wake_call(address, 1),
{
    UmtxCall { address, command: UmtxCommand::Wake, value: 1, timeout: None }
}

/// Prepares the wake of every waiter on `address`.
pub fn wake_all(address: usize) -> (call: UmtxCall)
    ensures
        call == wake_call(address, WAKE_ALL_COUNT),
{
    UmtxCall { address, command: UmtxCommand::Wake, value: WAKE_ALL_COUNT, timeout: None }
}

/// Adds `millis` milliseconds to `now` as one count of nanoseconds and splits
/// the sum into the time structure of a timed wait. Returns `None` where the
/// seconds overflow the signed 64-bit field of the structure.
pub fn to_duration(now: Timestamp, millis: u32) -> (time: Option<UmtxTime>)
    ensures
        time == deadline_time(now, millis),
        match time {
            Some(time) => {
                &&& time.flags == UMTX_ABSTIME
                &&& time.clockid == CLOCK_REALTIME
                &&& time.timeout.normalized()
                &&& time.timeout.total_nanos() == now.total_nanos() + millis * NANOS_PER_MILLI
            },
            None => now.total_nanos() + millis * NANOS_PER_MILLI >= (i64::MAX + 1) * NANOS_PER_SEC,
        },
{
    let per_sec: u128 = NANOS_PER_SEC as u128;
    let since_epoch: u128 = now.secs as u128 * per_sec + now.nanos as u128;
    let per_milli: u128 = NANOS_PER_MILLI as u128;
    let extra: u128 = millis as u128 * per_milli;
    let total: u128 = since_epoch + extra;
    let secs: u128 = total / per_sec;
    let rest: u128 = total % per_sec;
    proof {
        lemma_deadline_exact(now, millis);
    }
    if secs > i64::MAX as u128 {
        return None;
    }
    Some(
        UmtxTime {
            timeout: Timespec { tv_sec: secs as i64, tv_nsec: rest as i64 },
            flags: UMTX_ABSTIME,
            clockid: CLOCK_REALTIME,
        },
    )
}

} // verus!
