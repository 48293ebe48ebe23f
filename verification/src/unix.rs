//! The futex backend, for Linux and Android: what to hand to the `futex`
//! system call for each operation, and how to read what it returns.

use crate::time::{deadline, lemma_deadline_exact, Timespec, Timestamp};
use crate::time::{MILLIS_PER_SEC, NANOS_PER_MILLI, NANOS_PER_SEC};
use omango_util::hint::unlikely;
use vstd::prelude::*;

verus! {

/// Command: block while the word at the address still holds the given value.
pub const FUTEX_WAIT: i32 = 0;

/// Command: wake up to the given number of waiters.
pub const FUTEX_WAKE: i32 = 1;

/// Command: as `FUTEX_WAIT`, with a wake mask and an absolute timeout.
pub const FUTEX_WAIT_BITSET: i32 = 9;

/// Flag: the word is not shared with another process.
pub const FUTEX_PRIVATE_FLAG: i32 = 128;

/// Flag: the timeout is measured on the wall clock.
pub const FUTEX_CLOCK_REALTIME: i32 = 256;

/// The bits of an operation word that hold the command; the flags lie above.
pub const COMMAND_BITS: i32 = 127;

/// Wake mask that matches every waiter.
pub const FUTEX_BITSET_MATCH_ANY: u32 = 0xffff_ffff;

/// The largest number of waiters one wake can ask for.
pub const WAKE_ALL_COUNT: u32 = 0x7fff_ffff;

/// The three ways this backend uses the system call.
#[derive(Clone, Copy, Debug, PartialEq, Eq)]
pub enum FutexCommand {
    /// Wait with no timeout.
    Wait,
    /// Wait until a deadline on the wall clock.
    WaitUntil,
    /// Wake waiters.
    Wake,
}

/// One call of `futex(address, operation, value, timeout, 0, bitset)`.
#[derive(Clone, Copy, Debug, PartialEq, Eq)]
pub struct FutexCall {
    /// The address of the watched cell, passed on as a number and never read.
    pub address: usize,
    pub command: FutexCommand,
    /// For a wait the value the cell is expected to hold, for a wake the
    /// number of waiters to wake.
    pub value: u32,
    /// The absolute deadline; `None` stands for the null pointer, a wait
    /// without bound.
    pub timeout: Option<Timespec>,
    pub bitset: u32,
}

impl FutexCall {
    /// The operation word of the call: its command with the flags it carries.
    pub open spec fn operation_word(self) -> i32 {
        match self.command {
            FutexCommand::Wait => 128,
            FutexCommand::WaitUntil => 393,
            FutexCommand::Wake => 129,
        }
    }

    /// The number of the call's command, the low bits of its operation word.
    pub open spec fn command_number(self) -> i32 {
        match self.command {
            FutexCommand::Wait => FUTEX_WAIT,
            FutexCommand::WaitUntil => FUTEX_WAIT_BITSET,
            FutexCommand::Wake => FUTEX_WAKE,
        }
    }

    /// Whether the call may suspend the calling thread.
    pub open spec fn blocks(self) -> bool {
        !(self.command is Wake)
    }

    /// Whether a raw result reports a call that went through. A wait returns
    /// zero when it was woken; a wake returns how many waiters it woke. Every
    /// failure, a timeout included, comes back negative.
    pub open spec fn succeeded(self, raw: i64) -> bool {
        if self.command is Wake {
            raw >= 0
        } else {
            raw == 0
        }
    }

    /// Computes the operation word from the command and flag constants. Every
    /// call is private to the process; only the timed wait measures its
    /// timeout on the wall clock.
    pub fn operation(&self) -> (word: i32)
        ensures
            word == self.operation_word(),
            word & COMMAND_BITS == self.command_number(),
            word & FUTEX_PRIVATE_FLAG == FUTEX_PRIVATE_FLAG,
            (word & FUTEX_CLOCK_REALTIME == FUTEX_CLOCK_REALTIME) == (self.command is WaitUntil),
    {
        match self.command {
            FutexCommand::Wait => {
                assert(FUTEX_WAIT | FUTEX_PRIVATE_FLAG == 128) by (bit_vector);
                assert(128i32 & COMMAND_BITS == FUTEX_WAIT && 128i32 & FUTEX_PRIVATE_FLAG
                    == FUTEX_PRIVATE_FLAG && 128i32 & FUTEX_CLOCK_REALTIME == 0) by (bit_vector);
                FUTEX_WAIT | FUTEX_PRIVATE_FLAG
            },
            FutexCommand::WaitUntil => {
                assert(FUTEX_WAIT_BITSET | FUTEX_PRIVATE_FLAG | FUTEX_CLOCK_REALTIME == 393)
                    by (bit_vector);
                assert(393i32 & COMMAND_BITS == FUTEX_WAIT_BITSET && 393i32 & FUTEX_PRIVATE_FLAG
                    == FUTEX_PRIVATE_FLAG && 393i32 & FUTEX_CLOCK_REALTIME
                    == FUTEX_CLOCK_REALTIME) by (bit_vector);
                FUTEX_WAIT_BITSET | FUTEX_PRIVATE_FLAG | FUTEX_CLOCK_REALTIME
            },
            FutexCommand::Wake => {
                assert(FUTEX_WAKE | FUTEX_PRIVATE_FLAG == 129) by (bit_vector);
                assert(129i32 & COMMAND_BITS == FUTEX_WAKE && 129i32 & FUTEX_PRIVATE_FLAG
                    == FUTEX_PRIVATE_FLAG && 129i32 & FUTEX_CLOCK_REALTIME == 0) by (bit_vector);
                FUTEX_WAKE | FUTEX_PRIVATE_FLAG
            },
        }
    }

    /// Maps the raw result of the call to the library's answer.
    pub fn completed(&self, raw: i64) -> (ok: bool)
        ensures
            ok == self.succeeded(raw),
    {
        match self.command {
            FutexCommand::Wake => {
                if unlikely(raw < 0) {
                    return false;
                }
                true
            },
            _ => {
                if unlikely(raw != 0) {
                    return false;
                }
                true
            },
        }
    }
}

/// The call that blocks, with no deadline, while the cell holds `expected`.
pub open spec fn wait_call(address: usize, expected: u32) -> FutexCall {
    FutexCall {
        address,
        command: FutexCommand::Wait,
        value: expected,
        timeout: None,
        bitset: 0,
    }
}

/// The call that blocks while the cell holds `expected`, until `millis`
/// milliseconds after `now` at the latest. Where that instant cannot be
/// written down the call carries no deadline.
pub open spec fn wait_until_call(
    address: usize,
    expected: u32,
    millis: u32,
    now: Timestamp,
) -> FutexCall {
    FutexCall {
        address,
        command: FutexCommand::WaitUntil,
        value: expected,
        timeout: deadline(now, millis),
        bitset: FUTEX_BITSET_MATCH_ANY,
    }
}

/// The call that wakes up to `count` waiters.
pub open spec fn wake_call(address: usize, count: u32) -> FutexCall {
    FutexCall { address, command: FutexCommand::Wake, value: count, timeout: None, bitset: 0 }
}

/// Prepares a wait on the cell at `address` that ends `millis` milliseconds
/// after `now`, the current reading of the wall clock.
pub fn wait_until(address: usize, expected: u32, millis: u32, now: Timestamp) -> (call: FutexCall)
    ensures
        call == wait_until_call(address, expected, millis, now),
{
    FutexCall {
        address,
        command: FutexCommand::WaitUntil,
        value: expected,
        timeout: to_duration(now, millis),
        bitset: FUTEX_BITSET_MATCH_ANY,
    }
}

/// Prepares a wait on the cell at `address` that only a wake, or the kernel
/// on its own account, ends.
pub fn wait(address: usize, expected: u32) -> (call: FutexCall)
    ensures
        call == wait_call(address, expected),
{
    FutexCall { address, command: FutexCommand::Wait, value: expected, timeout: None, bitset: 0 }
}

/// Prepares the wake of at most one waiter on `address`.
pub fn wake_one(address: usize) -> (call: FutexCall)
    ensures
        call == wake_call(address, 1),
{
    FutexCall { address, command: FutexCommand::Wake, value: 1, timeout: None, bitset: 0 }
}

/// Prepares the wake of every waiter on `address`.
pub fn wake_all(address: usize) -> (call: FutexCall)
    ensures
        call == wake_call(address, WAKE_ALL_COUNT),
{
    FutexCall {
        address,
        command: FutexCommand::Wake,
        value: WAKE_ALL_COUNT,
        timeout: None,
        bitset: 0,
    }
}

/// Adds `millis` milliseconds to `now` and splits the sum into seconds and
/// nanoseconds. Returns `None` where the seconds overflow the signed 64-bit
/// field of the native structure.
pub fn to_duration(now: Timestamp, millis: u32) -> (at: Option<Timespec>)
    ensures
        at == deadline(now, millis),
        match at {
            Some(at) => at.normalized() && at.total_nanos() == now.total_nanos() + millis
                * NANOS_PER_MILLI,
            None => now.total_nanos() + millis * NANOS_PER_MILLI >= (i64::MAX + 1) * NANOS_PER_SEC,
        },
{
    let whole: u64 = (millis / MILLIS_PER_SEC) as u64;
    let part: u64 = (millis % MILLIS_PER_SEC) as u64 * NANOS_PER_MILLI;
    let nanos: u64 = now.nanos as u64 + part;
    let carry: u64 = nanos / NANOS_PER_SEC;
    let rest: u64 = nanos % NANOS_PER_SEC;
    let added: u64 = whole + carry;
    proof {
        lemma_deadline_exact(now, millis);
        let total: int = now.total_nanos() + millis * NANOS_PER_MILLI;
        assert(total == (now.secs + added) * NANOS_PER_SEC + rest);
        vstd::arithmetic::div_mod::lemma_fundamental_div_mod_converse(
            total,
            NANOS_PER_SEC as int,
            now.secs + added,
            rest as int,
        );
    }
    if now.secs > i64::MAX as u64 - added {
        return None;
    }
    Some(Timespec { tv_sec: (now.secs + added) as i64, tv_nsec: rest as i64 })
}

} // verus!
