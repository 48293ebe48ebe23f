//! The address-wait backend, for Windows: `WaitOnAddress`,
//! `WakeByAddressSingle` and `WakeByAddressAll`.

use omango_util::hint::unlikely;
use vstd::prelude::*;

verus! {

/// The timeout that stands for "no timeout".
pub const INFINITE: u32 = 0xffff_ffff;

/// The width of the watched cell in bytes.
pub const CELL_SIZE: usize = 4;

/// The result with which `WaitOnAddress` reports a failure.
pub const FALSE: i64 = 0;

/// One call of the address-wait facility.
#[derive(Clone, Copy, Debug, PartialEq, Eq)]
pub enum AddressCall {
    /// `WaitOnAddress(address, &compare, size, millis)`: blocks while the
    /// `size` bytes at `address` equal `compare`, for `millis` milliseconds
    /// at most.
    Wait { address: usize, compare: u32, size: usize, millis: u32 },
    /// `WakeByAddressSingle(address)`.
    WakeSingle { address: usize },
    /// `WakeByAddressAll(address)`.
    WakeAll { address: usize },
}

impl AddressCall {
    /// The address the call is made on.
    pub open spec fn address(self) -> usize {
        match self {
            AddressCall::Wait { address, .. } => address,
            AddressCall::WakeSingle { address } => address,
            AddressCall::WakeAll { address } => address,
        }
    }

    /// Whether the call may suspend the calling thread.
    pub open spec fn blocks(self) -> bool {
        self is Wait
    }

    /// Whether a raw result reports a call that went through. The wait
    /// answers `FALSE` when it failed, a timeout included; the two wakes
    /// return nothing and cannot fail.
    pub open spec fn succeeded(self, raw: i64) -> bool {
        match self {
            AddressCall::Wait { .. } => raw != FALSE,
            _ => true,
        }
    }

    /// Maps the raw result of the call to the library's answer; for the
    /// wakes `raw` is ignored.
    pub fn completed(&self, raw: i64) -> (ok: bool)
        ensures
            ok == self.succeeded(raw),
    {
        match self {
            AddressCall::Wait { .. } => {
                if unlikely(raw == FALSE) {
                    return false;
                }
                true
            },
            _ => true,
        }
    }
}

/// The call that blocks while the cell holds `expected`, for `millis`
/// milliseconds at most. The facility reads `INFINITE` as no limit at all.
pub open spec fn wait_until_call(address: usize, expected: u32, millis: u32) -> AddressCall {
    AddressCall::Wait { address, compare: expected, size: CELL_SIZE, millis }
}

/// Prepares a wait on the cell at `address` of at most `millis` milliseconds.
pub fn wait_until(address: usize, expected: u32, millis: u32) -> (call: AddressCall)
    ensures
        call == wait_until_call(address, expected, millis),
{
    AddressCall::Wait { address, compare: expected, size: CELL_SIZE, millis }
}

/// Prepares a wait on the cell at `address` with no time limit.
pub fn wait(address: usize, expected: u32) -> (call: AddressCall)
    ensures
        call == wait_until_call(address, expected, INFINITE),
{
    wait_until(address, expected, INFINITE)
}

/// Prepares the wake of at most one waiter on `address`.
pub fn wake_one(address: usize) -> (call: AddressCall)
    ensures
        call == (AddressCall::WakeSingle { address }),
{
    AddressCall::WakeSingle { address }
}

/// Prepares the wake of every waiter on `address`.
pub fn wake_all(address: usize) -> (call: AddressCall)
    ensures
        call == (AddressCall::WakeAll { address }),
{
    AddressCall::WakeAll { address }
}

} // verus!
