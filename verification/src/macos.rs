//! The runtime-library backend, for macOS, iOS and watchOS. These systems
//! offer no wait or wake on an address of their own; the C++ runtime library
//! does, through four entry points of its stable ABI: one that reads the
//! notification count kept for an address, one that blocks until that count
//! moves on, and two that notify.

use vstd::prelude::*;

verus! {

/// A timed wait was asked of a backend that has none.
#[derive(Clone, Copy, Debug, PartialEq, Eq)]
pub enum Unsupported {
    TimedWait,
}

/// One call into the runtime library.
#[derive(Clone, Copy, Debug, PartialEq, Eq)]
pub enum RuntimeCall {
    /// `__libcpp_atomic_monitor(address)`: returns the monitor token, the
    /// current notification count of the address.
    Monitor { address: usize },
    /// `__libcpp_atomic_wait(address, monitor)`: blocks until the address has
    /// been notified since `monitor` was read.
    Wait { address: usize, monitor: i64 },
    /// `__cxx_atomic_notify_one(address)`.
    NotifyOne { address: usize },
    /// `__cxx_atomic_notify_all(address)`.
    NotifyAll { address: usize },
}

/// What follows a call into the runtime library.
#[derive(Clone, Copy, Debug, PartialEq, Eq)]
pub enum RuntimeStep {
    /// Another call is due.
    Next(RuntimeCall),
    /// The operation is over, with this answer.
    Finished(bool),
}

impl RuntimeCall {
    /// The address the call is made on.
    pub open spec fn address(self) -> usize {
        match self {
            RuntimeCall::Monitor { address } => address,
            RuntimeCall::Wait { address, .. } => address,
            RuntimeCall::NotifyOne { address } => address,
            RuntimeCall::NotifyAll { address } => address,
        }
    }

    /// Whether the call may suspend the calling thread.
    pub open spec fn blocks(self) -> bool {
        self is Wait
    }

    /// What follows the call once it has returned `raw`. Only reading the
    /// monitor returns anything: its token goes into the wait that follows.
    /// The other entry points return nothing and cannot report a failure, so
    /// the operation ends there, successfully.
    pub open spec fn follow(self, raw: i64) -> RuntimeStep {
        match self {
            RuntimeCall::Monitor { address } => RuntimeStep::Next(
                RuntimeCall::Wait { address, monitor: raw },
            ),
            _ => RuntimeStep::Finished(true),
        }
    }

    /// Decides what follows the call once it has returned `raw`; for the
    /// entry points that return nothing `raw` is ignored.
    pub fn resume(self, raw: i64) -> (step: RuntimeStep)
        ensures
            step == self.follow(raw),
    {
        match self {
            RuntimeCall::Monitor { address } => RuntimeStep::Next(
                RuntimeCall::Wait { address, monitor: raw },
            ),
            _ => RuntimeStep::Finished(true),
        }
    }
}

/// Refuses the timed wait: the runtime library can wait for a notification
/// but not for a deadline, and waiting without one would break the caller's
/// bound.
#[allow(unused_variables)]
pub fn wait_until(address: usize, expected: u32, millis: u32) -> (r: Result<
    RuntimeCall,
    Unsupported,
>)
    ensures
        r == Err::<RuntimeCall, Unsupported>(Unsupported::TimedWait),
{
    Err(Unsupported::TimedWait)
}

/// Begins a wait on the cell at `address` by reading its monitor token. The
/// runtime library takes no expected value: the caller compares the cell
/// itself before it waits.
#[allow(unused_variables)]
pub fn wait(address: usize, expected: u32) -> (call: RuntimeCall)
    ensures
        call == (RuntimeCall::Monitor { address }),
{
    RuntimeCall::Monitor { address }
}

/// Prepares the notification of at most one waiter on `address`.
pub fn wake_one(address: usize) -> (call: RuntimeCall)
    ensures
        call == (RuntimeCall::NotifyOne { address }),
{
    RuntimeCall::NotifyOne { address }
}

/// Prepares the notification of every waiter on `address`.
pub fn wake_all(address: usize) -> (call: RuntimeCall)
    ensures
        call == (RuntimeCall::NotifyAll { address }),
{
    RuntimeCall::NotifyAll { address }
}

} // verus!
