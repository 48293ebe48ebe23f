//! Waiting on a 32-bit cell until it changes, and waking those who wait: the
//! decisions behind `wait`, `wait_until`, `wake_one` and `wake_all` on four
//! operating-system facilities.
//!
//! The library never touches the cell and never enters the kernel. Each
//! operation yields a [`NativeCall`], the exact native call to make on the
//! chosen [`Backend`]; the caller makes it and hands the raw result to
//! [`NativeCall::advance`], which either names the next call or gives the
//! operation's answer: `true` when it went through without the system
//! reporting an error. A `true` from a wait says "stop blocking and look at
//! the cell again", never "the cell has changed": a wake, a timeout and a
//! wake-up for no reason at all are told apart by nobody.

pub mod freebsd;
pub mod hint;
pub mod laws;
pub mod macos;
pub mod time;
pub mod unix;
pub mod windows;

use crate::freebsd::UmtxCall;
use crate::macos::{RuntimeCall, RuntimeStep, Unsupported};
use crate::time::Timestamp;
use crate::unix::FutexCall;
use crate::windows::AddressCall;
use vstd::prelude::*;

verus! {

/// The native facility that carries out the operations.
#[derive(Clone, Copy, Debug, PartialEq, Eq)]
pub enum Backend {
    /// The `futex` system call of Linux and Android.
    Futex,
    /// The `_umtx_op` system call of FreeBSD.
    Umtx,
    /// The C++ runtime library of macOS, iOS and watchOS.
    RuntimeLibrary,
    /// `WaitOnAddress` and its companions on Windows.
    AddressWait,
}

impl Backend {
    /// Whether a timed wait on this backend is given a deadline on the wall
    /// clock, and so needs the current time; the other backends take the
    /// timeout as it is or have no timed wait.
    pub open spec fn needs_clock(self) -> bool {
        self is Futex || self is Umtx
    }

    /// Says whether `wait_until` needs a reading of the wall clock on this
    /// backend. Where it does not, any reading will do.
    pub fn reads_clock(&self) -> (needed: bool)
        ensures
            needed == self.needs_clock(),
    {
        match self {
            Backend::Futex => true,
            Backend::Umtx => true,
            Backend::RuntimeLibrary => false,
            Backend::AddressWait => false,
        }
    }
}

/// A native call for the caller to make.
#[derive(Clone, Copy, Debug, PartialEq, Eq)]
pub enum NativeCall {
    Futex(FutexCall),
    Umtx(UmtxCall),
    Runtime(RuntimeCall),
    Address(AddressCall),
}

/// Where an operation stands once a native call has returned.
#[derive(Clone, Copy, Debug, PartialEq, Eq)]
pub enum Step {
    /// This call is due next.
    Call(NativeCall),
    /// The operation is over: `true` unless the system reported an error.
    Done(bool),
}

impl NativeCall {
    /// The backend the call belongs to.
    pub open spec fn backend(self) -> Backend {
        match self {
            NativeCall::Futex(_) => Backend::Futex,
            NativeCall::Umtx(_) => Backend::Umtx,
            NativeCall::Runtime(_) => Backend::RuntimeLibrary,
            NativeCall::Address(_) => Backend::AddressWait,
        }
    }

    /// The address handed to the native call.
    pub open spec fn address(self) -> usize {
        match self {
            NativeCall::Futex(call) => call.address,
            NativeCall::Umtx(call) => call.address,
            NativeCall::Runtime(call) => call.address(),
            NativeCall::Address(call) => call.address(),
        }
    }

    /// Whether the call may suspend the calling thread.
    pub open spec fn blocks(self) -> bool {
        match self {
            NativeCall::Futex(call) => call.blocks(),
            NativeCall::Umtx(call) => call.blocks(),
            NativeCall::Runtime(call) => call.blocks(),
            NativeCall::Address(call) => call.blocks(),
        }
    }

    /// Where the operation stands once the call has returned `raw`.
    pub open spec fn after(self, raw: i64) -> Step {
        match self {
            NativeCall::Futex(call) => Step::Done(call.succeeded(raw)),
            NativeCall::Umtx(call) => Step::Done(call.succeeded(raw)),
            NativeCall::Runtime(call) => match call.follow(raw) {
                RuntimeStep::Next(next) => Step::Call(NativeCall::Runtime(next)),
                RuntimeStep::Finished(ok) => Step::Done(ok),
            },
            NativeCall::Address(call) => Step::Done(call.succeeded(raw)),
        }
    }

    /// Takes the raw result of the call, widened to 64 bits (zero for a call
    /// that returns nothing), and says how the operation goes on.
    pub fn advance(self, raw: i64) -> (step: Step)
        ensures
            step == self.after(raw),
    {
        match self {
            NativeCall::Futex(call) => Step::Done(call.completed(raw)),
            NativeCall::Umtx(call) => Step::Done(call.completed(raw)),
            NativeCall::Runtime(call) => match call.resume(raw) {
                RuntimeStep::Next(next) => Step::Call(NativeCall::Runtime(next)),
                RuntimeStep::Finished(ok) => Step::Done(ok),
            },
            NativeCall::Address(call) => Step::Done(call.completed(raw)),
        }
    }
}

/// The first native call of a timed wait, or the refusal of a backend that
/// has no timed wait.
pub open spec fn wait_until_request(
    backend: Backend,
    address: usize,
    expected: u32,
    millis: u32,
    now: Timestamp,
) -> Result<NativeCall, Unsupported> {
    match backend {
        Backend::Futex => Ok(
            NativeCall::Futex(unix::wait_until_call(address, expected, millis, now)),
        ),
        Backend::Umtx => Ok(
            NativeCall::Umtx(freebsd::wait_until_call(address, expected, millis, now)),
        ),
        Backend::RuntimeLibrary => Err(Unsupported::TimedWait),
        Backend::AddressWait => Ok(
            NativeCall::Address(windows::wait_until_call(address, expected, millis)),
        ),
    }
}

/// The first native call of a wait without a time limit.
pub open spec fn wait_request(backend: Backend, address: usize, expected: u32) -> NativeCall {
    match backend {
        Backend::Futex => NativeCall::Futex(unix::wait_call(address, expected)),
        Backend::Umtx => NativeCall::Umtx(freebsd::wait_call(address, expected)),
        Backend::RuntimeLibrary => NativeCall::Runtime(RuntimeCall::Monitor { address }),
        Backend::AddressWait => NativeCall::Address(
            windows::wait_until_call(address, expected, windows::INFINITE),
        ),
    }
}

/// The native call that wakes at most one waiter.
pub open spec fn wake_one_request(backend: Backend, address: usize) -> NativeCall {
    match backend {
        Backend::Futex => NativeCall::Futex(unix::wake_call(address, 1)),
        Backend::Umtx => NativeCall::Umtx(freebsd::wake_call(address, 1)),
        Backend::RuntimeLibrary => NativeCall::Runtime(RuntimeCall::NotifyOne { address }),
        Backend::AddressWait => NativeCall::Address(AddressCall::WakeSingle { address }),
    }
}

/// The native call that wakes every waiter.
pub open spec fn wake_all_request(backend: Backend, address: usize) -> NativeCall {
    match backend {
        Backend::Futex => NativeCall::Futex(unix::wake_call(address, unix::WAKE_ALL_COUNT)),
        Backend::Umtx => NativeCall::Umtx(freebsd::wake_call(address, freebsd::WAKE_ALL_COUNT)),
        Backend::RuntimeLibrary => NativeCall::Runtime(RuntimeCall::NotifyAll { address }),
        Backend::AddressWait => NativeCall::Address(AddressCall::WakeAll { address }),
    }
}

/// If the cell at `address` holds `expected`, wait until woken or until
/// `millis` milliseconds have passed since `now`, the current reading of the
/// wall clock.
///
/// Returns the native call that does so, whatever the cell holds: the
/// comparison is the native call's. The wait may also end for no reason at
/// all. The runtime-library backend has no timed wait and refuses.
pub fn wait_until(
    backend: Backend,
    address: usize,
    expected: u32,
    millis: u32,
    now: Timestamp,
) -> (r: Result<NativeCall, Unsupported>)
    ensures
        r == wait_until_request(backend, address, expected, millis, now),
        r is Err <==> backend is RuntimeLibrary,
        r matches Ok(call) ==> call.backend() == backend && call.address() == address,
{
    match backend {
        Backend::Futex => Ok(NativeCall::Futex(unix::wait_until(address, expected, millis, now))),
        Backend::Umtx => Ok(NativeCall::Umtx(freebsd::wait_until(address, expected, millis, now))),
        Backend::RuntimeLibrary => match macos::wait_until(address, expected, millis) {
            Ok(call) => Ok(NativeCall::Runtime(call)),
            Err(refusal) => Err(refusal),
        },
        Backend::AddressWait => Ok(
            NativeCall::Address(windows::wait_until(address, expected, millis)),
        ),
    }
}

/// If the cell at `address` holds `expected`, wait until woken.
///
/// Returns the first native call of the wait, whatever the cell holds. The
/// wait may also end for no reason at all.
pub fn wait(backend: Backend, address: usize, expected: u32) -> (call: NativeCall)
    ensures
        call == wait_request(backend, address, expected),
        call.backend() == backend,
        call.address() == address,
{
    match backend {
        Backend::Futex => NativeCall::Futex(unix::wait(address, expected)),
        Backend::Umtx => NativeCall::Umtx(freebsd::wait(address, expected)),
        Backend::RuntimeLibrary => NativeCall::Runtime(macos::wait(address, expected)),
        Backend::AddressWait => NativeCall::Address(windows::wait(address, expected)),
    }
}

/// Wake one thread that waits on the cell at `address`.
///
/// The address is taken as a number and only passed on: it may be null or
/// point to a cell that is gone.
pub fn wake_one(backend: Backend, address: usize) -> (call: NativeCall)
    ensures
        call == wake_one_request(backend, address),
        call.backend() == backend,
        call.address() == address,
        !call.blocks(),
{
    match backend {
        Backend::Futex => NativeCall::Futex(unix::wake_one(address)),
        Backend::Umtx => NativeCall::Umtx(freebsd::wake_one(address)),
        Backend::RuntimeLibrary => NativeCall::Runtime(macos::wake_one(address)),
        Backend::AddressWait => NativeCall::Address(windows::wake_one(address)),
    }
}

/// Wake all threads that wait on the cell at `address`.
///
/// The address is taken as a number and only passed on: it may be null or
/// point to a cell that is gone.
pub fn wake_all(backend: Backend, address: usize) -> (call: NativeCall)
    ensures
        call == wake_all_request(backend, address),
        call.backend() == backend,
        call.address() == address,
        !call.blocks(),
{
    match backend {
        Backend::Futex => NativeCall::Futex(unix::wake_all(address)),
        Backend::Umtx => NativeCall::Umtx(freebsd::wake_all(address)),
        Backend::RuntimeLibrary => NativeCall::Runtime(macos::wake_all(address)),
        Backend::AddressWait => NativeCall::Address(windows::wake_all(address)),
    }
}

} // verus!
