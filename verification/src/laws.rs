//! What holds of the four operations on every backend.

use crate::freebsd::{CLOCK_REALTIME, UMTX_ABSTIME};
use crate::macos::Unsupported;
use crate::time::{deadline_fits, deadline_nanos, lemma_deadline_exact, Timestamp};
use crate::windows::{AddressCall, CELL_SIZE};
use crate::{wait_request, wait_until_request, wake_all_request, wake_one_request};
use crate::{Backend, NativeCall, Step};
use vstd::prelude::*;

verus! {

/// Waking one waiter is a single native call on the very address given, the
/// null address included, and that call cannot suspend the caller. The
/// operation is over as soon as the call has returned, whatever it returned,
/// and it has succeeded unless the call reported an error; a call that woke
/// nobody reports none.
pub proof fn lemma_wake_one_returns_at_once(backend: Backend, address: usize, raw: i64)
    ensures
        wake_one_request(backend, address).address() == address,
        !wake_one_request(backend, address).blocks(),
        wake_one_request(backend, address).after(raw) is Done,
        raw >= 0 ==> wake_one_request(backend, address).after(raw) == Step::Done(true),
{
}

/// Waking every waiter is a single native call on the very address given,
/// the null address included, and that call cannot suspend the caller. The
/// operation is over as soon as the call has returned, whatever it returned,
/// and it has succeeded unless the call reported an error; a call that woke
/// nobody reports none.
pub proof fn lemma_wake_all_returns_at_once(backend: Backend, address: usize, raw: i64)
    ensures
        wake_all_request(backend, address).address() == address,
        !wake_all_request(backend, address).blocks(),
        wake_all_request(backend, address).after(raw) is Done,
        raw >= 0 ==> wake_all_request(backend, address).after(raw) == Step::Done(true),
{
}

/// Waking everyone twice in a row where nobody waits: no call is remembered
/// from one operation to the next, so the second operation asks for the same
/// native call as the first, and each of them, having woken nobody, succeeds.
pub proof fn lemma_wake_all_twice(backend: Backend, address: usize)
    ensures
        ({
            let first = wake_all_request(backend, address);
            let second = wake_all_request(backend, address);
            &&& first.after(0) == Step::Done(true)
            &&& second == first
            &&& second.after(0) == Step::Done(true)
        }),
{
}

/// Every operation is over after two native calls at most, and only a wait
/// on the runtime-library backend takes the second: having read the monitor
/// token it blocks on that token, on the same address, and then succeeds.
pub proof fn lemma_operation_ends(call: NativeCall, first: i64, second: i64)
    ensures
        match call.after(first) {
            Step::Done(_) => true,
            Step::Call(next) => {
                &&& call.backend() == Backend::RuntimeLibrary
                &&& !call.blocks()
                &&& next.backend() == Backend::RuntimeLibrary
                &&& next.address() == call.address()
                &&& next.blocks()
                &&& next.after(second) == Step::Done(true)
            },
        },
{
}

/// A wait without a time limit is prepared for every expected value, and
/// the answer to it on each backend. Where the native call reports a result,
/// the wait succeeds exactly when that result says so; the runtime library
/// reports none, so a wait there always succeeds.
pub proof fn lemma_wait_outcome(backend: Backend, address: usize, expected: u32, raw: i64)
    ensures
        wait_request(backend, address, expected).address() == address,
        match backend {
            Backend::Futex => wait_request(backend, address, expected).after(raw) == Step::Done(
                raw == 0,
            ),
            Backend::Umtx => wait_request(backend, address, expected).after(raw) == Step::Done(
                raw >= 0,
            ),
            Backend::RuntimeLibrary => wait_request(backend, address, expected).after(raw)
                is Call,
            Backend::AddressWait => wait_request(backend, address, expected).after(raw)
                == Step::Done(raw != 0),
        },
{
}

/// A timed wait is refused on the runtime-library backend and nowhere else.
/// On the two backends that wait for a deadline, the deadline is normalized
/// and lies exactly `millis` milliseconds after `now`; where that instant
/// cannot be written down the call carries no deadline at all. The
/// address-wait backend is handed `millis` itself.
pub proof fn lemma_timed_wait_limit(
    backend: Backend,
    address: usize,
    expected: u32,
    millis: u32,
    now: Timestamp,
)
    ensures
        match wait_until_request(backend, address, expected, millis, now) {
            Ok(NativeCall::Futex(call)) => {
                &&& backend is Futex
                &&& call.value == expected
                &&& match call.timeout {
                    Some(at) => {
                        &&& deadline_fits(now, millis)
                        &&& at.normalized()
                        &&& at.total_nanos() == deadline_nanos(now, millis)
                    },
                    None => !deadline_fits(now, millis),
                }
            },
            Ok(NativeCall::Umtx(call)) => {
                &&& backend is Umtx
                &&& call.value == expected
                &&& match call.timeout {
                    Some(time) => {
                        &&& deadline_fits(now, millis)
                        &&& time.flags == UMTX_ABSTIME
                        &&& time.clockid == CLOCK_REALTIME
                        &&& time.timeout.normalized()
                        &&& time.timeout.total_nanos() == deadline_nanos(now, millis)
                    },
                    None => !deadline_fits(now, millis),
                }
            },
            Ok(NativeCall::Address(call)) => {
                &&& backend is AddressWait
                &&& call == (AddressCall::Wait {
                    address,
                    compare: expected,
                    size: CELL_SIZE,
                    millis,
                })
            },
            Ok(NativeCall::Runtime(_)) => false,
            Err(refusal) => backend is RuntimeLibrary && refusal == Unsupported::TimedWait,
        },
{
    lemma_deadline_exact(now, millis);
}

/// Only a backend that waits for a deadline needs the clock: on the others
/// the reading handed to a timed wait changes nothing.
pub proof fn lemma_clock_only_for_deadlines(
    backend: Backend,
    address: usize,
    expected: u32,
    millis: u32,
    now: Timestamp,
    other: Timestamp,
)
    requires
        !backend.needs_clock(),
    ensures
        wait_until_request(backend, address, expected, millis, now) == wait_until_request(
            backend,
            address,
            expected,
            millis,
            other,
        ),
{
}

} // verus!
