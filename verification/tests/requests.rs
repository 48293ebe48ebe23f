//! The native calls the library asks for, value by value, and the answers it
//! reads from their results.

use omango_futex::freebsd::{UmtxCall, UmtxCommand, UmtxTime};
use omango_futex::macos::{RuntimeCall, RuntimeStep, Unsupported};
use omango_futex::time::{Timespec, Timestamp};
use omango_futex::unix::{FutexCall, FutexCommand};
use omango_futex::windows::AddressCall;
use omango_futex::{freebsd, macos, unix, windows};
use omango_futex::{wait, wait_until, wake_all, wake_one, Backend, NativeCall, Step};

const BACKENDS: [Backend; 4] =
    [Backend::Futex, Backend::Umtx, Backend::RuntimeLibrary, Backend::AddressWait];

const NOON: Timestamp = Timestamp { secs: 1_700_000_000, nanos: 250_000_000 };

const RAWS: [i64; 7] = [i64::MIN, -2, -1, 0, 1, 2, i64::MAX];

#[test]
fn wake_null() {
    for backend in BACKENDS {
        let one = wake_one(backend, 0);
        let all = wake_all(backend, 0);
        assert_eq!(one.advance(0), Step::Done(true));
        assert_eq!(all.advance(0), Step::Done(true));
    }
    assert_eq!(
        wake_one(Backend::Futex, 0),
        NativeCall::Futex(FutexCall {
            address: 0,
            command: FutexCommand::Wake,
            value: 1,
            timeout: None,
            bitset: 0,
        })
    );
    assert_eq!(
        wake_all(Backend::Futex, 0),
        NativeCall::Futex(FutexCall {
            address: 0,
            command: FutexCommand::Wake,
            value: 0x7fff_ffff,
            timeout: None,
            bitset: 0,
        })
    );
    assert_eq!(
        wake_one(Backend::RuntimeLibrary, 0),
        NativeCall::Runtime(RuntimeCall::NotifyOne { address: 0 })
    );
    assert_eq!(
        wake_all(Backend::AddressWait, 0),
        NativeCall::Address(AddressCall::WakeAll { address: 0 })
    );
}

#[test]
fn wake_on_a_dangling_address_passes_it_on() {
    for address in [0usize, 1, 0xdead_beef, usize::MAX] {
        assert_eq!(unix::wake_one(address).address, address);
        assert_eq!(unix::wake_all(address).address, address);
        assert_eq!(freebsd::wake_one(address).address, address);
        assert_eq!(freebsd::wake_all(address).address, address);
        assert_eq!(macos::wake_one(address), RuntimeCall::NotifyOne { address });
        assert_eq!(macos::wake_all(address), RuntimeCall::NotifyAll { address });
        assert_eq!(windows::wake_one(address), AddressCall::WakeSingle { address });
        assert_eq!(windows::wake_all(address), AddressCall::WakeAll { address });
    }
}

#[test]
fn futex_operation_words_match_the_system_headers() {
    assert_eq!(unix::FUTEX_WAIT, libc::FUTEX_WAIT);
    assert_eq!(unix::FUTEX_WAKE, libc::FUTEX_WAKE);
    assert_eq!(unix::FUTEX_WAIT_BITSET, libc::FUTEX_WAIT_BITSET);
    assert_eq!(unix::FUTEX_PRIVATE_FLAG, libc::FUTEX_PRIVATE_FLAG);
    assert_eq!(unix::FUTEX_CLOCK_REALTIME, libc::FUTEX_CLOCK_REALTIME);
    assert_eq!(unix::FUTEX_BITSET_MATCH_ANY as i32, libc::FUTEX_BITSET_MATCH_ANY);
    assert_eq!(unix::WAKE_ALL_COUNT as i32, i32::MAX);

    assert_eq!(unix::wait(64, 0).operation(), libc::FUTEX_WAIT | libc::FUTEX_PRIVATE_FLAG);
    assert_eq!(unix::wait(64, 0).operation(), 128);
    assert_eq!(
        unix::wait_until(64, 0, 10, NOON).operation(),
        libc::FUTEX_WAIT_BITSET | libc::FUTEX_PRIVATE_FLAG | libc::FUTEX_CLOCK_REALTIME
    );
    assert_eq!(unix::wait_until(64, 0, 10, NOON).operation(), 393);
    assert_eq!(unix::wake_one(64).operation(), libc::FUTEX_WAKE | libc::FUTEX_PRIVATE_FLAG);
    assert_eq!(unix::wake_all(64).operation(), 129);
}

#[test]
fn futex_requests() {
    assert_eq!(
        wait(Backend::Futex, 4096, 17),
        NativeCall::Futex(FutexCall {
            address: 4096,
            command: FutexCommand::Wait,
            value: 17,
            timeout: None,
            bitset: 0,
        })
    );
    assert_eq!(
        wait_until(Backend::Futex, 4096, 17, 1000, NOON),
        Ok(NativeCall::Futex(FutexCall {
            address: 4096,
            command: FutexCommand::WaitUntil,
            value: 17,
            timeout: Some(Timespec { tv_sec: 1_700_000_001, tv_nsec: 250_000_000 }),
            bitset: 0xffff_ffff,
        }))
    );
    assert_eq!(
        wake_one(Backend::Futex, 4096),
        NativeCall::Futex(FutexCall {
            address: 4096,
            command: FutexCommand::Wake,
            value: 1,
            timeout: None,
            bitset: 0,
        })
    );
    assert_eq!(
        wake_all(Backend::Futex, 4096),
        NativeCall::Futex(FutexCall {
            address: 4096,
            command: FutexCommand::Wake,
            value: 2_147_483_647,
            timeout: None,
            bitset: 0,
        })
    );
}

#[test]
fn futex_answers() {
    for raw in RAWS {
        assert_eq!(unix::wait(8, 0).completed(raw), raw == 0);
        assert_eq!(unix::wait_until(8, 0, 5, NOON).completed(raw), raw == 0);
        assert_eq!(unix::wake_one(8).completed(raw), raw >= 0);
        assert_eq!(unix::wake_all(8).completed(raw), raw >= 0);
        assert_eq!(wait(Backend::Futex, 8, 0).advance(raw), Step::Done(raw == 0));
        assert_eq!(wake_all(Backend::Futex, 8).advance(raw), Step::Done(raw >= 0));
    }
    // Three waiters woken is a success, three from a wait is not.
    assert!(unix::wake_all(8).completed(3));
    assert!(!unix::wait(8, 0).completed(3));
}

#[test]
fn deadline_splits_into_seconds_and_nanoseconds() {
    let at = |secs: u64, nanos: u32, millis: u32| {
        unix::to_duration(Timestamp { secs, nanos }, millis)
    };
    assert_eq!(at(0, 0, 0), Some(Timespec { tv_sec: 0, tv_nsec: 0 }));
    assert_eq!(at(0, 0, 1), Some(Timespec { tv_sec: 0, tv_nsec: 1_000_000 }));
    assert_eq!(at(0, 0, 999), Some(Timespec { tv_sec: 0, tv_nsec: 999_000_000 }));
    assert_eq!(at(0, 0, 1000), Some(Timespec { tv_sec: 1, tv_nsec: 0 }));
    assert_eq!(at(10, 999_999_999, 1), Some(Timespec { tv_sec: 11, tv_nsec: 999_999 }));
    assert_eq!(
        at(1_700_000_000, 999_500_000, 1000),
        Some(Timespec { tv_sec: 1_700_000_001, tv_nsec: 999_500_000 })
    );
    assert_eq!(
        at(1_700_000_000, 999_500_000, 1),
        Some(Timespec { tv_sec: 1_700_000_001, tv_nsec: 500_000 })
    );
    assert_eq!(
        at(1_700_000_000, 123_456_789, 2_500),
        Some(Timespec { tv_sec: 1_700_000_002, tv_nsec: 623_456_789 })
    );
    // The longest timeout there is: 4 294 967 295 ms.
    assert_eq!(
        at(5, 1, u32::MAX),
        Some(Timespec { tv_sec: 4_294_972, tv_nsec: 295_000_001 })
    );
    // A reading whose nanoseconds run over a second is carried, not cut.
    assert_eq!(at(1, 3_000_000_007, 0), Some(Timespec { tv_sec: 4, tv_nsec: 7 }));
    assert_eq!(
        at(1, u32::MAX, 999),
        Some(Timespec { tv_sec: 6, tv_nsec: 293_967_295 })
    );
}

#[test]
fn deadline_beyond_the_native_range_is_dropped() {
    let last = i64::MAX as u64;
    let at = |secs: u64, nanos: u32, millis: u32| {
        unix::to_duration(Timestamp { secs, nanos }, millis)
    };
    assert_eq!(at(last, 0, 0), Some(Timespec { tv_sec: i64::MAX, tv_nsec: 0 }));
    assert_eq!(
        at(last, 999_000_000, 0),
        Some(Timespec { tv_sec: i64::MAX, tv_nsec: 999_000_000 })
    );
    assert_eq!(
        at(last, 998_999_999, 1),
        Some(Timespec { tv_sec: i64::MAX, tv_nsec: 999_999_999 })
    );
    assert_eq!(at(last, 999_000_000, 1), None);
    assert_eq!(at(last, 0, 1000), None);
    assert_eq!(at(last - 1, 0, 1000), Some(Timespec { tv_sec: i64::MAX, tv_nsec: 0 }));
    assert_eq!(at(last + 1, 0, 0), None);
    assert_eq!(at(u64::MAX, u32::MAX, u32::MAX), None);

    let call = unix::wait_until(32, 9, 1000, Timestamp { secs: last, nanos: 0 });
    assert_eq!(call.timeout, None);
    assert_eq!(call.command, FutexCommand::WaitUntil);
    assert_eq!(call.value, 9);
}

#[test]
fn both_deadline_computations_agree() {
    let readings = [
        (0u64, 0u32),
        (1, 999_999_999),
        (1_700_000_000, 250_000_000),
        (1_700_000_000, u32::MAX),
        (i64::MAX as u64 - 5, 999_999_999),
        (i64::MAX as u64, 0),
        (i64::MAX as u64, 999_999_999),
        (i64::MAX as u64 + 1, 0),
        (u64::MAX, u32::MAX),
    ];
    for (secs, nanos) in readings {
        for millis in [0u32, 1, 999, 1000, 1001, 60_000, 4_999_999, u32::MAX] {
            let now = Timestamp { secs, nanos };
            let split = unix::to_duration(now, millis);
            let whole = freebsd::to_duration(now, millis);
            assert_eq!(whole.map(|time| time.timeout), split);
            if let Some(at) = split {
                assert!(at.tv_sec >= 0 && (0..1_000_000_000).contains(&at.tv_nsec));
                let total = at.tv_sec as u128 * 1_000_000_000 + at.tv_nsec as u128;
                let wanted =
                    secs as u128 * 1_000_000_000 + nanos as u128 + millis as u128 * 1_000_000;
                assert_eq!(total, wanted);
            }
        }
    }
}

#[test]
fn umtx_requests() {
    assert_eq!(freebsd::UMTX_OP_WAIT_UINT_PRIVATE, 15);
    assert_eq!(freebsd::UMTX_OP_WAKE_PRIVATE, 16);
    assert_eq!(freebsd::UMTX_ABSTIME, 1);
    assert_eq!(freebsd::CLOCK_REALTIME, 0);
    assert_eq!(
        wait(Backend::Umtx, 4096, 17),
        NativeCall::Umtx(UmtxCall {
            address: 4096,
            command: UmtxCommand::Wait,
            value: 17,
            timeout: None,
        })
    );
    assert_eq!(
        wait_until(Backend::Umtx, 4096, u32::MAX, 1500, NOON),
        Ok(NativeCall::Umtx(UmtxCall {
            address: 4096,
            command: UmtxCommand::Wait,
            value: 4_294_967_295,
            timeout: Some(UmtxTime {
                timeout: Timespec { tv_sec: 1_700_000_001, tv_nsec: 750_000_000 },
                flags: 1,
                clockid: 0,
            }),
        }))
    );
    assert_eq!(
        wake_one(Backend::Umtx, 4096),
        NativeCall::Umtx(UmtxCall {
            address: 4096,
            command: UmtxCommand::Wake,
            value: 1,
            timeout: None,
        })
    );
    assert_eq!(
        wake_all(Backend::Umtx, 4096),
        NativeCall::Umtx(UmtxCall {
            address: 4096,
            command: UmtxCommand::Wake,
            value: 2_147_483_647,
            timeout: None,
        })
    );
    assert_eq!(freebsd::wait(1, 2).operation(), 15);
    assert_eq!(freebsd::wait_until(1, 2, 3, NOON).operation(), 15);
    assert_eq!(freebsd::wake_one(1).operation(), 16);
    assert_eq!(freebsd::wake_all(1).operation(), 16);
    assert_eq!(
        freebsd::wait_until(1, 2, 1, Timestamp { secs: i64::MAX as u64, nanos: 999_999_999 })
            .timeout,
        None
    );
}

#[test]
fn umtx_answers() {
    for raw in RAWS {
        assert_eq!(freebsd::wait(8, 0).completed(raw), raw >= 0);
        assert_eq!(freebsd::wait_until(8, 0, 5, NOON).completed(raw), raw >= 0);
        assert_eq!(freebsd::wake_one(8).completed(raw), raw >= 0);
        assert_eq!(freebsd::wake_all(8).completed(raw), raw >= 0);
        assert_eq!(wait(Backend::Umtx, 8, 0).advance(raw), Step::Done(raw >= 0));
    }
}

#[test]
fn runtime_library_wait_reads_the_monitor_first() {
    let first = wait(Backend::RuntimeLibrary, 4096, 17);
    assert_eq!(first, NativeCall::Runtime(RuntimeCall::Monitor { address: 4096 }));
    let second = match first.advance(-42) {
        Step::Call(second) => second,
        Step::Done(ok) => panic!("over after the monitor was read: {}", ok),
    };
    assert_eq!(second, NativeCall::Runtime(RuntimeCall::Wait { address: 4096, monitor: -42 }));
    for raw in RAWS {
        assert_eq!(second.advance(raw), Step::Done(true));
        assert_eq!(
            macos::wait(7, 0).resume(raw),
            RuntimeStep::Next(RuntimeCall::Wait { address: 7, monitor: raw })
        );
        assert_eq!(macos::wake_one(7).resume(raw), RuntimeStep::Finished(true));
        assert_eq!(macos::wake_all(7).resume(raw), RuntimeStep::Finished(true));
        assert_eq!(wake_one(Backend::RuntimeLibrary, 7).advance(raw), Step::Done(true));
        assert_eq!(wake_all(Backend::RuntimeLibrary, 7).advance(raw), Step::Done(true));
    }
    // The expected value plays no part on this backend.
    assert_eq!(macos::wait(7, 0), macos::wait(7, 1));
}

#[test]
fn runtime_library_has_no_timed_wait() {
    assert_eq!(macos::wait_until(4096, 0, 1000), Err(Unsupported::TimedWait));
    assert_eq!(macos::wait_until(0, 9, 0), Err(Unsupported::TimedWait));
    assert_eq!(
        wait_until(Backend::RuntimeLibrary, 4096, 0, 1000, NOON),
        Err(Unsupported::TimedWait)
    );
    for backend in BACKENDS {
        let refused = wait_until(backend, 4096, 0, 1000, NOON).is_err();
        assert_eq!(refused, backend == Backend::RuntimeLibrary);
    }
}

#[test]
fn address_wait_requests() {
    assert_eq!(windows::INFINITE, u32::MAX);
    assert_eq!(windows::CELL_SIZE, std::mem::size_of::<u32>());
    assert_eq!(
        wait_until(Backend::AddressWait, 4096, 17, 1000, NOON),
        Ok(NativeCall::Address(AddressCall::Wait {
            address: 4096,
            compare: 17,
            size: 4,
            millis: 1000,
        }))
    );
    assert_eq!(
        wait(Backend::AddressWait, 4096, 17),
        NativeCall::Address(AddressCall::Wait {
            address: 4096,
            compare: 17,
            size: 4,
            millis: 0xffff_ffff,
        })
    );
    assert_eq!(windows::wait(4096, 17), windows::wait_until(4096, 17, windows::INFINITE));
    assert_eq!(
        wake_one(Backend::AddressWait, 4096),
        NativeCall::Address(AddressCall::WakeSingle { address: 4096 })
    );
    assert_eq!(
        wake_all(Backend::AddressWait, 4096),
        NativeCall::Address(AddressCall::WakeAll { address: 4096 })
    );
}

#[test]
fn address_wait_answers() {
    for raw in RAWS {
        assert_eq!(windows::wait(8, 0).completed(raw), raw != 0);
        assert_eq!(windows::wait_until(8, 0, 5).completed(raw), raw != 0);
        assert!(windows::wake_one(8).completed(raw));
        assert!(windows::wake_all(8).completed(raw));
        assert_eq!(wake_one(Backend::AddressWait, 8).advance(raw), Step::Done(true));
        assert_eq!(wake_all(Backend::AddressWait, 8).advance(raw), Step::Done(true));
    }
}

#[test]
fn only_deadline_backends_read_the_clock() {
    assert!(Backend::Futex.reads_clock());
    assert!(Backend::Umtx.reads_clock());
    assert!(!Backend::RuntimeLibrary.reads_clock());
    assert!(!Backend::AddressWait.reads_clock());
    let later = Timestamp { secs: 2_000_000_000, nanos: 1 };
    for backend in BACKENDS {
        let same = wait_until(backend, 64, 3, 20, NOON) == wait_until(backend, 64, 3, 20, later);
        assert_eq!(same, !backend.reads_clock());
    }
}

#[test]
fn every_operation_ends_within_two_calls() {
    for backend in BACKENDS {
        let mut firsts = vec![wait(backend, 64, 3), wake_one(backend, 64), wake_all(backend, 64)];
        if let Ok(call) = wait_until(backend, 64, 3, 20, NOON) {
            firsts.push(call);
        }
        for first in firsts {
            for raw in RAWS {
                match first.advance(raw) {
                    Step::Done(_) => {}
                    Step::Call(second) => {
                        assert_eq!(backend, Backend::RuntimeLibrary);
                        assert_eq!(second.advance(raw), Step::Done(true));
                    }
                }
            }
        }
    }
}

#[test]
fn waking_never_asks_for_a_wait() {
    for backend in BACKENDS {
        for call in [wake_one(backend, 64), wake_all(backend, 64)] {
            let waits = match call {
                NativeCall::Futex(call) => call.command != FutexCommand::Wake,
                NativeCall::Umtx(call) => call.command != UmtxCommand::Wake,
                NativeCall::Runtime(call) => {
                    matches!(call, RuntimeCall::Monitor { .. } | RuntimeCall::Wait { .. })
                }
                NativeCall::Address(call) => matches!(call, AddressCall::Wait { .. }),
            };
            assert!(!waits);
        }
    }
}
