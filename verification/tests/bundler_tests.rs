use bundler::callback::{classify_call_result, CallOutcome};
use bundler::closure::{accepts_name, names_closure, Registration};
use bundler::run_main;
use std::io::Write;

#[test]
fn lib_test() {
    std::io::stderr().write_all(b"hello\n").unwrap();
}

#[test]
fn run_main_returns() {
    run_main();
}

#[test]
fn plain_names_are_accepted() {
    assert!(accepts_name(b"Range.dummy"));
    assert!(accepts_name(b"StoreID.fresh"));
    assert!(accepts_name(b""));
}

#[test]
fn names_with_nul_are_refused() {
    assert!(!accepts_name(b"Range\0dummy"));
    assert!(!accepts_name(b"\0"));
    assert!(!accepts_name(b"Main.show_error_category\0"));
}

#[test]
fn only_registered_closures_are_named() {
    assert!(names_closure(&Registration::Registered { tag: 247 }));
    assert!(!names_closure(&Registration::Registered { tag: 246 }));
    assert!(!names_closure(&Registration::Registered { tag: 0 }));
    assert!(!names_closure(&Registration::Unregistered));
}

#[test]
fn returned_values_pass_through() {
    assert_eq!(classify_call_result(1), CallOutcome::Returned(1));
    assert_eq!(classify_call_result(7), CallOutcome::Returned(7));
    assert_eq!(classify_call_result(0x1000), CallOutcome::Returned(0x1000));
    assert_eq!(classify_call_result(-1), CallOutcome::Returned(-1));
}

#[test]
fn exception_results_lose_their_mark() {
    assert_eq!(classify_call_result(6), CallOutcome::Raised(4));
    assert_eq!(classify_call_result(0x1002), CallOutcome::Raised(0x1000));
    assert_eq!(classify_call_result(-2), CallOutcome::Raised(-4));
}

#[test]
fn exception_payload_roundtrip() {
    for raw in [2isize, 6, 0x7ffe, -2, -6, isize::MIN + 2] {
        match classify_call_result(raw) {
            CallOutcome::Raised(payload) => {
                assert_eq!(payload & 3, 0);
                assert_eq!(payload | 2, raw);
                assert_eq!(classify_call_result(payload), CallOutcome::Returned(payload));
            }
            CallOutcome::Returned(_) => panic!("expected an exception result"),
        }
    }
}
