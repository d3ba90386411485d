//! The in-flight counter: it drains back to exactly zero once every
//! submitted unit of work has completed.

use postergen::executor::InFlight;

#[test]
fn fresh_counter_is_drained() {
    let counter = InFlight::new();
    assert!(counter.drained());
}

#[test]
fn counter_returns_to_zero_after_all_work_completes() {
    let mut counter = InFlight::new();
    for _ in 0..5 {
        counter.submit();
    }
    assert!(!counter.drained());
    for _ in 0..5 {
        counter.complete();
    }
    assert!(counter.drained());
}

#[test]
fn interleaved_submissions_and_completions_balance() {
    let mut counter = InFlight::new();
    counter.submit();
    counter.submit();
    counter.complete();
    assert!(!counter.drained());
    counter.submit();
    counter.complete();
    counter.complete();
    assert!(counter.drained());
}
