use compiler_interrupts::{dispatch, register, Dispatcher, FnHandler, IntervalTracker, NegativeInterval};
use std::cell::RefCell;

#[test]
fn a_new_tracker_starts_at_zero() {
    let tracker = IntervalTracker::new();
    assert_eq!(tracker.previous(), 0);
}

#[test]
fn advance_returns_the_interval() {
    let mut tracker = IntervalTracker::new();
    assert_eq!(tracker.advance(500), Ok(500));
    assert_eq!(tracker.previous(), 500);
    assert_eq!(tracker.advance(1200), Ok(700));
    assert_eq!(tracker.previous(), 1200);
    assert_eq!(tracker.advance(1200), Ok(0));
    assert_eq!(tracker.advance(i64::MAX), Ok(i64::MAX - 1200));
    assert_eq!(tracker.previous(), i64::MAX);
}

#[test]
fn a_lower_count_is_refused() {
    let mut tracker = IntervalTracker::new();
    assert_eq!(tracker.advance(500), Ok(500));
    assert_eq!(tracker.advance(400), Err(NegativeInterval { previous: 500, current: 400 }));
    // The tracker is as it was: nothing was clamped, nothing was taken over.
    assert_eq!(tracker.previous(), 500);
    assert_eq!(tracker.advance(600), Ok(100));
}

#[test]
fn a_negative_first_count_is_refused() {
    let mut tracker = IntervalTracker::new();
    assert_eq!(tracker.advance(-1), Err(NegativeInterval { previous: 0, current: -1 }));
    assert_eq!(tracker.advance(i64::MIN), Err(NegativeInterval { previous: 0, current: i64::MIN }));
    assert_eq!(tracker.previous(), 0);
}

#[test]
fn a_handler_finds_a_count_that_went_down() {
    let tracker = RefCell::new(IntervalTracker::new());
    let intervals = RefCell::new(Vec::new());
    let measure = |count: i64| intervals.borrow_mut().push(tracker.borrow_mut().advance(count));
    let mut d: Dispatcher<_, fn()> = Dispatcher::new();
    register(&mut d, 1000, 1000, FnHandler::new(&measure));
    dispatch(&mut d, 1000);
    dispatch(&mut d, 2100);
    dispatch(&mut d, 2000);
    assert_eq!(
        *intervals.borrow(),
        vec![Ok(1000), Ok(1100), Err(NegativeInterval { previous: 2100, current: 2000 })]
    );
}
