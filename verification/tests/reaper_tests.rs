use sinit::reaper::WaitOutcome;

#[test]
fn a_positive_result_is_a_collected_child() {
    assert_eq!(WaitOutcome::from_raw(1), WaitOutcome::Reaped(1));
    assert_eq!(WaitOutcome::from_raw(4711), WaitOutcome::Reaped(4711));
    assert_eq!(WaitOutcome::from_raw(i32::MAX), WaitOutcome::Reaped(i32::MAX));
}

#[test]
fn zero_says_that_no_child_is_ready() {
    assert_eq!(WaitOutcome::from_raw(0), WaitOutcome::NoneReady);
}

#[test]
fn a_negative_result_says_that_no_child_is_left() {
    assert_eq!(WaitOutcome::from_raw(-1), WaitOutcome::NoChildren);
    assert_eq!(WaitOutcome::from_raw(i32::MIN), WaitOutcome::NoChildren);
}

#[test]
fn the_drain_goes_on_only_after_a_collected_child() {
    assert!(WaitOutcome::Reaped(12).drain_continues());
    assert!(!WaitOutcome::NoneReady.drain_continues());
    assert!(!WaitOutcome::NoChildren.drain_continues());
}
