use sinit::failure::Failure;
use sinit::runner::{ChildNext, ChildStep, ForkOutcome, CHILD_FAILURE_STATUS};

#[test]
fn fork_result_zero_is_the_child() {
    assert_eq!(ForkOutcome::from_raw(0), ForkOutcome::Child);
}

#[test]
fn fork_result_minus_one_is_a_failure() {
    assert_eq!(ForkOutcome::from_raw(-1), ForkOutcome::Failed);
}

#[test]
fn any_other_fork_result_is_the_parent_with_the_child_id() {
    assert_eq!(ForkOutcome::from_raw(1), ForkOutcome::Parent(1));
    assert_eq!(ForkOutcome::from_raw(31337), ForkOutcome::Parent(31337));
    assert_eq!(ForkOutcome::from_raw(-2), ForkOutcome::Parent(-2));
}

#[test]
fn a_child_starts_by_unblocking_its_signals() {
    assert_eq!(ChildStep::begin(), ChildStep::UnblockSignals);
}

#[test]
fn a_child_takes_its_steps_in_order() {
    assert_eq!(
        ChildStep::UnblockSignals.next(0),
        ChildNext::Perform(ChildStep::StartSession)
    );
    assert_eq!(
        ChildStep::StartSession.next(4242),
        ChildNext::Perform(ChildStep::ReplaceImage)
    );
}

#[test]
fn a_child_that_cannot_unblock_its_signals_ends() {
    for raw in [-1, 1, 22] {
        assert_eq!(
            ChildStep::UnblockSignals.next(raw),
            ChildNext::Terminate { status: 1, failure: Failure::SignalUnmask }
        );
    }
}

#[test]
fn a_child_that_cannot_start_a_session_ends() {
    assert_eq!(
        ChildStep::StartSession.next(-1),
        ChildNext::Terminate { status: 1, failure: Failure::SessionCreation }
    );
}

#[test]
fn a_child_whose_image_replacement_returns_ends() {
    for raw in [-1, 0, 1] {
        assert_eq!(
            ChildStep::ReplaceImage.next(raw),
            ChildNext::Terminate { status: 1, failure: Failure::ImageReplacement }
        );
    }
}

#[test]
fn a_failed_child_never_ends_with_status_zero() {
    assert_ne!(CHILD_FAILURE_STATUS, 0);
    for step in [ChildStep::UnblockSignals, ChildStep::StartSession, ChildStep::ReplaceImage] {
        for raw in [-1, 0, 1, 7] {
            if let ChildNext::Terminate { status, .. } = step.next(raw) {
                assert_ne!(status, 0);
            }
        }
    }
}

#[test]
fn a_child_with_an_invalid_path_ends_after_three_steps() {
    let mut step = ChildStep::begin();
    let results = [0, 77, -1];
    let mut taken = Vec::new();
    let mut end = None;
    for raw in results {
        taken.push(step);
        match step.next(raw) {
            ChildNext::Perform(next) => step = next,
            ChildNext::Terminate { status, failure } => {
                end = Some((status, failure));
                break;
            }
        }
    }
    assert_eq!(
        taken,
        vec![ChildStep::UnblockSignals, ChildStep::StartSession, ChildStep::ReplaceImage]
    );
    assert_eq!(end, Some((1, Failure::ImageReplacement)));
}
