//! Collecting exited children: what one non-blocking wait reported, and
//! whether the drain goes on after it.

use vstd::prelude::*;

verus! {

/// What one non-blocking wait for any child reported.
#[derive(Clone, Copy, Debug, PartialEq, Eq, Structural)]
pub enum WaitOutcome {
    /// A child had exited and was collected; its exit status is dropped.
    Reaped(i32),
    /// Children exist, but none of them has exited.
    NoneReady,
    /// There is no child left to wait for.
    NoChildren,
}

impl WaitOutcome {
    /// The outcome that the raw result of the wait call stands for: a positive
    /// number is the id of a collected child, zero says that no child was
    /// ready, and a negative number that there was nothing to wait for.
    pub open spec fn of_raw(raw: i32) -> WaitOutcome {
        if raw > 0 {
            WaitOutcome::Reaped(raw)
        } else if raw == 0 {
            WaitOutcome::NoneReady
        } else {
            WaitOutcome::NoChildren
        }
    }

    /// Whether another wait has to follow this one: only after a child was
    /// collected, since more may have exited behind it.
    pub open spec fn continues(self) -> bool {
        self is Reaped
    }

    /// Reads the raw result of the wait call.
    pub fn from_raw(raw: i32) -> (outcome: WaitOutcome)
        ensures
            outcome == WaitOutcome::of_raw(raw),
    {
        if raw > 0 {
            WaitOutcome::Reaped(raw)
        } else if raw == 0 {
            WaitOutcome::NoneReady
        } else {
            WaitOutcome::NoChildren
        }
    }

    /// Whether the drain goes on after this outcome.
    pub fn drain_continues(&self) -> (again: bool)
        ensures
            again == self.continues(),
    {
        match self {
            WaitOutcome::Reaped(_) => true,
            _ => false,
        }
    }
}

} // verus!
