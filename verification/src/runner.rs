//! Starting a command as a new process: the two contexts that process creation
//! returns in, and the steps that the child takes before it becomes the
//! command.
//!
//! The child context never hands control back to the code that asked for the
//! command: each of its steps leads to the next step or to the end of the
//! child process.

use vstd::prelude::*;
use crate::failure::Failure;

verus! {

/// The exit status of a child that could not become its command.
pub const CHILD_FAILURE_STATUS: i32 = 1;

/// The context in which process creation returned.
#[derive(Clone, Copy, Debug, PartialEq, Eq, Structural)]
pub enum ForkOutcome {
    /// In the process that asked, with the id of its new child.
    Parent(i32),
    /// In the new child.
    Child,
    /// In the process that asked, and no child was created.
    Failed,
}

impl ForkOutcome {
    /// The context that the raw result of process creation stands for: zero
    /// inside the child, minus one where no process was created, and the
    /// child's id otherwise.
    pub open spec fn of_raw(raw: i32) -> ForkOutcome {
        if raw == 0 {
            ForkOutcome::Child
        } else if raw == -1 {
            ForkOutcome::Failed
        } else {
            ForkOutcome::Parent(raw)
        }
    }

    /// Reads the raw result of process creation.
    pub fn from_raw(raw: i32) -> (outcome: ForkOutcome)
        ensures
            outcome == ForkOutcome::of_raw(raw),
    {
        if raw == 0 {
            ForkOutcome::Child
        } else if raw == -1 {
            ForkOutcome::Failed
        } else {
            ForkOutcome::Parent(raw)
        }
    }
}

/// One step of a new child on its way to becoming the command.
#[derive(Clone, Copy, Debug, PartialEq, Eq, Structural)]
pub enum ChildStep {
    /// Unblock every signal of the inherited mask.
    UnblockSignals,
    /// Start a session of its own.
    StartSession,
    /// Replace the process image with the command's.
    ReplaceImage,
}

/// What a child does after one of its steps has returned.
#[derive(Clone, Copy, Debug, PartialEq, Eq, Structural)]
pub enum ChildNext {
    /// Take this step.
    Perform(ChildStep),
    /// Report `failure` and end the child process with `status`.
    Terminate { status: i32, failure: Failure },
}

impl ChildStep {
    /// The first step of every child.
    pub open spec fn first() -> ChildStep {
        ChildStep::UnblockSignals
    }

    /// Whether the raw result `raw` says that this step was done. Unblocking
    /// reports zero when done and session creation minus one when not; a
    /// replaced image does not report at all, so whatever it reports, it was
    /// not done.
    pub open spec fn done(self, raw: i32) -> bool {
        match self {
            ChildStep::UnblockSignals => raw == 0,
            ChildStep::StartSession => raw != -1,
            ChildStep::ReplaceImage => false,
        }
    }

    /// The failure that is reported when this step was not done.
    pub open spec fn failure(self) -> Failure {
        match self {
            ChildStep::UnblockSignals => Failure::SignalUnmask,
            ChildStep::StartSession => Failure::SessionCreation,
            ChildStep::ReplaceImage => Failure::ImageReplacement,
        }
    }

    /// What follows this step once it has returned `raw`: the next step in
    /// order where it was done, the end of the child where it was not.
    pub open spec fn after(self, raw: i32) -> ChildNext {
        if self.done(raw) {
            match self {
                ChildStep::UnblockSignals => ChildNext::Perform(ChildStep::StartSession),
                _ => ChildNext::Perform(ChildStep::ReplaceImage),
            }
        } else {
            ChildNext::Terminate { status: CHILD_FAILURE_STATUS, failure: self.failure() }
        }
    }

    /// The step that a new child starts with.
    pub fn begin() -> (step: ChildStep)
        ensures
            step == ChildStep::first(),
    {
        ChildStep::UnblockSignals
    }

    /// Decides what the child does after this step has returned `raw`.
    pub fn next(self, raw: i32) -> (next: ChildNext)
        ensures
            next == self.after(raw),
            next matches ChildNext::Terminate { status, .. } ==> status != 0,
    {
        match self {
            ChildStep::UnblockSignals => {
                if raw == 0 {
                    ChildNext::Perform(ChildStep::StartSession)
                } else {
                    ChildNext::Terminate {
                        status: CHILD_FAILURE_STATUS,
                        failure: Failure::SignalUnmask,
                    }
                }
            },
            ChildStep::StartSession => {
                if raw != -1 {
                    ChildNext::Perform(ChildStep::ReplaceImage)
                } else {
                    ChildNext::Terminate {
                        status: CHILD_FAILURE_STATUS,
                        failure: Failure::SessionCreation,
                    }
                }
            },
            ChildStep::ReplaceImage => ChildNext::Terminate {
                status: CHILD_FAILURE_STATUS,
                failure: Failure::ImageReplacement,
            },
        }
    }
}

/// What has become of a child whose steps have returned `results` in turn:
/// the step it is to take next, or its end.
pub open spec fn child_after(results: Seq<i32>) -> ChildNext
    decreases results.len(),
{
    if results.len() == 0 {
        ChildNext::Perform(ChildStep::first())
    } else {
        match child_after(results.drop_last()) {
            ChildNext::Perform(step) => step.after(results.last()),
            ended => ended,
        }
    }
}

/// A child never comes back as the process that created it.
///
/// Whatever its steps return, a child takes them in order, each after the one
/// before it was done, and has ended with a status other than zero by the
/// time the third of them has returned. The only way past the third step is
/// not to return from it: to have become the command.
pub proof fn lemma_child_ends(results: Seq<i32>)
    ensures
        results.len() >= 3 ==> child_after(results) is Terminate,
        match child_after(results) {
            ChildNext::Perform(ChildStep::UnblockSignals) => results.len() == 0,
            ChildNext::Perform(ChildStep::StartSession) => {
                &&& results.len() == 1
                &&& ChildStep::UnblockSignals.done(results[0])
            },
            ChildNext::Perform(ChildStep::ReplaceImage) => {
                &&& results.len() == 2
                &&& ChildStep::UnblockSignals.done(results[0])
                &&& ChildStep::StartSession.done(results[1])
            },
            ChildNext::Terminate { status, .. } => results.len() >= 1 && status != 0,
        },
    decreases results.len(),
{
    if results.len() > 0 {
        lemma_child_ends(results.drop_last());
    }
}

} // verus!
