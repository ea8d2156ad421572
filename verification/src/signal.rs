//! The three signals that the supervisor acts on, and how a retrieved signal
//! number is told apart from all the others.

use vstd::prelude::*;

verus! {

/// What a retrieved signal asks of the supervisor.
#[derive(Clone, Copy, Debug, PartialEq, Eq, Structural)]
pub enum SignalKind {
    /// At least one child has exited and waits to be collected.
    ChildExited,
    /// The machine is to be powered off.
    Shutdown,
    /// The machine is to be rebooted.
    Interrupt,
    /// Any other signal: blocked, retrieved and dropped.
    Other,
}

/// The numbers under which the platform delivers the three signals.
#[derive(Clone, Copy, Debug, PartialEq, Eq, Structural)]
pub struct SignalNumbers {
    pub child_exited: i32,
    pub shutdown: i32,
    pub interrupt: i32,
}

/// The platform's number for the child-exited signal, `libc::SIGCHLD`.
/// The number differs between targets, so nothing is claimed of it.
#[verifier::external_body]
fn child_exited_number() -> i32 {
    libc::SIGCHLD
}

/// The platform's number for the shutdown signal, `libc::SIGUSR1`.
/// The number differs between targets, so nothing is claimed of it.
#[verifier::external_body]
fn shutdown_number() -> i32 {
    libc::SIGUSR1
}

/// The platform's number for the interrupt signal, `libc::SIGINT`.
/// The number differs between targets, so nothing is claimed of it.
#[verifier::external_body]
fn interrupt_number() -> i32 {
    libc::SIGINT
}

impl SignalNumbers {
    /// The three numbers are pairwise different, so that every signal number
    /// has one meaning.
    pub open spec fn wf(self) -> bool {
        &&& self.child_exited != self.shutdown
        &&& self.child_exited != self.interrupt
        &&& self.shutdown != self.interrupt
    }

    /// The meaning of signal number `signal`. Where two of the three numbers
    /// are equal, the first of child-exited, shutdown and interrupt decides.
    pub open spec fn kind_of(self, signal: i32) -> SignalKind {
        if signal == self.child_exited {
            SignalKind::ChildExited
        } else if signal == self.shutdown {
            SignalKind::Shutdown
        } else if signal == self.interrupt {
            SignalKind::Interrupt
        } else {
            SignalKind::Other
        }
    }

    /// Accepts three numbers exactly when they are pairwise different.
    pub fn new(child_exited: i32, shutdown: i32, interrupt: i32) -> (r: Option<SignalNumbers>)
        ensures
            r is Some <==> (SignalNumbers { child_exited, shutdown, interrupt }).wf(),
            r is Some ==> r->0 == (SignalNumbers { child_exited, shutdown, interrupt }),
    {
        if child_exited != shutdown && child_exited != interrupt && shutdown != interrupt {
            Some(SignalNumbers { child_exited, shutdown, interrupt })
        } else {
            None
        }
    }

    /// The numbers of the platform this was built for, where they are pairwise
    /// different.
    pub fn platform() -> (r: Option<SignalNumbers>)
        ensures
            r is Some ==> r->0.wf(),
    {
        SignalNumbers::new(child_exited_number(), shutdown_number(), interrupt_number())
    }

    /// Tells what `signal` asks for.
    pub fn classify(&self, signal: i32) -> (kind: SignalKind)
        ensures
            kind == self.kind_of(signal),
    {
        if signal == self.child_exited {
            SignalKind::ChildExited
        } else if signal == self.shutdown {
            SignalKind::Shutdown
        } else if signal == self.interrupt {
            SignalKind::Interrupt
        } else {
            SignalKind::Other
        }
    }
}

} // verus!
