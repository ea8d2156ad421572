//! The supervision loop as a state machine: from the state of the init
//! process and the outcome of the action it last asked for, to the next state
//! and the next action.
//!
//! The machine itself does nothing. Its driver performs each [`Action`] on the
//! operating system and hands back the [`Event`] that tells how it went. While
//! the system is running, every action but the wait for the next signal
//! returns at once, so the loop blocks in one place only.
//!
//! The init process is meant to be the first process of the system. One that
//! finds itself under another id prints a warning and goes on.

use vstd::prelude::*;
use crate::config::Command;
use crate::reaper::WaitOutcome;
use crate::signal::{SignalKind, SignalNumbers};

verus! {

/// The exit status of an init process that could not bring the system up.
pub const FATAL_STATUS: i32 = 1;

/// The process id under which the kernel starts the init process.
pub const INIT_PROCESS_ID: i32 = 1;

/// How far the one-time startup sequence has come.
#[derive(Clone, Copy, Debug, PartialEq, Eq, Structural)]
pub enum Boot {
    /// The process is finding out its own id.
    Identifying,
    /// The all-blocking signal mask is being installed.
    Masking,
    /// The startup command is being started.
    Launching,
}

/// What a running system is busy with.
#[derive(Clone, Copy, Debug, PartialEq, Eq, Structural)]
pub enum Activity {
    /// Blocked until the next signal is pending.
    Waiting,
    /// Collecting the children that have exited.
    Reaping,
    /// Starting the command that a signal has asked for.
    Commanding(Command),
}

/// The state of the init process. There is no state for a system that has
/// stopped: the machine is powered off or rebooted from outside, not by this
/// process coming to an end.
#[derive(Clone, Copy, Debug, PartialEq, Eq, Structural)]
pub enum State {
    Bootstrapping(Boot),
    Running(Activity),
}

/// What the driver is asked to do next.
#[derive(Clone, Copy, Debug, PartialEq, Eq, Structural)]
pub enum Action {
    /// Find out the id of this process.
    IdentifyProcess,
    /// Block every signal, so that each is held back until it is retrieved.
    BlockAllSignals,
    /// Start this command as a new process, without waiting for it.
    Spawn(Command),
    /// Block until a signal is pending, and retrieve it.
    AwaitSignal,
    /// Check once, without blocking, for a child that has exited.
    WaitForChild,
}

/// How the action that was asked for went.
#[derive(Clone, Copy, Debug, PartialEq, Eq, Structural)]
pub enum Event {
    /// This process has the given id.
    Identified(i32),
    /// Every signal is blocked now.
    MaskInstalled,
    /// The operating system refused the signal mask.
    MaskFailed,
    /// The command runs as the child with the given id.
    Spawned(i32),
    /// No process could be created for the command.
    SpawnFailed,
    /// The signal with the given number was retrieved.
    Signal(i32),
    /// The check for an exited child reported this.
    Waited(WaitOutcome),
}

/// What the driver prints along with a step.
#[derive(Clone, Copy, Debug, PartialEq, Eq, Structural)]
pub enum Notice {
    /// Nothing.
    Silent,
    /// A warning that this process is not the first of the system. It goes on
    /// all the same.
    NotFirstProcess,
    /// The startup sequence has begun.
    Begin,
    /// The startup command runs, and signals are being served.
    UpAndRunning,
    /// The diagnostic of the failure that the event reported.
    Failure,
}

/// The outcome of one step of the machine.
#[derive(Clone, Copy, Debug, PartialEq, Eq, Structural)]
pub enum Step {
    /// Print `notice`, perform `action`, and come back in state `next` with
    /// the event that tells how the action went.
    Continue { next: State, notice: Notice, action: Action },
    /// Print `notice` and end the init process with `status`.
    Terminate { notice: Notice, status: i32 },
}

/// The state in which the init process starts.
pub open spec fn initial() -> State {
    State::Bootstrapping(Boot::Identifying)
}

impl State {
    /// The action whose outcome this state waits for.
    pub open spec fn pending(self) -> Action {
        match self {
            State::Bootstrapping(Boot::Identifying) => Action::IdentifyProcess,
            State::Bootstrapping(Boot::Masking) => Action::BlockAllSignals,
            State::Bootstrapping(Boot::Launching) => Action::Spawn(Command::Startup),
            State::Running(Activity::Waiting) => Action::AwaitSignal,
            State::Running(Activity::Reaping) => Action::WaitForChild,
            State::Running(Activity::Commanding(command)) => Action::Spawn(command),
        }
    }
}

/// What a retrieved signal makes a waiting system do: collect children, start
/// the shutdown or the reboot command, or, for any other signal, nothing but
/// wait for the next one.
pub open spec fn dispatch(kind: SignalKind) -> Activity {
    match kind {
        SignalKind::ChildExited => Activity::Reaping,
        SignalKind::Shutdown => Activity::Commanding(Command::Shutdown),
        SignalKind::Interrupt => Activity::Commanding(Command::Reboot),
        SignalKind::Other => Activity::Waiting,
    }
}

/// The step that `state` takes on `event`, or `None` where `event` does not
/// tell the outcome of the action that `state` waits for.
///
/// A failure during startup ends the process with [`FATAL_STATUS`]; a failure
/// to start the shutdown or the reboot command is reported and the system
/// stays up. A running system passes from activity to activity and carries
/// nothing else along.
pub open spec fn transition(signals: SignalNumbers, state: State, event: Event) -> Option<Step> {
    match (state, event) {
        (State::Bootstrapping(Boot::Identifying), Event::Identified(id)) => Some(
            proceed(
                State::Bootstrapping(Boot::Masking),
                if id == INIT_PROCESS_ID {
                    Notice::Silent
                } else {
                    Notice::NotFirstProcess
                },
            ),
        ),
        (State::Bootstrapping(Boot::Masking), Event::MaskInstalled) => Some(
            proceed(State::Bootstrapping(Boot::Launching), Notice::Begin),
        ),
        (State::Bootstrapping(Boot::Masking), Event::MaskFailed) => Some(fatal()),
        (State::Bootstrapping(Boot::Launching), Event::Spawned(_)) => Some(
            proceed(State::Running(Activity::Waiting), Notice::UpAndRunning),
        ),
        (State::Bootstrapping(Boot::Launching), Event::SpawnFailed) => Some(fatal()),
        (State::Running(Activity::Waiting), Event::Signal(number)) => Some(
            proceed(State::Running(dispatch(signals.kind_of(number))), Notice::Silent),
        ),
        (State::Running(Activity::Reaping), Event::Waited(outcome)) => Some(
            proceed(
                State::Running(
                    if outcome.continues() {
                        Activity::Reaping
                    } else {
                        Activity::Waiting
                    },
                ),
                Notice::Silent,
            ),
        ),
        (State::Running(Activity::Commanding(_)), Event::Spawned(_)) => Some(
            proceed(State::Running(Activity::Waiting), Notice::Silent),
        ),
        (State::Running(Activity::Commanding(_)), Event::SpawnFailed) => Some(
            proceed(State::Running(Activity::Waiting), Notice::Failure),
        ),
        _ => None,
    }
}

/// The step that goes on in state `next`: it asks for the action that `next`
/// waits for.
pub open spec fn proceed(next: State, notice: Notice) -> Step {
    Step::Continue { next, notice, action: next.pending() }
}

/// The step that gives the system up.
pub open spec fn fatal() -> Step {
    Step::Terminate { notice: Notice::Failure, status: FATAL_STATUS }
}

/// Starts the machine: the first state and the first action to perform.
pub fn start() -> (r: (State, Action))
    ensures
        r.0 == initial(),
        r.1 == initial().pending(),
{
    (State::Bootstrapping(Boot::Identifying), Action::IdentifyProcess)
}

fn go_on(activity: Activity, notice: Notice) -> (step: Step)
    ensures
        step == proceed(State::Running(activity), notice),
{
    let action = match activity {
        Activity::Waiting => Action::AwaitSignal,
        Activity::Reaping => Action::WaitForChild,
        Activity::Commanding(command) => Action::Spawn(command),
    };
    Step::Continue { next: State::Running(activity), notice, action }
}

fn give_up() -> (step: Step)
    ensures
        step == fatal(),
{
    Step::Terminate { notice: Notice::Failure, status: FATAL_STATUS }
}

/// Takes one step: `state` has asked for an action, and `event` tells how it
/// went. `None` where `event` is not an outcome of that action.
pub fn step(signals: &SignalNumbers, state: State, event: Event) -> (r: Option<Step>)
    ensures
        r == transition(*signals, state, event),
{
    match state {
        State::Bootstrapping(Boot::Identifying) => match event {
            Event::Identified(id) => Some(
                Step::Continue {
                    next: State::Bootstrapping(Boot::Masking),
                    notice: if id == INIT_PROCESS_ID {
                        Notice::Silent
                    } else {
                        Notice::NotFirstProcess
                    },
                    action: Action::BlockAllSignals,
                },
            ),
            _ => None,
        },
        State::Bootstrapping(Boot::Masking) => match event {
            Event::MaskInstalled => Some(
                Step::Continue {
                    next: State::Bootstrapping(Boot::Launching),
                    notice: Notice::Begin,
                    action: Action::Spawn(Command::Startup),
                },
            ),
            Event::MaskFailed => Some(give_up()),
            _ => None,
        },
        State::Bootstrapping(Boot::Launching) => match event {
            Event::Spawned(_) => Some(go_on(Activity::Waiting, Notice::UpAndRunning)),
            Event::SpawnFailed => Some(give_up()),
            _ => None,
        },
        State::Running(Activity::Waiting) => match event {
            Event::Signal(number) => {
                let activity = match signals.classify(number) {
                    SignalKind::ChildExited => Activity::Reaping,
                    SignalKind::Shutdown => Activity::Commanding(Command::Shutdown),
                    SignalKind::Interrupt => Activity::Commanding(Command::Reboot),
                    SignalKind::Other => Activity::Waiting,
                };
                Some(go_on(activity, Notice::Silent))
            },
            _ => None,
        },
        State::Running(Activity::Reaping) => match event {
            Event::Waited(outcome) => {
                if outcome.drain_continues() {
                    Some(go_on(Activity::Reaping, Notice::Silent))
                } else {
                    Some(go_on(Activity::Waiting, Notice::Silent))
                }
            },
            _ => None,
        },
        State::Running(Activity::Commanding(_)) => match event {
            Event::Spawned(_) => Some(go_on(Activity::Waiting, Notice::Silent)),
            Event::SpawnFailed => Some(go_on(Activity::Waiting, Notice::Failure)),
            _ => None,
        },
    }
}

impl Notice {
    /// The line that this notice puts on standard output, if any. A failure is
    /// reported by its `diagnostic`, as the operating system described it.
    pub open spec fn line(self, diagnostic: Seq<char>) -> Option<Seq<char>> {
        match self {
            Notice::Silent => None,
            Notice::NotFirstProcess => Some("WARNING: init is not running as process 1."@),
            Notice::Begin => Some("Init: begin."@),
            Notice::UpAndRunning => Some("Init: up and running."@),
            Notice::Failure => Some(diagnostic),
        }
    }
}

/// Writes the line that `notice` puts on standard output, if any. `diagnostic`
/// describes the failure that the last event reported, and is not read
/// unless the notice is that of a failure.
pub fn report(notice: Notice, diagnostic: &str) -> (line: Option<String>)
    ensures
        match line {
            Some(text) => notice.line(diagnostic@) == Some(text@),
            None => notice.line(diagnostic@) is None,
        },
{
    match notice {
        Notice::Silent => None,
        Notice::NotFirstProcess => Some(
            String::from_str("WARNING: init is not running as process 1."),
        ),
        Notice::Begin => Some(String::from_str("Init: begin.")),
        Notice::UpAndRunning => Some(String::from_str("Init: up and running.")),
        Notice::Failure => Some(String::from_str(diagnostic)),
    }
}

} // verus!
