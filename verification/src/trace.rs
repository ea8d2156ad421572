//! Whole runs of the supervision loop: where the init process stands after a
//! sequence of events, and what it has asked for and printed on the way.

use vstd::prelude::*;
use crate::reaper::WaitOutcome;
use crate::signal::SignalNumbers;
use crate::supervisor::{
    initial, step, transition, Action, Activity, Event, Notice, State, Step,
};

verus! {

/// Where a run stands.
#[derive(Clone, Copy, Debug, PartialEq, Eq, Structural)]
pub enum Progress {
    /// The init process is alive, in this state.
    Active(State),
    /// The init process has ended itself with this status.
    Exited(i32),
    /// An event came that was no outcome of the action asked for.
    Rejected,
}

/// A run so far: where it stands, and the actions asked for and the notices
/// printed on the way, each in order.
pub struct Run {
    pub progress: Progress,
    pub actions: Seq<Action>,
    pub notices: Seq<Notice>,
}

impl Run {
    /// The run that has not seen any event yet.
    pub open spec fn begin(from: State) -> Run {
        Run { progress: Progress::Active(from), actions: Seq::empty(), notices: Seq::empty() }
    }

    /// This run after one more event. A run that has ended stays as it is.
    pub open spec fn seeing(self, signals: SignalNumbers, event: Event) -> Run {
        match self.progress {
            Progress::Active(state) => match transition(signals, state, event) {
                Some(Step::Continue { next, notice, action }) => Run {
                    progress: Progress::Active(next),
                    actions: self.actions.push(action),
                    notices: self.notices.push(notice),
                },
                Some(Step::Terminate { notice, status }) => Run {
                    progress: Progress::Exited(status),
                    actions: self.actions,
                    notices: self.notices.push(notice),
                },
                None => Run {
                    progress: Progress::Rejected,
                    actions: self.actions,
                    notices: self.notices,
                },
            },
            _ => self,
        }
    }

    /// Whether the system is up: the startup command runs and signals are
    /// being served.
    pub open spec fn is_running(self) -> bool {
        self.progress matches Progress::Active(State::Running(_))
    }

    /// Whether the run waits for the next signal.
    pub open spec fn awaits_signal(self) -> bool {
        self.progress == Progress::Active(State::Running(Activity::Waiting))
    }
}

/// The run that starts in state `from` and sees `events` in turn.
pub open spec fn run(signals: SignalNumbers, from: State, events: Seq<Event>) -> Run
    decreases events.len(),
{
    if events.len() == 0 {
        Run::begin(from)
    } else {
        run(signals, from, events.drop_last()).seeing(signals, events.last())
    }
}

/// The life of the init process up to and including `events`.
pub open spec fn life(signals: SignalNumbers, events: Seq<Event>) -> Run {
    run(signals, initial(), events)
}

/// The events of a drain in which the children `children` are collected one
/// after the other.
pub open spec fn reaps(children: Seq<i32>) -> Seq<Event> {
    Seq::new(children.len(), |i: int| Event::Waited(WaitOutcome::Reaped(children[i])))
}

/// The same action or notice, `n` times.
pub open spec fn repeated<T>(n: nat, item: T) -> Seq<T> {
    Seq::new(n, |i: int| item)
}

/// A run that sees one more event is the run so far, then that event.
pub proof fn lemma_run_push(signals: SignalNumbers, from: State, events: Seq<Event>, event: Event)
    ensures
        run(signals, from, events.push(event)) == run(signals, from, events).seeing(signals, event),
{
    assert(events.push(event).drop_last() =~= events);
}

/// A run that has ended, by an exit or by a rejected event, is not changed by
/// anything that comes after.
pub proof fn lemma_ended_run_is_final(
    signals: SignalNumbers,
    from: State,
    events: Seq<Event>,
    rest: Seq<Event>,
)
    requires
        !(run(signals, from, events).progress is Active),
    ensures
        run(signals, from, events + rest) == run(signals, from, events),
    decreases rest.len(),
{
    if rest.len() == 0 {
        assert(events + rest =~= events);
    } else {
        lemma_ended_run_is_final(signals, from, events, rest.drop_last());
        assert(events + rest =~= (events + rest.drop_last()).push(rest.last()));
        lemma_run_push(signals, from, events + rest.drop_last(), rest.last());
    }
}

/// A system that is up never falls back into its startup sequence: once a run
/// was running, it is running, or has ended, ever after.
pub proof fn lemma_running_is_kept(
    signals: SignalNumbers,
    from: State,
    events: Seq<Event>,
    k: int,
)
    requires
        0 <= k <= events.len(),
        run(signals, from, events.take(k)).is_running(),
    ensures
        run(signals, from, events).is_running() || !(run(signals, from, events).progress
            is Active),
    decreases events.len(),
{
    if k == events.len() {
        assert(events.take(k) =~= events);
    } else {
        assert(events.drop_last().take(k) =~= events.take(k));
        lemma_running_is_kept(signals, from, events.drop_last(), k);
    }
}

/// A run that was played through the machine: what [`Run`] describes, as
/// values that a program can hold.
#[derive(Debug)]
pub struct Played {
    pub progress: Progress,
    pub actions: Vec<Action>,
    pub notices: Vec<Notice>,
}

impl View for Played {
    type V = Run;

    open spec fn view(&self) -> Run {
        Run { progress: self.progress, actions: self.actions@, notices: self.notices@ }
    }
}

/// Plays `events` through the machine, starting in state `from`, as a driver
/// would that met these outcomes, and records what the machine asked for and
/// printed. Events after the end of the run are not looked at.
pub fn replay(signals: &SignalNumbers, from: State, events: &Vec<Event>) -> (played: Played)
    ensures
        played@ == run(*signals, from, events@),
{
    let mut played = Played {
        progress: Progress::Active(from),
        actions: Vec::new(),
        notices: Vec::new(),
    };
    let mut i: usize = 0;
    assert(events@.take(0) =~= Seq::empty());
    while i < events.len()
        invariant
            0 <= i <= events.len(),
            played@ == run(*signals, from, events@.take(i as int)),
        decreases events.len() - i,
    {
        proof {
            assert(events@.take(i + 1) =~= events@.take(i as int).push(events@[i as int]));
            lemma_run_push(*signals, from, events@.take(i as int), events@[i as int]);
        }
        if let Progress::Active(state) = played.progress {
            match step(signals, state, events[i]) {
                Some(Step::Continue { next, notice, action }) => {
                    played.progress = Progress::Active(next);
                    played.actions.push(action);
                    played.notices.push(notice);
                },
                Some(Step::Terminate { notice, status }) => {
                    played.progress = Progress::Exited(status);
                    played.notices.push(notice);
                },
                None => {
                    played.progress = Progress::Rejected;
                },
            }
        }
        i += 1;
    }
    assert(events@.take(events.len() as int) =~= events@);
    played
}

} // verus!
