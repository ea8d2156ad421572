//! What holds of every life of the init process, whatever came before.

use vstd::prelude::*;
use crate::config::{Command, ConfigView};
use crate::reaper::WaitOutcome;
use crate::signal::SignalNumbers;
use crate::supervisor::{
    dispatch, initial, Action, Activity, Boot, Event, Notice, State, FATAL_STATUS,
};
use crate::trace::{
    lemma_ended_run_is_final, lemma_run_push, lemma_running_is_kept, life, reaps, repeated,
    Progress,
};

verus! {

/// While children are being collected, each collected child is followed by
/// another check, without blocking and without a word.
proof fn lemma_drain_goes_on(signals: SignalNumbers, events: Seq<Event>, children: Seq<i32>)
    requires
        life(signals, events).progress == Progress::Active(State::Running(Activity::Reaping)),
    ensures
        ({
            let before = life(signals, events);
            let after = life(signals, events + reaps(children));
            &&& after.progress == Progress::Active(State::Running(Activity::Reaping))
            &&& after.actions == before.actions + repeated(children.len(), Action::WaitForChild)
            &&& after.notices == before.notices + repeated(children.len(), Notice::Silent)
        }),
    decreases children.len(),
{
    let before = life(signals, events);
    if children.len() == 0 {
        assert(events + reaps(children) =~= events);
        assert(before.actions + repeated(0, Action::WaitForChild) =~= before.actions);
        assert(before.notices + repeated(0, Notice::Silent) =~= before.notices);
    } else {
        let earlier = children.drop_last();
        let event = Event::Waited(WaitOutcome::Reaped(children.last()));
        lemma_drain_goes_on(signals, events, earlier);
        assert(events + reaps(children) =~= (events + reaps(earlier)).push(event));
        lemma_run_push(signals, initial(), events + reaps(earlier), event);
        assert(repeated(children.len(), Action::WaitForChild) =~= repeated(
            earlier.len(),
            Action::WaitForChild,
        ).push(Action::WaitForChild));
        assert(repeated(children.len(), Notice::Silent) =~= repeated(
            earlier.len(),
            Notice::Silent,
        ).push(Notice::Silent));
        let mid = life(signals, events + reaps(earlier));
        assert(mid.actions.push(Action::WaitForChild) =~= before.actions + repeated(
            children.len(),
            Action::WaitForChild,
        ));
        assert(mid.notices.push(Notice::Silent) =~= before.notices + repeated(
            children.len(),
            Notice::Silent,
        ));
    }
}

/// One child-exited signal collects every child that has exited by then.
///
/// After any history that leaves the system waiting for a signal, let the
/// child-exited signal arrive, let the checks that follow find the children
/// `children`, one after the other, and let the check after the last of them
/// report `last`, which is no child. Then the init process has asked for one
/// check more than there were children, all of them non-blocking, and only
/// after the last of them for the next signal; it has printed nothing; and it
/// waits for a signal again.
pub proof fn lemma_drain_collects_all(
    signals: SignalNumbers,
    history: Seq<Event>,
    children: Seq<i32>,
    last: WaitOutcome,
)
    requires
        life(signals, history).awaits_signal(),
        !last.continues(),
    ensures
        ({
            let before = life(signals, history);
            let events = (history.push(Event::Signal(signals.child_exited)) + reaps(children)).push(
                Event::Waited(last),
            );
            let after = life(signals, events);
            &&& after.awaits_signal()
            &&& after.actions == (before.actions + repeated(
                children.len() + 1,
                Action::WaitForChild,
            )).push(Action::AwaitSignal)
            &&& after.notices == before.notices + repeated(children.len() + 2, Notice::Silent)
        }),
{
    let from = initial();
    let before = life(signals, history);
    let signalled = history.push(Event::Signal(signals.child_exited));
    lemma_run_push(signals, from, history, Event::Signal(signals.child_exited));
    lemma_drain_goes_on(signals, signalled, children);
    lemma_run_push(signals, from, signalled + reaps(children), Event::Waited(last));
    let after = life(signals, (signalled + reaps(children)).push(Event::Waited(last)));
    assert(after.actions =~= (before.actions + repeated(
        children.len() + 1,
        Action::WaitForChild,
    )).push(Action::AwaitSignal));
    assert(after.notices =~= before.notices + repeated(children.len() + 2, Notice::Silent));
}

/// A signal that is none of the three is dropped.
///
/// After any history that leaves the system waiting for a signal, a signal
/// whose number is not that of the child-exited, the shutdown or the interrupt
/// signal changes nothing: the init process prints nothing, starts nothing,
/// and asks for the next signal.
pub proof fn lemma_other_signal_is_dropped(
    signals: SignalNumbers,
    history: Seq<Event>,
    number: i32,
)
    requires
        life(signals, history).awaits_signal(),
        number != signals.child_exited,
        number != signals.shutdown,
        number != signals.interrupt,
    ensures
        ({
            let before = life(signals, history);
            let after = life(signals, history.push(Event::Signal(number)));
            &&& after.progress == before.progress
            &&& after.actions == before.actions.push(Action::AwaitSignal)
            &&& after.notices == before.notices.push(Notice::Silent)
        }),
{
    lemma_run_push(signals, initial(), history, Event::Signal(number));
}

/// The shutdown signal starts the shutdown command, once.
///
/// After any history that leaves the system waiting for a signal, the
/// shutdown signal makes the init process ask for one thing: that the
/// shutdown command be started, with the arguments that the configuration
/// gives it. Whether that command could be started or not (`result` is
/// either report), the init process then asks for the next signal and for
/// nothing else, and waits as it did before. The history has no part in this.
pub proof fn lemma_shutdown_signal_starts_shutdown(
    signals: SignalNumbers,
    config: ConfigView,
    history: Seq<Event>,
    result: Event,
)
    requires
        signals.wf(),
        life(signals, history).awaits_signal(),
        result is Spawned || result is SpawnFailed,
    ensures
        ({
            let before = life(signals, history);
            let sent = life(signals, history.push(Event::Signal(signals.shutdown)));
            let done = life(signals, history.push(Event::Signal(signals.shutdown)).push(result));
            &&& sent.actions == before.actions.push(Action::Spawn(Command::Shutdown))
            &&& config.arguments(Command::Shutdown) == config.shutdown_command
            &&& done.actions == sent.actions.push(Action::AwaitSignal)
            &&& done.progress == before.progress
        }),
{
    let from = initial();
    let signal = Event::Signal(signals.shutdown);
    lemma_run_push(signals, from, history, signal);
    lemma_run_push(signals, from, history.push(signal), result);
}

/// The interrupt signal starts the reboot command, once.
///
/// After any history that leaves the system waiting for a signal, the
/// interrupt signal makes the init process ask for one thing: that the reboot
/// command be started, with the arguments that the configuration gives it.
/// Whether that command could be started or not (`result` is either report),
/// the init process then asks for the next signal and for nothing else, and
/// waits as it did before. The history has no part in this.
pub proof fn lemma_interrupt_signal_starts_reboot(
    signals: SignalNumbers,
    config: ConfigView,
    history: Seq<Event>,
    result: Event,
)
    requires
        signals.wf(),
        life(signals, history).awaits_signal(),
        result is Spawned || result is SpawnFailed,
    ensures
        ({
            let before = life(signals, history);
            let sent = life(signals, history.push(Event::Signal(signals.interrupt)));
            let done = life(signals, history.push(Event::Signal(signals.interrupt)).push(result));
            &&& sent.actions == before.actions.push(Action::Spawn(Command::Reboot))
            &&& config.arguments(Command::Reboot) == config.reboot_command
            &&& done.actions == sent.actions.push(Action::AwaitSignal)
            &&& done.progress == before.progress
        }),
{
    let from = initial();
    let signal = Event::Signal(signals.interrupt);
    lemma_run_push(signals, from, history, signal);
    lemma_run_push(signals, from, history.push(signal), result);
}

/// A startup command that cannot be started ends the init process, and the
/// system never comes up.
///
/// Let a history have led to the point where the startup command is being
/// started, and let no process be created for it. Then the init process ends
/// with the status of a fatal failure after reporting it, and asks for nothing more.
/// Whatever events `rest` might follow change nothing of that. And at no point
/// of the history was the system running.
pub proof fn lemma_startup_failure_is_fatal(
    signals: SignalNumbers,
    history: Seq<Event>,
    rest: Seq<Event>,
)
    requires
        life(signals, history).progress == Progress::Active(
            State::Bootstrapping(Boot::Launching),
        ),
    ensures
        ({
            let before = life(signals, history);
            let failed = life(signals, history.push(Event::SpawnFailed));
            &&& failed.progress == Progress::Exited(FATAL_STATUS)
            &&& failed.actions == before.actions
            &&& failed.notices == before.notices.push(Notice::Failure)
            &&& life(signals, history.push(Event::SpawnFailed) + rest) == failed
            &&& forall|k: int|
                0 <= k <= history.len() ==> !(#[trigger] life(
                    signals,
                    history.take(k),
                )).is_running()
        }),
{
    let from = initial();
    lemma_run_push(signals, from, history, Event::SpawnFailed);
    lemma_ended_run_is_final(signals, from, history.push(Event::SpawnFailed), rest);
    assert forall|k: int| 0 <= k <= history.len() implies !(#[trigger] life(
        signals,
        history.take(k),
    )).is_running() by {
        if life(signals, history.take(k)).is_running() {
            lemma_running_is_kept(signals, from, history, k);
        }
    }
}

/// A shutdown or reboot command that cannot be started is reported, and the
/// system stays up.
///
/// Let a history have led to the point where a command that a signal asked
/// for is being started, and let no process be created for it. Then the init
/// process reports the failure and asks for the next signal. The signal with
/// the number `number`, whichever it is, is then served as any signal is.
pub proof fn lemma_command_failure_is_survived(
    signals: SignalNumbers,
    history: Seq<Event>,
    command: Command,
    number: i32,
)
    requires
        life(signals, history).progress == Progress::Active(
            State::Running(Activity::Commanding(command)),
        ),
    ensures
        ({
            let before = life(signals, history);
            let failed = life(signals, history.push(Event::SpawnFailed));
            let served = life(signals, history.push(Event::SpawnFailed).push(Event::Signal(number)));
            let next = State::Running(dispatch(signals.kind_of(number)));
            &&& failed.awaits_signal()
            &&& failed.actions == before.actions.push(Action::AwaitSignal)
            &&& failed.notices == before.notices.push(Notice::Failure)
            &&& served.progress == Progress::Active(next)
            &&& served.actions == failed.actions.push(next.pending())
        }),
{
    let from = initial();
    lemma_run_push(signals, from, history, Event::SpawnFailed);
    lemma_run_push(signals, from, history.push(Event::SpawnFailed), Event::Signal(number));
}

/// The signal mask is set once, before anything else is asked for.
///
/// In every life of the init process, the only request to block all signals
/// is the first request made after the process has found out its id. So every
/// command is started under the mask, and the mask is never touched again.
pub proof fn lemma_mask_is_set_once(signals: SignalNumbers, events: Seq<Event>)
    ensures
        ({
            let actions = life(signals, events).actions;
            &&& actions.len() > 0 ==> actions[0] == Action::BlockAllSignals
            &&& forall|i: int|
                0 < i < actions.len() ==> #[trigger] actions[i] != Action::BlockAllSignals
            &&& life(signals, events).progress == Progress::Active(
                State::Bootstrapping(Boot::Identifying),
            ) ==> actions.len() == 0
        }),
    decreases events.len(),
{
    if events.len() > 0 {
        lemma_mask_is_set_once(signals, events.drop_last());
    }
}

} // verus!
