//! Driving the lights of the keyboard across a suspension of the system.
use crate::events::{Effect, Event};
use crate::state::{InnerState, KeyboardBacklightState, KeyboardStateManager};
use crate::state_laws;
use vstd::prelude::*;

verus! {

/// How long to keep the system awake once it wants to suspend, so that the writes that turn
/// the lights off reach the keyboard.
pub const SUSPEND_WRITE_GRACE_MS: u64 = 500;

/// How long the system waits for a delay lock, unless told otherwise. It suspends then,
/// and writes that are still under way are lost.
pub const INHIBIT_DELAY_MAX_MS: u64 = 5000;

/// What a delay lock is for, who takes it, why, and how it works.
pub const LOCK_WHAT: &'static str = "sleep";

pub const LOCK_WHO: &'static str = "zenbook-duo-daemon";

pub const LOCK_WHY: &'static str = "Turn off keyboard LEDs before sleep";

pub const LOCK_MODE: &'static str = "delay";

/// What the system says.
#[derive(Debug, Clone, Copy, PartialEq, Eq, Structural)]
pub enum SleepSignal {
    /// It is about to suspend.
    Suspending,
    /// It has resumed.
    Resumed,
    /// Something that cannot be understood.
    Malformed,
    /// Nothing any more.
    Ended,
}

/// What the monitor does.
#[derive(Debug, Clone, Copy, PartialEq, Eq, Structural)]
pub enum SleepAction {
    /// Wait this many milliseconds.
    Wait(u64),
    /// Release the delay lock, so that the system suspends.
    ReleaseLock,
    /// Note that the user is active.
    NotifyActivity,
    /// Have the wired keyboard opened again: the kernel dropped the claim on its interface.
    Reconnect,
    /// Take the delay lock. It serves once, and has to be held before the next suspension.
    TakeLock,
    /// End, and with it give up the lock.
    Stop,
}

/// What a signal does to the state, before anything else.
pub open spec fn signalled(signal: SleepSignal, state: InnerState) -> (InnerState, Seq<Effect>) {
    match signal {
        SleepSignal::Suspending => state.suspend_started(),
        SleepSignal::Resumed => state.suspend_ended(),
        _ => (state, Seq::empty()),
    }
}

/// What the monitor does after that.
pub open spec fn sleep_actions(signal: SleepSignal) -> Seq<SleepAction> {
    match signal {
        SleepSignal::Suspending => seq![
            SleepAction::Wait(SUSPEND_WRITE_GRACE_MS),
            SleepAction::ReleaseLock,
        ],
        SleepSignal::Resumed => seq![
            SleepAction::NotifyActivity,
            SleepAction::Reconnect,
            SleepAction::TakeLock,
        ],
        SleepSignal::Malformed => Seq::empty(),
        SleepSignal::Ended => seq![SleepAction::Stop],
    }
}

/// What the monitor does before the first signal.
pub open spec fn started_actions() -> Seq<SleepAction> {
    seq![SleepAction::TakeLock]
}

/// What the monitor does before the first signal: the lock must be held when the system wants to
/// suspend for the first time, not taken then.
pub fn monitor_started() -> (actions: Vec<SleepAction>)
    ensures
        actions@ == seq![SleepAction::TakeLock],
        actions@ == started_actions(),
{
    vec![SleepAction::TakeLock]
}

/// What has to be done because of a signal: first the effects, then the actions, each in order.
pub fn prepare_for_sleep(signal: SleepSignal, state: &mut KeyboardStateManager) -> (r: (
    Vec<Effect>,
    Vec<SleepAction>,
))
    ensures
        (final(state)@, r.0@) == signalled(signal, old(state)@),
        r.1@ == sleep_actions(signal),
{
    match signal {
        SleepSignal::Suspending => (
            state.suspend_start(),
            vec![SleepAction::Wait(SUSPEND_WRITE_GRACE_MS), SleepAction::ReleaseLock],
        ),
        SleepSignal::Resumed => (
            state.suspend_end(),
            vec![SleepAction::NotifyActivity, SleepAction::Reconnect, SleepAction::TakeLock],
        ),
        SleepSignal::Malformed => (Vec::new(), Vec::new()),
        SleepSignal::Ended => (Vec::new(), vec![SleepAction::Stop]),
    }
}

/// Whether a delay lock that the system grants is held after `actions`.
pub open spec fn lock_held_after(held: bool, actions: Seq<SleepAction>) -> bool
    decreases actions.len(),
{
    if actions.len() == 0 {
        held
    } else {
        match actions.last() {
            SleepAction::TakeLock => true,
            SleepAction::ReleaseLock => false,
            SleepAction::Stop => false,
            _ => lock_held_after(held, actions.drop_last()),
        }
    }
}

/// How long `actions` keep the system waiting, in milliseconds.
pub open spec fn waited(actions: Seq<SleepAction>) -> nat
    decreases actions.len(),
{
    if actions.len() == 0 {
        0
    } else {
        waited(actions.drop_last()) + match actions.last() {
            SleepAction::Wait(ms) => ms as nat,
            _ => 0,
        }
    }
}

/// The lock is released when the system suspends, after a wait that it has heeded while the lock
/// was held, and is held again when it has resumed.
pub proof fn law_lock_is_held_between_suspensions(held: bool)
    ensures
        lock_held_after(held, sleep_actions(SleepSignal::Suspending).take(1)) == held,
        waited(sleep_actions(SleepSignal::Suspending).take(1)) == SUSPEND_WRITE_GRACE_MS,
        !lock_held_after(held, sleep_actions(SleepSignal::Suspending)),
        waited(sleep_actions(SleepSignal::Suspending)) == SUSPEND_WRITE_GRACE_MS,
        waited(sleep_actions(SleepSignal::Suspending)) < INHIBIT_DELAY_MAX_MS,
        lock_held_after(held, sleep_actions(SleepSignal::Resumed)),
        lock_held_after(held, sleep_actions(SleepSignal::Malformed)) == held,
{
    reveal_with_fuel(waited, 3);
    reveal_with_fuel(lock_held_after, 2);
    let actions = sleep_actions(SleepSignal::Suspending);
    let wait = seq![SleepAction::Wait(SUSPEND_WRITE_GRACE_MS)];
    assert(actions.take(1) == wait);
    assert(actions.drop_last() == wait);
    assert(wait.drop_last() == Seq::<SleepAction>::empty());
}

/// All that the monitor does from its start on, where these signals come.
pub open spec fn monitored(signals: Seq<SleepSignal>) -> Seq<SleepAction>
    decreases signals.len(),
{
    if signals.len() == 0 {
        started_actions()
    } else {
        monitored(signals.drop_last()) + sleep_actions(signals.last())
    }
}

/// The last signal among `signals` that was understood.
pub open spec fn last_understood(signals: Seq<SleepSignal>) -> Option<SleepSignal>
    decreases signals.len(),
{
    if signals.len() == 0 {
        None
    } else if signals.last() is Malformed {
        last_understood(signals.drop_last())
    } else {
        Some(signals.last())
    }
}

proof fn lemma_lock_held_concat(held: bool, first: Seq<SleepAction>, second: Seq<SleepAction>)
    ensures
        lock_held_after(held, first + second) == lock_held_after(
            lock_held_after(held, first),
            second,
        ),
    decreases second.len(),
{
    if second.len() == 0 {
        assert(first + second == first);
    } else {
        lemma_lock_held_concat(held, first, second.drop_last());
        assert((first + second).drop_last() == first + second.drop_last());
    }
}

/// Whatever signals come, the lock is held unless the last one that was understood says that the
/// system suspends, or that there are no more: so it is held before the first suspension, and
/// between any two.
pub proof fn law_lock_is_held_unless_suspending(signals: Seq<SleepSignal>)
    ensures
        lock_held_after(false, monitored(signals)) <==> {
            &&& last_understood(signals) != Some(SleepSignal::Suspending)
            &&& last_understood(signals) != Some(SleepSignal::Ended)
        },
    decreases signals.len(),
{
    if signals.len() > 0 {
        let before = monitored(signals.drop_last());
        law_lock_is_held_unless_suspending(signals.drop_last());
        lemma_lock_held_concat(false, before, sleep_actions(signals.last()));
    }
}

/// A suspension and the resumption after it leave the state as it was, whatever malformed
/// signals come between.
pub proof fn law_sleeping_restores(state: InnerState)
    requires
        !state.is_suspended,
    ensures
        ({
            let asleep = signalled(SleepSignal::Suspending, state).0;
            let still = signalled(SleepSignal::Malformed, asleep).0;
            &&& still == asleep
            &&& signalled(SleepSignal::Resumed, still).0 == state
        }),
{
}

/// What is told on a signal is what is to be shown after it. A suspension turns the LED and the
/// backlight off; resuming tells the LED as the user wants it, and the level as well, unless the
/// user is idle. The LED comes first each time, and no other signal tells or changes anything.
pub proof fn law_sleep_signals_tell_what_is_shown(signal: SleepSignal, state: InnerState)
    ensures
        ({
            let asleep = signalled(SleepSignal::Suspending, state);
            &&& asleep.0 == (InnerState { is_suspended: true, ..state })
            &&& asleep.1 == seq![
                Effect::Emit(Event::MicMuteLed(false)),
                Effect::Emit(Event::Backlight(KeyboardBacklightState::Off)),
            ]
        }),
        ({
            let awake = signalled(SleepSignal::Resumed, state);
            &&& awake.0 == (InnerState { is_suspended: false, ..state })
            &&& awake.1 == seq![
                Effect::Emit(Event::MicMuteLed(state.mic_mute_led)),
                Effect::Emit(
                    Event::Backlight(
                        if state.is_idle {
                            KeyboardBacklightState::Off
                        } else {
                            state.backlight
                        },
                    ),
                ),
            ]
        }),
        signal is Malformed || signal is Ended ==> signalled(signal, state) == (
            state,
            Seq::<Effect>::empty(),
        ),
        state_laws::followed(state_laws::shown(state), signalled(signal, state).1)
            == state_laws::shown(signalled(signal, state).0),
{
    let effects = signalled(signal, state).1;
    reveal_with_fuel(state_laws::followed, 3);
    if effects.len() == 2 {
        assert(effects.drop_last() == seq![effects[0]]);
        assert(effects.drop_last().drop_last() == Seq::<Effect>::empty());
    }
}

/// Whatever was lit before a suspension is told to be lit again after it, and no more than that.
pub proof fn law_lights_come_back_after_sleep(state: InnerState)
    requires
        !state.is_suspended,
    ensures
        ({
            let asleep = signalled(SleepSignal::Suspending, state);
            let awake = signalled(SleepSignal::Resumed, asleep.0);
            &&& awake.0 == state
            &&& state_laws::followed(
                state_laws::followed(state_laws::shown(state), asleep.1),
                awake.1,
            ) == state_laws::shown(state)
            &&& state.mic_mute_led <==> awake.1.contains(Effect::Emit(Event::MicMuteLed(true)))
        }),
{
    let asleep = signalled(SleepSignal::Suspending, state);
    let awake = signalled(SleepSignal::Resumed, asleep.0);
    law_sleep_signals_tell_what_is_shown(SleepSignal::Suspending, state);
    law_sleep_signals_tell_what_is_shown(SleepSignal::Resumed, asleep.0);
    assert(awake.1[0] == Effect::Emit(Event::MicMuteLed(state.mic_mute_led)));
}

/// The system is let go only after the wait. When it has resumed, the user is active, the keyboard
/// is opened again and the lock is taken, each once. Before the first signal the lock is taken and
/// nothing else; a signal that is not understood does nothing, and only the last one stops.
pub proof fn law_each_signal_is_acted_on_once(signal: SleepSignal)
    ensures
        started_actions() == seq![SleepAction::TakeLock],
        sleep_actions(signal).contains(SleepAction::Stop) <==> signal is Ended,
        sleep_actions(signal).contains(SleepAction::ReleaseLock) <==> signal is Suspending,
        sleep_actions(signal).contains(SleepAction::TakeLock) <==> signal is Resumed,
        sleep_actions(signal).contains(SleepAction::Reconnect) <==> signal is Resumed,
        sleep_actions(signal).contains(SleepAction::NotifyActivity) <==> signal is Resumed,
        sleep_actions(signal).contains(SleepAction::Wait(500)) <==> signal is Suspending,
        sleep_actions(SleepSignal::Suspending).len() == 2,
        sleep_actions(SleepSignal::Suspending)[0] == SleepAction::Wait(500),
        sleep_actions(SleepSignal::Resumed).len() == 3,
        sleep_actions(SleepSignal::Resumed)[0] == SleepAction::NotifyActivity,
        sleep_actions(SleepSignal::Resumed)[2] == SleepAction::TakeLock,
        sleep_actions(SleepSignal::Malformed).len() == 0,
        sleep_actions(SleepSignal::Ended).len() == 1,
{
    let actions = sleep_actions(signal);
    assert(actions.len() > 0 ==> actions.contains(actions[0]));
    assert(actions.len() > 1 ==> actions.contains(actions[1]));
    assert(actions.len() > 2 ==> actions.contains(actions[2]));
}

} // verus!
