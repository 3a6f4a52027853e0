use zenbook_duo_daemon::sleep_monitor::{
    monitor_started, prepare_for_sleep, SleepAction, SleepSignal, INHIBIT_DELAY_MAX_MS, SUSPEND_WRITE_GRACE_MS,
};
use zenbook_duo_daemon::{Effect, Event, KeyboardBacklightState, KeyboardStateManager};

#[test]
fn suspending_writes_waits_and_lets_go() {
    let mut state = KeyboardStateManager::new(true, Some("high"));
    let (effects, actions) = prepare_for_sleep(SleepSignal::Suspending, &mut state);
    assert_eq!(
        effects,
        vec![
            Effect::Emit(Event::MicMuteLed(false)),
            Effect::Emit(Event::Backlight(KeyboardBacklightState::Off)),
        ]
    );
    assert_eq!(actions, vec![SleepAction::Wait(500), SleepAction::ReleaseLock]);
    assert!(SUSPEND_WRITE_GRACE_MS < INHIBIT_DELAY_MAX_MS);

    let (effects, actions) = prepare_for_sleep(SleepSignal::Malformed, &mut state);
    assert_eq!((effects, actions), (vec![], vec![]));
    assert_eq!(state.get_keyboard_backlight(), KeyboardBacklightState::Off);

    let (effects, actions) = prepare_for_sleep(SleepSignal::Resumed, &mut state);
    assert_eq!(
        effects,
        vec![
            Effect::Emit(Event::MicMuteLed(false)),
            Effect::Emit(Event::Backlight(KeyboardBacklightState::High)),
        ]
    );
    assert_eq!(
        actions,
        vec![
            SleepAction::NotifyActivity,
            SleepAction::Reconnect,
            SleepAction::TakeLock,
        ]
    );
}

#[test]
fn the_monitor_stops_when_nothing_more_comes() {
    let mut state = KeyboardStateManager::new(true, None);
    assert_eq!(
        prepare_for_sleep(SleepSignal::Ended, &mut state),
        (vec![], vec![SleepAction::Stop])
    );
}

#[test]
fn the_lock_is_taken_before_the_first_signal() {
    assert_eq!(monitor_started(), vec![SleepAction::TakeLock]);
}

#[test]
fn the_lock_is_held_unless_suspending() {
    let mut state = KeyboardStateManager::new(true, None);
    let mut held = false;
    let mut perform = |actions: Vec<SleepAction>| {
        for action in actions {
            match action {
                SleepAction::TakeLock => held = true,
                SleepAction::ReleaseLock | SleepAction::Stop => held = false,
                SleepAction::Wait(_) => assert!(held),
                _ => {}
            }
        }
        held
    };
    assert!(perform(monitor_started()));
    for (signal, held) in [
        (SleepSignal::Malformed, true),
        (SleepSignal::Suspending, false),
        (SleepSignal::Malformed, false),
        (SleepSignal::Resumed, true),
        (SleepSignal::Suspending, false),
        (SleepSignal::Resumed, true),
        (SleepSignal::Ended, false),
    ] {
        assert_eq!(perform(prepare_for_sleep(signal, &mut state).1), held, "{signal:?}");
    }
}
