use tokio::sync::broadcast;
use zenbook_duo_daemon::{Effect, Event, KeyboardBacklightState, KeyboardStateManager};

const LEVELS: [KeyboardBacklightState; 4] = [
    KeyboardBacklightState::Off,
    KeyboardBacklightState::Low,
    KeyboardBacklightState::Medium,
    KeyboardBacklightState::High,
];

/// The two halves are hand written match arms, so a renamed level would silently
/// start reading back as Low.
#[test]
fn every_backlight_level_survives_a_save_load_round_trip() {
    for state in [
        KeyboardBacklightState::Off,
        KeyboardBacklightState::Low,
        KeyboardBacklightState::Medium,
        KeyboardBacklightState::High,
    ] {
        assert_eq!(KeyboardBacklightState::parse(state.as_str()), Some(state));
    }
    assert_eq!(KeyboardBacklightState::parse("nonsense"), None);
}

fn send(sender: &broadcast::Sender<Event>, effects: Vec<Effect>) {
    for effect in effects {
        if let Effect::Emit(event) = effect {
            sender.send(event).ok();
        }
    }
}

fn drain<F: Fn(&Event) -> bool>(rx: &mut broadcast::Receiver<Event>, want: F) -> usize {
    let mut n = 0;
    while let Ok(event) = rx.try_recv() {
        if want(&event) {
            n += 1;
        }
    }
    n
}

/// The mute-state poller re-asserts the same value on every retry. Without change
/// detection each retry became a real write to the keyboard, once a second forever.
#[test]
fn repeating_a_mic_mute_value_emits_once() {
    let (sender, mut rx) = broadcast::channel(64);
    let mut state = KeyboardStateManager::new(false, None);

    send(&sender, state.set_mic_mute_led(true));
    send(&sender, state.set_mic_mute_led(true));
    send(&sender, state.set_mic_mute_led(true));
    assert_eq!(
        drain(&mut rx, |e| matches!(e, Event::MicMuteLed(_))),
        1,
        "repeated sets of the same value must not re-emit"
    );

    send(&sender, state.set_mic_mute_led(false));
    assert_eq!(
        drain(&mut rx, |e| matches!(e, Event::MicMuteLed(_))),
        1,
        "an actual change must still emit"
    );
}

#[test]
fn repeating_a_backlight_value_emits_once() {
    let (sender, mut rx) = broadcast::channel(64);
    let mut state = KeyboardStateManager::new(false, None);

    send(&sender, state.set_keyboard_backlight(KeyboardBacklightState::High));
    send(&sender, state.set_keyboard_backlight(KeyboardBacklightState::High));
    assert_eq!(
        drain(&mut rx, |e| matches!(e, Event::Backlight(_))),
        1,
        "repeated sets of the same value must not re-emit"
    );

    send(&sender, state.set_keyboard_backlight(KeyboardBacklightState::Low));
    assert_eq!(
        drain(&mut rx, |e| matches!(e, Event::Backlight(_))),
        1,
        "an actual change must still emit"
    );
}

#[test]
fn levels_cycle_through_all_four() {
    let mut level = KeyboardBacklightState::Off;
    for expected in [
        KeyboardBacklightState::Low,
        KeyboardBacklightState::Medium,
        KeyboardBacklightState::High,
        KeyboardBacklightState::Off,
    ] {
        level = level.next();
        assert_eq!(level, expected);
    }
}

#[test]
fn a_saved_level_is_loaded_with_its_line_end() {
    for level in LEVELS {
        let contents = format!("{}\n", level.as_str());
        assert_eq!(KeyboardBacklightState::load(Some(&contents)), level);
        let state = KeyboardStateManager::new(true, Some(&contents));
        assert_eq!(state.get_keyboard_backlight(), level);
        assert!(state.is_backlight_known());
    }
}

#[test]
fn a_missing_or_half_written_file_reads_back_as_low() {
    assert_eq!(KeyboardBacklightState::load(None), KeyboardBacklightState::Low);
    for level in LEVELS {
        let name = level.as_str();
        for end in 0..name.len() {
            assert_eq!(
                KeyboardBacklightState::load(Some(&name[..end])),
                KeyboardBacklightState::Low
            );
        }
    }
    let state = KeyboardStateManager::new(true, Some("hi"));
    assert!(!state.is_backlight_known());
    assert_eq!(state.get_keyboard_backlight(), KeyboardBacklightState::Low);
}

#[test]
fn suspending_darkens_and_resuming_restores() {
    let mut state = KeyboardStateManager::new(false, Some("medium"));
    state.set_mic_mute_led(true);
    assert_eq!(
        state.suspend_start(),
        vec![
            Effect::Emit(Event::MicMuteLed(false)),
            Effect::Emit(Event::Backlight(KeyboardBacklightState::Off)),
        ]
    );
    assert!(!state.get_mic_mute_led());
    assert_eq!(state.get_keyboard_backlight(), KeyboardBacklightState::Off);
    assert_eq!(
        state.suspend_end(),
        vec![
            Effect::Emit(Event::MicMuteLed(true)),
            Effect::Emit(Event::Backlight(KeyboardBacklightState::Medium)),
        ]
    );
    assert!(state.get_mic_mute_led());
    assert_eq!(state.get_keyboard_backlight(), KeyboardBacklightState::Medium);
}

#[test]
fn idling_turns_only_the_backlight_off() {
    let mut state = KeyboardStateManager::new(false, Some("high"));
    state.set_mic_mute_led(true);
    assert_eq!(
        state.idle_start(),
        vec![Effect::Emit(Event::Backlight(KeyboardBacklightState::Off))]
    );
    assert!(state.get_mic_mute_led());
    assert_eq!(state.get_keyboard_backlight(), KeyboardBacklightState::Off);
    assert_eq!(
        state.idle_end(),
        vec![Effect::Emit(Event::Backlight(KeyboardBacklightState::High))]
    );
}

#[test]
fn resuming_while_idle_keeps_the_backlight_off() {
    let mut state = KeyboardStateManager::new(false, Some("high"));
    state.idle_start();
    state.suspend_start();
    assert_eq!(
        state.suspend_end(),
        vec![
            Effect::Emit(Event::MicMuteLed(false)),
            Effect::Emit(Event::Backlight(KeyboardBacklightState::Off)),
        ]
    );
}

#[test]
fn changes_during_a_suspension_are_told_at_its_end() {
    let mut state = KeyboardStateManager::new(false, Some("low"));
    state.suspend_start();
    assert_eq!(state.set_mic_mute_led(true), vec![]);
    assert_eq!(
        state.set_keyboard_backlight(KeyboardBacklightState::High),
        vec![Effect::Save(KeyboardBacklightState::High)]
    );
    assert_eq!(
        state.suspend_end(),
        vec![
            Effect::Emit(Event::MicMuteLed(true)),
            Effect::Emit(Event::Backlight(KeyboardBacklightState::High)),
        ]
    );
}

#[test]
fn toggles_during_a_suspension_are_told_at_its_end() {
    for (is_idle, told) in [
        (false, KeyboardBacklightState::Medium),
        (true, KeyboardBacklightState::Off),
    ] {
        let mut state = KeyboardStateManager::new(false, Some("low"));
        if is_idle {
            state.idle_start();
        }
        state.suspend_start();
        assert_eq!(state.toggle_mic_mute_led(), vec![]);
        assert_eq!(
            state.toggle_keyboard_backlight(),
            vec![Effect::Save(KeyboardBacklightState::Medium)]
        );
        assert_eq!(
            state.suspend_end(),
            vec![
                Effect::Emit(Event::MicMuteLed(true)),
                Effect::Emit(Event::Backlight(told)),
            ]
        );
    }
}

#[test]
fn nothing_is_lit_during_a_suspension() {
    let mut state = KeyboardStateManager::new(false, Some("high"));
    state.suspend_start();
    let mut effects = state.set_mic_mute_led(true);
    effects.extend(state.idle_start());
    effects.extend(state.idle_end());
    effects.extend(state.suspend_start());
    effects.extend(state.toggle_keyboard_backlight());
    effects.extend(state.set_keyboard_backlight(KeyboardBacklightState::Low));
    for effect in effects {
        assert!(!matches!(effect, Effect::Emit(Event::MicMuteLed(true))));
        if let Effect::Emit(Event::Backlight(level)) = effect {
            assert_eq!(level, KeyboardBacklightState::Off);
        }
    }
}

#[test]
fn a_new_level_is_saved_and_then_told() {
    let mut state = KeyboardStateManager::new(false, None);
    assert_eq!(
        state.toggle_keyboard_backlight(),
        vec![
            Effect::Save(KeyboardBacklightState::Medium),
            Effect::Emit(Event::Backlight(KeyboardBacklightState::Medium)),
        ]
    );
    assert!(state.is_backlight_known());
    for _ in 0..4 {
        state.toggle_keyboard_backlight();
    }
    assert_eq!(state.get_keyboard_backlight(), KeyboardBacklightState::Medium);
}

#[test]
fn an_adopted_level_is_saved_and_not_told() {
    let mut state = KeyboardStateManager::new(false, None);
    assert_eq!(
        state.adopt_keyboard_backlight(KeyboardBacklightState::High),
        vec![Effect::Save(KeyboardBacklightState::High)]
    );
    assert_eq!(state.adopt_keyboard_backlight(KeyboardBacklightState::High), vec![]);
    assert_eq!(state.get_keyboard_backlight(), KeyboardBacklightState::High);
    assert!(state.is_backlight_known());
}

#[test]
fn toggling_the_mic_mute_led_twice_restores_it() {
    let mut state = KeyboardStateManager::new(false, None);
    assert_eq!(
        state.toggle_mic_mute_led(),
        vec![Effect::Emit(Event::MicMuteLed(true))]
    );
    assert_eq!(
        state.toggle_mic_mute_led(),
        vec![Effect::Emit(Event::MicMuteLed(false))]
    );
    assert!(!state.get_mic_mute_led());
}

#[test]
fn display_commands_do_nothing_while_attached() {
    let mut state = KeyboardStateManager::new(true, None);
    assert!(!state.is_secondary_display_enabled());
    let off = vec![Effect::Emit(Event::SecondaryDisplay(false))];
    assert_eq!(state.set_secondary_display(true), off);
    assert_eq!(state.toggle_secondary_display(), off);
    assert!(!state.is_secondary_display_enabled());
}

#[test]
fn the_display_follows_attaching_and_detaching() {
    let mut state = KeyboardStateManager::new(false, None);
    assert!(state.is_secondary_display_enabled());
    assert_eq!(
        state.set_usb_keyboard_attached(true),
        vec![Effect::Emit(Event::SecondaryDisplay(false))]
    );
    assert!(!state.is_secondary_display_enabled());
    assert_eq!(
        state.set_usb_keyboard_attached(false),
        vec![Effect::Emit(Event::SecondaryDisplay(true))]
    );
    assert!(state.is_secondary_display_enabled());
    assert_eq!(
        state.toggle_secondary_display(),
        vec![Effect::Emit(Event::SecondaryDisplay(false))]
    );
    assert_eq!(
        state.toggle_secondary_display(),
        vec![Effect::Emit(Event::SecondaryDisplay(true))]
    );
}

/// One who remembers the last event of each kind shows what the state says.
#[test]
fn events_tell_what_is_shown() {
    let mut state = KeyboardStateManager::new(false, Some("high"));
    let mut backlight = state.get_keyboard_backlight();
    let mut led = state.get_mic_mute_led();
    let mut display = state.is_secondary_display_enabled();
    for round in 0..3 {
        let effects = vec![
            state.toggle_mic_mute_led(),
            state.idle_start(),
            state.toggle_keyboard_backlight(),
            state.suspend_start(),
            state.toggle_mic_mute_led(),
            state.idle_end(),
            state.set_usb_keyboard_attached(round % 2 == 0),
            state.suspend_end(),
            state.toggle_secondary_display(),
        ];
        for effect in effects.into_iter().flatten() {
            match effect {
                Effect::Save(_) => {}
                Effect::Emit(Event::Backlight(level)) => backlight = level,
                Effect::Emit(Event::MicMuteLed(lit)) => led = lit,
                Effect::Emit(Event::SecondaryDisplay(on)) => display = on,
            }
        }
        assert_eq!(backlight, state.get_keyboard_backlight());
        assert_eq!(led, state.get_mic_mute_led());
        assert_eq!(display, state.is_secondary_display_enabled());
    }
}
