//! What holds of the keyboard state over several operations.
use crate::events::{Effect, Event};
use crate::state;
use crate::state::{InnerState, KeyboardBacklightState, Transition};
use crate::text;
use vstd::prelude::*;

verus! {

/// An operation of the state manager, with its arguments.
pub enum Operation {
    SuspendStart,
    SuspendEnd,
    IdleStart,
    IdleEnd,
    SetMicMuteLed(bool),
    ToggleMicMuteLed,
    SetKeyboardBacklight(KeyboardBacklightState),
    ToggleKeyboardBacklight,
    AdoptKeyboardBacklight(KeyboardBacklightState),
    SetSecondaryDisplay(bool),
    ToggleSecondaryDisplay,
    SetUsbKeyboardAttached(bool),
}

/// What an operation does.
pub open spec fn performed(state: InnerState, operation: Operation) -> Transition {
    match operation {
        Operation::SuspendStart => state.suspend_started(),
        Operation::SuspendEnd => state.suspend_ended(),
        Operation::IdleStart => state.idle_started(),
        Operation::IdleEnd => state.idle_ended(),
        Operation::SetMicMuteLed(enabled) => state.mic_mute_led_set(enabled),
        Operation::ToggleMicMuteLed => state.mic_mute_led_toggled(),
        Operation::SetKeyboardBacklight(level) => state.keyboard_backlight_set(level),
        Operation::ToggleKeyboardBacklight => state.keyboard_backlight_toggled(),
        Operation::AdoptKeyboardBacklight(level) => state.keyboard_backlight_adopted(level),
        Operation::SetSecondaryDisplay(enabled) => state.secondary_display_set(enabled),
        Operation::ToggleSecondaryDisplay => state.secondary_display_toggled(),
        Operation::SetUsbKeyboardAttached(attached) => state.usb_keyboard_attached_set(attached),
    }
}

/// What a series of operations does, one after another.
pub open spec fn performed_all(state: InnerState, operations: Seq<Operation>) -> Transition
    decreases operations.len(),
{
    if operations.len() == 0 {
        (state, Seq::empty())
    } else {
        let before = performed_all(state, operations.drop_last());
        let last = performed(before.0, operations.last());
        (last.0, before.1 + last.1)
    }
}

/// What the keyboard and the displays are to show.
pub struct Shown {
    pub backlight: KeyboardBacklightState,
    pub mic_mute_led: bool,
    pub secondary_display: bool,
}

/// What `state` asks to be shown.
pub open spec fn shown(state: InnerState) -> Shown {
    Shown {
        backlight: state.shown_backlight(),
        mic_mute_led: state.shown_mic_mute_led(),
        secondary_display: state.is_secondary_display_enabled,
    }
}

/// What one who saw `before`, and then every event among `effects`, takes to be shown.
pub open spec fn followed(before: Shown, effects: Seq<Effect>) -> Shown
    decreases effects.len(),
{
    if effects.len() == 0 {
        before
    } else {
        let so_far = followed(before, effects.drop_last());
        match effects.last() {
            Effect::Save(_) => so_far,
            Effect::Emit(Event::Backlight(level)) => Shown { backlight: level, ..so_far },
            Effect::Emit(Event::MicMuteLed(lit)) => Shown { mic_mute_led: lit, ..so_far },
            Effect::Emit(Event::SecondaryDisplay(on)) => Shown { secondary_display: on, ..so_far },
        }
    }
}

/// The last level that `effects` save.
pub open spec fn last_saved(effects: Seq<Effect>) -> Option<KeyboardBacklightState>
    decreases effects.len(),
{
    if effects.len() == 0 {
        None
    } else {
        match effects.last() {
            Effect::Save(level) => Some(level),
            Effect::Emit(_) => last_saved(effects.drop_last()),
        }
    }
}

/// What the file holds after `effects`, where it held `before` at first.
pub open spec fn file_after(before: Option<Seq<char>>, effects: Seq<Effect>) -> Option<Seq<char>> {
    match last_saved(effects) {
        Some(level) => Some(level.name()),
        None => before,
    }
}

proof fn lemma_followed_concat(before: Shown, first: Seq<Effect>, second: Seq<Effect>)
    ensures
        followed(before, first + second) == followed(followed(before, first), second),
    decreases second.len(),
{
    if second.len() == 0 {
        assert(first + second == first);
    } else {
        lemma_followed_concat(before, first, second.drop_last());
        assert((first + second).drop_last() == first + second.drop_last());
    }
}

proof fn lemma_last_saved_concat(first: Seq<Effect>, second: Seq<Effect>)
    ensures
        last_saved(first + second) == (if last_saved(second) is Some {
            last_saved(second)
        } else {
            last_saved(first)
        }),
    decreases second.len(),
{
    if second.len() == 0 {
        assert(first + second == first);
    } else {
        lemma_last_saved_concat(first, second.drop_last());
        assert((first + second).drop_last() == first + second.drop_last());
    }
}

/// One who follows the events of an operation knows what is to be shown after it. The one
/// exception is a level read from the keyboard, which shows it already.
proof fn lemma_events_tell_one(state: InnerState, operation: Operation)
    requires
        !(operation is AdoptKeyboardBacklight),
    ensures
        followed(shown(state), performed(state, operation).1) == shown(
            performed(state, operation).0,
        ),
{
    let effects = performed(state, operation).1;
    reveal_with_fuel(followed, 3);
    if effects.len() == 2 {
        assert(effects.drop_last() == seq![effects[0]]);
        assert(effects.drop_last().drop_last() == Seq::<Effect>::empty());
    } else if effects.len() == 1 {
        assert(effects.drop_last() == Seq::<Effect>::empty());
    }
}

/// While the keyboard is attached the secondary display is off, whatever is done, in whatever
/// order.
pub proof fn law_attached_keyboard_keeps_display_off(
    is_usb_attached: bool,
    saved: Option<Seq<char>>,
    operations: Seq<Operation>,
)
    ensures
        performed_all(InnerState::initial(is_usb_attached, saved), operations).0.wf(),
    decreases operations.len(),
{
    if operations.len() > 0 {
        law_attached_keyboard_keeps_display_off(is_usb_attached, saved, operations.drop_last());
    }
}

/// One who follows the events knows at any time what is to be shown: nothing changes without
/// an event, and no event tells of anything else. A level that was read from the keyboard is
/// left out, because the keyboard shows it already.
pub proof fn law_events_tell_what_is_shown(state: InnerState, operations: Seq<Operation>)
    requires
        forall|i: int|
            0 <= i < operations.len() ==> !(#[trigger] operations[i] is AdoptKeyboardBacklight),
    ensures
        followed(shown(state), performed_all(state, operations).1) == shown(
            performed_all(state, operations).0,
        ),
    decreases operations.len(),
{
    if operations.len() > 0 {
        let earlier = operations.drop_last();
        assert forall|i: int| 0 <= i < earlier.len() implies !(
        #[trigger] earlier[i] is AdoptKeyboardBacklight) by {
            assert(earlier[i] == operations[i]);
        }
        law_events_tell_what_is_shown(state, earlier);
        let before = performed_all(state, earlier);
        lemma_events_tell_one(before.0, operations.last());
        lemma_followed_concat(
            shown(state),
            before.1,
            performed(before.0, operations.last()).1,
        );
    }
}

/// The level that an operation saves is the one that it leaves, and where it saves none the level
/// stays.
proof fn lemma_operation_saves_its_level(state: InnerState, operation: Operation)
    ensures
        performed(state, operation).0.backlight == (match last_saved(
            performed(state, operation).1,
        ) {
            Some(level) => level,
            None => state.backlight,
        }),
{
    let effects = performed(state, operation).1;
    reveal_with_fuel(last_saved, 3);
    if effects.len() == 2 {
        assert(effects.drop_last() == seq![effects[0]]);
        assert(effects.drop_last().drop_last() == Seq::<Effect>::empty());
    } else if effects.len() == 1 {
        assert(effects.drop_last() == Seq::<Effect>::empty());
    }
}

/// What was saved last is the current level, and where nothing was saved it is the first one.
proof fn lemma_level_is_saved(state: InnerState, operations: Seq<Operation>)
    ensures
        performed_all(state, operations).0.backlight == (match last_saved(
            performed_all(state, operations).1,
        ) {
            Some(level) => level,
            None => state.backlight,
        }),
    decreases operations.len(),
{
    if operations.len() > 0 {
        lemma_level_is_saved(state, operations.drop_last());
        let before = performed_all(state, operations.drop_last());
        lemma_operation_saves_its_level(before.0, operations.last());
        lemma_last_saved_concat(before.1, performed(before.0, operations.last()).1);
    }
}

/// The backlight level outlives the daemon: whatever the file held at first, and whatever was
/// done since, a daemon that starts from the file has the level that this one ended with.
pub proof fn law_level_outlives_the_daemon(
    is_usb_attached: bool,
    is_usb_attached_later: bool,
    saved: Option<Seq<char>>,
    operations: Seq<Operation>,
)
    ensures
        ({
            let end = performed_all(InnerState::initial(is_usb_attached, saved), operations);
            InnerState::initial(is_usb_attached_later, file_after(saved, end.1)).backlight
                == end.0.backlight
        }),
{
    let start = InnerState::initial(is_usb_attached, saved);
    lemma_level_is_saved(start, operations);
    law_saved_level_is_loaded(performed_all(start, operations).0.backlight);
}

/// Saying the same again is no change: the second of two equal settings does nothing.
pub proof fn law_repeating_a_value_does_nothing(
    state: InnerState,
    lit: bool,
    level: KeyboardBacklightState,
)
    ensures
        ({
            let once = state.mic_mute_led_set(lit).0;
            once.mic_mute_led_set(lit) == (once, Seq::<Effect>::empty())
        }),
        ({
            let once = state.keyboard_backlight_set(level).0;
            once.keyboard_backlight_set(level) == (once, Seq::<Effect>::empty())
        }),
{
}

/// Four steps through the levels of the backlight lead back to the first, and pass every
/// level on the way.
pub proof fn law_backlight_levels_cycle(
    level: KeyboardBacklightState,
    other: KeyboardBacklightState,
)
    ensures
        level.following().following().following().following() == level,
        other == level || other == level.following() || other == level.following().following()
            || other == level.following().following().following(),
{
}

/// Toggling the microphone mute LED twice restores it, and toggling the backlight four times
/// restores its level.
pub proof fn law_toggles_undo(state: InnerState)
    ensures
        state.mic_mute_led_toggled().0.mic_mute_led_toggled().0 == state,
        state.keyboard_backlight_toggled().0.keyboard_backlight_toggled().0
            .keyboard_backlight_toggled().0.keyboard_backlight_toggled().0.backlight
            == state.backlight,
{
}

/// Toggling the secondary display twice restores it, attached or not.
pub proof fn law_display_toggle_undoes(state: InnerState)
    requires
        state.wf(),
    ensures
        state.secondary_display_toggled().0.secondary_display_toggled().0 == state,
{
}

/// While suspended nothing is lit; while idle only the backlight is off.
pub proof fn law_suspension_darkens_and_idling_dims(state: InnerState)
    ensures
        !state.suspend_started().0.shown_mic_mute_led(),
        state.suspend_started().0.shown_backlight() == KeyboardBacklightState::Off,
        state.idle_started().0.shown_mic_mute_led() == state.shown_mic_mute_led(),
        state.idle_started().0.shown_backlight() == KeyboardBacklightState::Off,
{
}

/// A suspension that ends restores what was shown before it, and tells so. So does idling.
pub proof fn law_resuming_restores(state: InnerState)
    ensures
        !state.is_suspended ==> state.suspend_started().0.suspend_ended() == (
            state,
            seq![
                Effect::Emit(Event::MicMuteLed(state.shown_mic_mute_led())),
                Effect::Emit(Event::Backlight(state.shown_backlight())),
            ],
        ),
        !state.is_idle ==> state.idle_started().0.idle_ended() == (
            state,
            seq![Effect::Emit(Event::Backlight(state.shown_backlight()))],
        ),
{
}

/// What is changed during a suspension is told at its end, though not before: set or toggled, the
/// LED as it is then, and the level as it is then or, while idle, `Off`.
pub proof fn law_changes_during_suspension_are_told_at_its_end(
    state: InnerState,
    lit: bool,
    level: KeyboardBacklightState,
)
    requires
        state.is_suspended,
    ensures
        ({
            let with_led = state.mic_mute_led_set(lit);
            let with_level = with_led.0.keyboard_backlight_set(level);
            &&& with_led.1 == Seq::<Effect>::empty()
            &&& forall|event: Event| !with_level.1.contains(Effect::Emit(event))
            &&& with_level.0.suspend_ended().1 == told_at_the_end(lit, level, state.is_idle)
        }),
        ({
            let with_led = state.mic_mute_led_toggled();
            let with_level = with_led.0.keyboard_backlight_toggled();
            &&& with_led.1 == Seq::<Effect>::empty()
            &&& forall|event: Event| !with_level.1.contains(Effect::Emit(event))
            &&& with_level.0.suspend_ended().1 == told_at_the_end(
                !state.mic_mute_led,
                state.backlight.following(),
                state.is_idle,
            )
        }),
{
}

/// What is told at the end of a suspension of the LED and of the backlight.
pub open spec fn told_at_the_end(lit: bool, level: KeyboardBacklightState, is_idle: bool) -> Seq<
    Effect,
> {
    seq![
        Effect::Emit(Event::MicMuteLed(lit)),
        Effect::Emit(
            Event::Backlight(
                if is_idle {
                    KeyboardBacklightState::Off
                } else {
                    level
                },
            ),
        ),
    ]
}

/// Whether an effect lights nothing on the keyboard.
pub open spec fn is_dark(effect: Effect) -> bool {
    match effect {
        Effect::Emit(Event::MicMuteLed(lit)) => !lit,
        Effect::Emit(Event::Backlight(level)) => level == KeyboardBacklightState::Off,
        _ => true,
    }
}

/// Whatever is done during a suspension, in whatever order, nothing lights the keyboard until the
/// suspension ends. Then the LED and the level are told as they have become.
pub proof fn law_nothing_is_lit_during_suspension(state: InnerState, operations: Seq<Operation>)
    requires
        state.is_suspended,
        forall|i: int| 0 <= i < operations.len() ==> !(#[trigger] operations[i] is SuspendEnd),
    ensures
        ({
            let during = performed_all(state, operations);
            &&& during.0.is_suspended
            &&& forall|i: int| 0 <= i < during.1.len() ==> is_dark(#[trigger] during.1[i])
            &&& during.0.suspend_ended().1 == told_at_the_end(
                during.0.mic_mute_led,
                during.0.backlight,
                during.0.is_idle,
            )
        }),
    decreases operations.len(),
{
    if operations.len() > 0 {
        let earlier = operations.drop_last();
        assert forall|i: int| 0 <= i < earlier.len() implies !(
        #[trigger] earlier[i] is SuspendEnd) by {
            assert(earlier[i] == operations[i]);
        }
        law_nothing_is_lit_during_suspension(state, earlier);
        assert(!(operations[operations.len() - 1] is SuspendEnd));
    }
}

/// The commands for the secondary display change nothing while the keyboard is attached.
pub proof fn law_display_commands_are_idle_while_attached(state: InnerState, enabled: bool)
    requires
        state.wf(),
        state.is_usb_attached,
    ensures
        state.secondary_display_set(enabled).0 == state,
        state.secondary_display_toggled().0 == state,
{
}

/// The secondary display is on while the keyboard is detached, until told otherwise.
pub proof fn law_detaching_turns_the_display_on(state: InnerState)
    ensures
        state.usb_keyboard_attached_set(false).0.is_secondary_display_enabled,
        !state.usb_keyboard_attached_set(true).0.is_secondary_display_enabled,
{
}

/// A name of a level has no white space around it.
proof fn lemma_names_are_trimmed(text: Seq<char>)
    requires
        forall|i: int| 0 <= i < text.len() ==> 'a' <= #[trigger] text[i] <= 'z',
    ensures
        text::trimmed(text) == text,
{
}

/// The letters of the levels' names.
proof fn lemma_names()
    ensures
        "off"@ == seq!['o', 'f', 'f'],
        "low"@ == seq!['l', 'o', 'w'],
        "medium"@ == seq!['m', 'e', 'd', 'i', 'u', 'm'],
        "high"@ == seq!['h', 'i', 'g', 'h'],
{
    reveal_strlit("off");
    reveal_strlit("low");
    reveal_strlit("medium");
    reveal_strlit("high");
}

/// Every level survives being saved and loaded: its name is read back as the level itself.
pub proof fn law_saved_level_is_loaded(level: KeyboardBacklightState)
    ensures
        state::level_named(level.name()) == Some(level),
        state::level_saved(Some(level.name())) == Some(level),
        state::level_loaded(Some(level.name())) == level,
{
    lemma_names();
    assert("off"@ != "low"@) by {
        assert("off"@[0] != "low"@[0]);
    }
    lemma_names_are_trimmed(level.name());
}

/// A half written file reads back as `Low`.
pub proof fn law_half_written_file_reads_back_as_low(level: KeyboardBacklightState, written: int)
    requires
        0 <= written < level.name().len(),
    ensures
        state::level_loaded(Some(level.name().take(written))) == KeyboardBacklightState::Low,
{
    lemma_names();
    let part = level.name().take(written);
    lemma_names_are_trimmed(part);
    if part == "off"@ || part == "low"@ || part == "high"@ || part == "medium"@ {
        assert(part.len() >= 3);
        assert(part[0] == level.name()[0]);
        assert(part.len() == level.name().len());
    }
}

/// A level is dimmed to `Off` while suspended or idle, and only then; the LED is dark while
/// suspended, and only then other than the user wants it.
pub proof fn law_what_is_shown(state: InnerState)
    ensures
        state.is_suspended || state.is_idle ==> state.shown_backlight()
            == KeyboardBacklightState::Off,
        !state.is_suspended && !state.is_idle ==> state.shown_backlight() == state.backlight,
        state.is_suspended ==> !state.shown_mic_mute_led(),
        !state.is_suspended ==> (state.shown_mic_mute_led() <==> state.mic_mute_led),
{
}

/// Every operation changes what it is called after, to what it is given, and leaves all else as it
/// was. A level is known once it was adopted or is another than before, and stays known.
pub proof fn law_operations_change_what_they_name(state: InnerState, operation: Operation)
    ensures
        ({
            let after = performed(state, operation).0;
            &&& after.is_suspended <==> operation is SuspendStart || (state.is_suspended && !(
            operation is SuspendEnd))
            &&& after.is_idle <==> operation is IdleStart || (state.is_idle && !(operation
                is IdleEnd))
            &&& operation matches Operation::SetMicMuteLed(lit) ==> after.mic_mute_led == lit
            &&& operation is ToggleMicMuteLed ==> after.mic_mute_led != state.mic_mute_led
            &&& !(operation is SetMicMuteLed || operation is ToggleMicMuteLed)
                ==> after.mic_mute_led == state.mic_mute_led
            &&& operation matches Operation::SetKeyboardBacklight(level) ==> after.backlight
                == level
            &&& operation matches Operation::AdoptKeyboardBacklight(level) ==> after.backlight
                == level
            &&& operation is ToggleKeyboardBacklight ==> after.backlight
                == state.backlight.following()
            &&& !(operation is SetKeyboardBacklight || operation is AdoptKeyboardBacklight
                || operation is ToggleKeyboardBacklight) ==> after.backlight == state.backlight
            &&& after.backlight_known <==> state.backlight_known || after.backlight
                != state.backlight || operation is AdoptKeyboardBacklight
            &&& operation matches Operation::SetUsbKeyboardAttached(attached)
                ==> after.is_usb_attached == attached && after.is_secondary_display_enabled
                == !attached
            &&& !(operation is SetUsbKeyboardAttached) ==> after.is_usb_attached
                == state.is_usb_attached
            &&& operation is SetSecondaryDisplay && !state.is_usb_attached
                ==> after.is_secondary_display_enabled == operation->SetSecondaryDisplay_0
            &&& operation is ToggleSecondaryDisplay && !state.is_usb_attached
                ==> after.is_secondary_display_enabled != state.is_secondary_display_enabled
            &&& (operation is SetSecondaryDisplay || operation is ToggleSecondaryDisplay)
                && state.is_usb_attached ==> !after.is_secondary_display_enabled
            &&& !(operation is SetSecondaryDisplay || operation is ToggleSecondaryDisplay
                || operation is SetUsbKeyboardAttached) ==> after.is_secondary_display_enabled
                == state.is_secondary_display_enabled
        }),
{
}

/// An operation does no more than its change of state asks for: a new level is saved, once, before
/// anybody is told of it; a light or a display that an operation is about is told of once, as it is
/// after the operation; and nothing is saved or told where nothing of that was changed.
pub proof fn law_effects_match_the_change(state: InnerState, operation: Operation)
    ensures
        ({
            let after = performed(state, operation).0;
            let effects = performed(state, operation).1;
            let led = Effect::Emit(
                Event::MicMuteLed(after.mic_mute_led && !after.is_suspended),
            );
            let level = Effect::Emit(
                Event::Backlight(
                    if after.is_suspended || after.is_idle {
                        KeyboardBacklightState::Off
                    } else {
                        after.backlight
                    },
                ),
            );
            let display = Effect::Emit(
                Event::SecondaryDisplay(after.is_secondary_display_enabled),
            );
            let led_changed = after.mic_mute_led != state.mic_mute_led && !state.is_suspended;
            let level_changed = after.backlight != state.backlight;
            &&& operation is SuspendStart || operation is SuspendEnd ==> effects == seq![led, level]
            &&& operation is IdleStart || operation is IdleEnd ==> effects == seq![level]
            &&& operation is SetMicMuteLed || operation is ToggleMicMuteLed ==> effects == (
            if led_changed {
                seq![led]
            } else {
                Seq::empty()
            })
            &&& operation is SetKeyboardBacklight || operation is ToggleKeyboardBacklight
                ==> effects == (if !level_changed {
                Seq::empty()
            } else if state.is_suspended || state.is_idle {
                seq![Effect::Save(after.backlight)]
            } else {
                seq![Effect::Save(after.backlight), level]
            })
            &&& operation is AdoptKeyboardBacklight ==> effects == (if level_changed {
                seq![Effect::Save(after.backlight)]
            } else {
                Seq::empty()
            })
            &&& operation is SetSecondaryDisplay || operation is ToggleSecondaryDisplay
                || operation is SetUsbKeyboardAttached ==> effects == seq![display]
        }),
{
}

/// While the keyboard is detached the display obeys: it is set to what was asked for, toggled to
/// the other, and told as such. What was set is undone by setting the opposite, and toggling does
/// what setting the opposite of the display does.
pub proof fn law_display_obeys_while_detached(state: InnerState, enabled: bool)
    requires
        !state.is_usb_attached,
    ensures
        state.secondary_display_set(enabled).0.is_secondary_display_enabled == enabled,
        state.secondary_display_set(enabled).1 == seq![
            Effect::Emit(Event::SecondaryDisplay(enabled)),
        ],
        state.secondary_display_toggled().0.is_secondary_display_enabled
            == !state.is_secondary_display_enabled,
        state.secondary_display_toggled().1 == seq![
            Effect::Emit(Event::SecondaryDisplay(!state.is_secondary_display_enabled)),
        ],
        state.secondary_display_set(!enabled).0.secondary_display_set(enabled)
            == state.secondary_display_set(enabled),
        state.is_secondary_display_enabled == !enabled ==> state.secondary_display_toggled()
            == state.secondary_display_set(enabled),
{
}

/// The next level is one brighter, as the keyboard numbers them, and the brightest is followed by
/// none at all.
pub proof fn law_next_level_is_one_brighter(level: KeyboardBacklightState)
    ensures
        level == KeyboardBacklightState::High <==> level.following()
            == KeyboardBacklightState::Off,
        level != KeyboardBacklightState::High ==> crate::hidraw::level_byte(level.following())
            == crate::hidraw::level_byte(level) + 1,
        crate::hidraw::level_byte(KeyboardBacklightState::Off) == 0,
{
}

/// The daemon starts awake, with the LED off and the second display on unless the keyboard lies on
/// it. It starts with a level that it knows where the file names one, and with a guess of `Low`
/// where it does not.
pub proof fn law_daemon_starts_awake(
    is_usb_attached: bool,
    saved: Option<Seq<char>>,
    level: KeyboardBacklightState,
)
    ensures
        ({
            let state = InnerState::initial(is_usb_attached, saved);
            &&& !state.is_suspended
            &&& !state.is_idle
            &&& !state.mic_mute_led
            &&& state.is_usb_attached == is_usb_attached
            &&& state.is_secondary_display_enabled == !is_usb_attached
            &&& saved is Some && text::trimmed(saved->0) == level.name() ==> state.backlight
                == level && state.backlight_known
            &&& state.backlight_known ==> saved is Some && text::trimmed(saved->0)
                == state.backlight.name()
            &&& !state.backlight_known ==> state.backlight == KeyboardBacklightState::Low
        }),
{
    law_saved_level_is_loaded(level);
    law_names_are_told_apart(saved->0, level);
}

/// A text names a level exactly where it is the level's own name, letter by letter.
pub proof fn law_names_are_told_apart(name: Seq<char>, level: KeyboardBacklightState)
    ensures
        state::level_named(name) == Some(level) <==> name == level.name(),
        KeyboardBacklightState::Off.name() == "off"@,
        KeyboardBacklightState::Low.name() == "low"@,
        KeyboardBacklightState::Medium.name() == "medium"@,
        KeyboardBacklightState::High.name() == "high"@,
{
    law_saved_level_is_loaded(level);
}

/// White space around the name of a level in the file makes no difference, and anything else
/// around it does.
pub proof fn law_white_space_in_the_file_is_ignored(
    before: Seq<char>,
    level: KeyboardBacklightState,
    after: Seq<char>,
    contents: Seq<char>,
)
    requires
        forall|i: int| 0 <= i < before.len() ==> text::is_white_space(#[trigger] before[i]),
        forall|i: int| 0 <= i < after.len() ==> text::is_white_space(#[trigger] after[i]),
    ensures
        state::level_loaded(Some(before + level.name() + after)) == level,
        state::level_saved(Some(before + level.name() + after)) == Some(level),
        text::trimmed(contents) != level.name() ==> state::level_saved(Some(contents)) != Some(
            level,
        ),
        state::level_saved(None) is None,
        state::level_saved(Some(contents)) is None ==> state::level_loaded(Some(contents))
            == KeyboardBacklightState::Low,
        state::level_loaded(None) == KeyboardBacklightState::Low,
{
    lemma_names();
    text::law_trimming_takes_off_white_space(before, level.name(), after);
    law_saved_level_is_loaded(level);
    law_names_are_told_apart(text::trimmed(contents), level);
}

} // verus!
