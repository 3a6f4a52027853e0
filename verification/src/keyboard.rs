//! What the keyboard does alike over USB and over Bluetooth.
use crate::events::{Effect, Event};
use crate::hidraw;
use crate::state::{InnerState, KeyboardBacklightState, KeyboardStateManager};
use vstd::prelude::*;

verus! {

/// A function key that the user can map.
#[derive(Clone, Copy, Debug, PartialEq, Eq, Structural)]
pub enum FunctionKey {
    KeyboardBacklight,
    BrightnessDown,
    BrightnessUp,
    SwapUpDownDisplay,
    MicrophoneMute,
    EmojiPicker,
    MyAsus,
    ToggleSecondaryDisplay,
}

/// What a key report asks for.
#[derive(Clone, Copy, Debug, PartialEq, Eq, Structural)]
pub enum KeyAction {
    /// Release every key of the virtual keyboard.
    ReleaseAllKeys,
    /// Do what the key is mapped to.
    Execute(FunctionKey),
}

/// What the code of a key asks for. Only one function key can be pressed at a time; code 0
/// says that none is, and a code that stands for no key is taken for the same.
pub open spec fn action_of(code: int) -> KeyAction {
    if code == 199 {
        KeyAction::Execute(FunctionKey::KeyboardBacklight)
    } else if code == 16 {
        KeyAction::Execute(FunctionKey::BrightnessDown)
    } else if code == 32 {
        KeyAction::Execute(FunctionKey::BrightnessUp)
    } else if code == 156 {
        KeyAction::Execute(FunctionKey::SwapUpDownDisplay)
    } else if code == 124 {
        KeyAction::Execute(FunctionKey::MicrophoneMute)
    } else if code == 126 {
        KeyAction::Execute(FunctionKey::EmojiPicker)
    } else if code == 134 {
        KeyAction::Execute(FunctionKey::MyAsus)
    } else if code == 106 {
        KeyAction::Execute(FunctionKey::ToggleSecondaryDisplay)
    } else {
        KeyAction::ReleaseAllKeys
    }
}

/// What the code of a key asks for.
pub fn key_action(code: i32) -> (action: KeyAction)
    ensures
        action == action_of(code as int),
{
    match code {
        199 => KeyAction::Execute(FunctionKey::KeyboardBacklight),
        16 => KeyAction::Execute(FunctionKey::BrightnessDown),
        32 => KeyAction::Execute(FunctionKey::BrightnessUp),
        156 => KeyAction::Execute(FunctionKey::SwapUpDownDisplay),
        124 => KeyAction::Execute(FunctionKey::MicrophoneMute),
        126 => KeyAction::Execute(FunctionKey::EmojiPicker),
        134 => KeyAction::Execute(FunctionKey::MyAsus),
        106 => KeyAction::Execute(FunctionKey::ToggleSecondaryDisplay),
        _ => KeyAction::ReleaseAllKeys,
    }
}

/// A report that sets a light of the keyboard.
#[derive(Clone, Copy, Debug, PartialEq, Eq, Structural)]
pub enum LedReport {
    Backlight(KeyboardBacklightState),
    MicMute(bool),
}

impl LedReport {
    /// The bytes of the report.
    pub open spec fn frame(self) -> Seq<u8> {
        match self {
            LedReport::Backlight(level) => hidraw::backlight_frame(level),
            LedReport::MicMute(enabled) => hidraw::mic_mute_frame(enabled),
        }
    }

    /// The bytes of the report.
    pub fn payload(&self) -> (bytes: Vec<u8>)
        ensures
            bytes@ == self.frame(),
    {
        match self {
            LedReport::Backlight(level) => crate::parse_hex_string(
                hidraw::backlight_report(*level),
            ),
            LedReport::MicMute(enabled) => crate::parse_hex_string(
                hidraw::mic_mute_report(*enabled),
            ),
        }
    }
}

/// What the task that lights the keyboard waits for.
#[derive(Clone, Copy, Debug, PartialEq, Eq, Structural)]
pub enum ControlInput {
    /// The task is to end.
    Shutdown,
    /// An event arrived.
    Event(Event),
    /// Events were lost, because the task was too slow for them.
    Lagged,
    /// No event will arrive any more.
    Closed,
    /// This report was written, or could not be.
    Written(LedReport),
}

/// What the task that lights the keyboard does next.
#[derive(Clone, Copy, Debug, PartialEq, Eq, Structural)]
pub enum ControlStep {
    /// Write this report.
    Write(LedReport),
    /// Wait for the next event.
    Wait,
    /// End the task.
    Stop,
}

/// What the task that lights the keyboard does on `input`, in `state`.
///
/// The keyboard hands back whatever report was written last, and that is how a later attach learns
/// the backlight level; so the level is put on top of a microphone mute report, as it is once that
/// was written. The keyboard is at it already, so nothing changes visibly.
pub open spec fn control_step_on(input: ControlInput, state: InnerState) -> ControlStep {
    match input {
        ControlInput::Event(Event::Backlight(level)) => ControlStep::Write(
            LedReport::Backlight(level),
        ),
        ControlInput::Event(Event::MicMuteLed(enabled)) => ControlStep::Write(
            LedReport::MicMute(enabled),
        ),
        ControlInput::Event(Event::SecondaryDisplay(_)) => ControlStep::Wait,
        ControlInput::Written(LedReport::MicMute(_)) => ControlStep::Write(
            LedReport::Backlight(state.shown_backlight()),
        ),
        ControlInput::Written(LedReport::Backlight(_)) => ControlStep::Wait,
        ControlInput::Lagged => ControlStep::Wait,
        ControlInput::Shutdown => ControlStep::Stop,
        ControlInput::Closed => ControlStep::Stop,
    }
}

/// What the task that lights the keyboard does on `input`.
pub fn control_step(input: ControlInput, state: &KeyboardStateManager) -> (step: ControlStep)
    ensures
        step == control_step_on(input, state@),
{
    match input {
        ControlInput::Event(Event::Backlight(level)) => ControlStep::Write(
            LedReport::Backlight(level),
        ),
        ControlInput::Event(Event::MicMuteLed(enabled)) => ControlStep::Write(
            LedReport::MicMute(enabled),
        ),
        ControlInput::Event(Event::SecondaryDisplay(_)) => ControlStep::Wait,
        ControlInput::Written(LedReport::MicMute(_)) => ControlStep::Write(
            LedReport::Backlight(state.get_keyboard_backlight()),
        ),
        ControlInput::Written(LedReport::Backlight(_)) => ControlStep::Wait,
        ControlInput::Lagged => ControlStep::Wait,
        ControlInput::Shutdown => ControlStep::Stop,
        ControlInput::Closed => ControlStep::Stop,
    }
}

/// What came of a piece of work on the keyboard.
#[derive(Clone, Copy, Debug, PartialEq, Eq, Structural)]
pub enum Outcome {
    Succeeded,
    Failed,
    /// The keyboard handed back a backlight report of this level.
    Read(KeyboardBacklightState),
}

/// The report that restores the backlight of a keyboard that has just connected. One that
/// handed back its level keeps it; one that did not is sent the level that the user last chose,
/// once there is one worth restoring; else it is left alone.
pub open spec fn restored_backlight(outcome: Outcome, state: InnerState) -> Option<
    KeyboardBacklightState,
> {
    if !(outcome is Read) && state.backlight_known {
        Some(state.shown_backlight())
    } else {
        None
    }
}

/// What a level that the keyboard handed back, or failed to, does to the state.
pub open spec fn read_back(outcome: Outcome, state: InnerState) -> (InnerState, Seq<Effect>) {
    match outcome {
        Outcome::Read(level) => state.keyboard_backlight_adopted(level),
        _ => (state, Seq::empty()),
    }
}

/// Takes over the level that the keyboard handed back, where it did. The keyboard answers
/// only while the last report written to it was a backlight one, so this brings the state in
/// line where that is possible and does nothing where it is not.
pub fn resync_backlight(outcome: Outcome, state: &mut KeyboardStateManager) -> (effects: Vec<
    Effect,
>)
    ensures
        (final(state)@, effects@) == read_back(outcome, old(state)@),
{
    match outcome {
        Outcome::Read(level) => state.adopt_keyboard_backlight(level),
        _ => Vec::new(),
    }
}

/// The level to send to a keyboard that has just connected.
pub fn backlight_to_restore(outcome: Outcome, state: &KeyboardStateManager) -> (level: Option<
    KeyboardBacklightState,
>)
    ensures
        level == restored_backlight(outcome, state@),
{
    match outcome {
        Outcome::Read(_) => None,
        _ => if state.is_backlight_known() {
            Some(state.get_keyboard_backlight())
        } else {
            None
        },
    }
}

/// The reports that an event leads to, where the state is `state` once the first of them was
/// written.
pub open spec fn event_reports(event: Event, state: InnerState) -> Seq<LedReport> {
    match control_step_on(ControlInput::Event(event), state) {
        ControlStep::Write(first) => match control_step_on(ControlInput::Written(first), state) {
            ControlStep::Write(second) => seq![first, second],
            _ => seq![first],
        },
        _ => Seq::empty(),
    }
}

/// After every event that is written to the keyboard, the report that it hands back carries
/// the backlight level that is to be shown: the one that the event tells, or the one that the
/// state has once the first report was written. The state before that makes no difference, and
/// nothing is written after that.
pub proof fn law_level_stays_readable(
    event: Event,
    before: InnerState,
    state: InnerState,
    after: InnerState,
)
    requires
        event_reports(event, state).len() > 0,
    ensures
        hidraw::level_reported(event_reports(event, state).last().frame()) == Some(
            match event {
                Event::Backlight(level) => level,
                _ => state.shown_backlight(),
            },
        ),
        control_step_on(ControlInput::Event(event), before) == ControlStep::Write(
            event_reports(event, state).first(),
        ),
        control_step_on(
            ControlInput::Written(event_reports(event, state).last()),
            after,
        ) is Wait,
{
    hidraw::law_backlight_is_read_back(state.shown_backlight(), true);
    if let Event::Backlight(level) = event {
        hidraw::law_backlight_is_read_back(level, true);
    }
}

/// Connecting a keyboard changes nothing that is visible on it, where it hands back its level:
/// no event is sent, no backlight report is written, and the state takes the keyboard's level.
pub proof fn law_connecting_keeps_the_level(level: KeyboardBacklightState, state: InnerState)
    ensures
        restored_backlight(Outcome::Read(level), state) is None,
        read_back(Outcome::Read(level), state).0.backlight == level,
        forall|event: Event|
            !read_back(Outcome::Read(level), state).1.contains(Effect::Emit(event)),
{
}

/// The backlight key cycles from where the keyboard is, where that is known.
pub proof fn law_cycling_starts_where_the_keyboard_is(
    level: KeyboardBacklightState,
    state: InnerState,
)
    ensures
        read_back(Outcome::Read(level), state).0.keyboard_backlight_toggled().0.backlight
            == level.following(),
{
}

/// Each function key has one code, and every other code asks for no key to be down.
pub proof fn law_each_key_has_its_code(code: int, key: FunctionKey)
    ensures
        action_of(code) == KeyAction::Execute(key) <==> code == (match key {
            FunctionKey::BrightnessDown => 16int,
            FunctionKey::BrightnessUp => 32,
            FunctionKey::ToggleSecondaryDisplay => 106,
            FunctionKey::MicrophoneMute => 124,
            FunctionKey::EmojiPicker => 126,
            FunctionKey::MyAsus => 134,
            FunctionKey::SwapUpDownDisplay => 156,
            FunctionKey::KeyboardBacklight => 199,
        }),
        forall|other: int|
            action_of(code) is Execute && #[trigger] action_of(other) == action_of(code) ==> other
                == code,
{
}

/// Every event of a light is written to the keyboard, as it is: no level and no LED is left out.
/// An event of the display is none of the keyboard's business.
pub proof fn law_every_light_event_is_written(
    event: Event,
    level: KeyboardBacklightState,
    lit: bool,
    state: InnerState,
)
    ensures
        event_reports(event, state).len() == 0 <==> event is SecondaryDisplay,
        event_reports(Event::Backlight(level), state) == seq![LedReport::Backlight(level)],
        event_reports(Event::MicMuteLed(lit), state).len() == 2,
        event_reports(Event::MicMuteLed(lit), state)[0] == LedReport::MicMute(lit),
        control_step_on(ControlInput::Event(Event::Backlight(level)), state) == ControlStep::Write(
            LedReport::Backlight(level),
        ),
        control_step_on(ControlInput::Event(Event::MicMuteLed(lit)), state) == ControlStep::Write(
            LedReport::MicMute(lit),
        ),
{
}

/// The task writes a report only for an event of a light or on top of a microphone mute report, and
/// there the level: dark while suspended or idle, else the user's. It ends when it is told to or
/// when no event can come, and at nothing else.
pub proof fn law_control_task_writes_on_events(input: ControlInput, state: InnerState)
    ensures
        control_step_on(input, state) is Stop <==> input is Shutdown || input is Closed,
        control_step_on(input, state) is Write <==> (input matches ControlInput::Event(event)
            && !(event is SecondaryDisplay)) || (input matches ControlInput::Written(report)
            && report is MicMute),
        input is Written && control_step_on(input, state) is Write ==> control_step_on(input, state)
            == ControlStep::Write(
            LedReport::Backlight(
                if state.is_suspended || state.is_idle {
                    KeyboardBacklightState::Off
                } else {
                    state.backlight
                },
            ),
        ),
{
}

/// What a light is set to can be read off the bytes of its report.
pub proof fn law_reports_set_what_they_say(level: KeyboardBacklightState, lit: bool)
    ensures
        hidraw::level_reported(LedReport::Backlight(level).frame()) == Some(level),
        hidraw::level_reported(LedReport::MicMute(lit).frame()) is None,
        LedReport::MicMute(lit).frame().len() == 16,
        LedReport::MicMute(lit).frame().take(3) == seq![0x5au8, 0xd0, 0x7c],
        LedReport::MicMute(lit).frame()[3] == 1 <==> lit,
        LedReport::Backlight(level).frame().len() == 16,
{
    hidraw::law_backlight_is_read_back(level, lit);
    assert(hidraw::mic_mute_frame(lit).take(3) == seq![0x5au8, 0xd0, 0x7c]);
}

/// A level that the keyboard hands back is taken over, known from then on, and saved where it is
/// another than before; nobody is told of it, and nothing else changes. What the keyboard does not
/// hand back changes nothing at all.
pub proof fn law_level_read_back_is_taken_over(
    outcome: Outcome,
    level: KeyboardBacklightState,
    state: InnerState,
)
    ensures
        ({
            let after = read_back(Outcome::Read(level), state);
            &&& after.0 == (InnerState { backlight: level, backlight_known: true, ..state })
            &&& state.backlight != level ==> after.1 == seq![Effect::Save(level)]
            &&& state.backlight == level ==> after.1 == Seq::<Effect>::empty()
        }),
        !(outcome is Read) ==> read_back(outcome, state) == (state, Seq::<Effect>::empty()),
{
}

/// A keyboard is sent a level when it connects exactly where it does not hand one back and the
/// user's is known, and then the one that is to be shown.
pub proof fn law_level_is_restored_where_it_is_known(outcome: Outcome, state: InnerState)
    ensures
        restored_backlight(outcome, state) is Some <==> !(outcome is Read) && state.backlight_known,
        restored_backlight(outcome, state) matches Some(level) ==> level == (if state.is_suspended
            || state.is_idle {
            KeyboardBacklightState::Off
        } else {
            state.backlight
        }),
{
}

} // verus!
