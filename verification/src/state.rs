//! The state of the keyboard, which outlives its being attached and detached.
use crate::events::{Effect, Event};
use crate::text;
use vstd::prelude::*;

verus! {

/// The backlight level outlives the daemon: without this file a restart would light up a
/// keyboard that the user had turned off.
pub const BACKLIGHT_PATH: &'static str = "/var/lib/zenbook-duo-daemon/backlight";

/// A level of the keyboard backlight.
#[derive(Clone, Copy, Debug, PartialEq, Eq, Structural)]
pub enum KeyboardBacklightState {
    Off,
    Low,
    Medium,
    High,
}

/// The level that is called `name`.
pub open spec fn level_named(name: Seq<char>) -> Option<KeyboardBacklightState> {
    if name == "off"@ {
        Some(KeyboardBacklightState::Off)
    } else if name == "low"@ {
        Some(KeyboardBacklightState::Low)
    } else if name == "medium"@ {
        Some(KeyboardBacklightState::Medium)
    } else if name == "high"@ {
        Some(KeyboardBacklightState::High)
    } else {
        None
    }
}

/// The level that a saved file holds, where there is such a file and it names one.
pub open spec fn level_saved(contents: Option<Seq<char>>) -> Option<KeyboardBacklightState> {
    match contents {
        Some(contents) => level_named(text::trimmed(contents)),
        None => None,
    }
}

/// The level that the daemon starts with where the saved file holds `contents`.
pub open spec fn level_loaded(contents: Option<Seq<char>>) -> KeyboardBacklightState {
    match level_saved(contents) {
        Some(level) => level,
        None => KeyboardBacklightState::Low,
    }
}

impl KeyboardBacklightState {
    /// What the level is called.
    pub open spec fn name(self) -> Seq<char> {
        match self {
            KeyboardBacklightState::Off => "off"@,
            KeyboardBacklightState::Low => "low"@,
            KeyboardBacklightState::Medium => "medium"@,
            KeyboardBacklightState::High => "high"@,
        }
    }

    /// The level that follows this one when the user cycles through them.
    pub open spec fn following(self) -> KeyboardBacklightState {
        match self {
            KeyboardBacklightState::Off => KeyboardBacklightState::Low,
            KeyboardBacklightState::Low => KeyboardBacklightState::Medium,
            KeyboardBacklightState::Medium => KeyboardBacklightState::High,
            KeyboardBacklightState::High => KeyboardBacklightState::Off,
        }
    }

    /// What the level is called.
    pub fn as_str(&self) -> (name: &'static str)
        ensures
            name@ == self.name(),
    {
        match self {
            KeyboardBacklightState::Off => "off",
            KeyboardBacklightState::Low => "low",
            KeyboardBacklightState::Medium => "medium",
            KeyboardBacklightState::High => "high",
        }
    }

    /// The level that is called `s`.
    pub fn parse(s: &str) -> (level: Option<KeyboardBacklightState>)
        ensures
            level == level_named(s@),
    {
        if text::same_text(s, "off") {
            Some(KeyboardBacklightState::Off)
        } else if text::same_text(s, "low") {
            Some(KeyboardBacklightState::Low)
        } else if text::same_text(s, "medium") {
            Some(KeyboardBacklightState::Medium)
        } else if text::same_text(s, "high") {
            Some(KeyboardBacklightState::High)
        } else {
            None
        }
    }

    /// The level that a saved file holds. `contents` is the text of the file at
    /// `BACKLIGHT_PATH`, or `None` where it is missing or cannot be read.
    fn saved(contents: Option<&str>) -> (level: Option<KeyboardBacklightState>)
        ensures
            level == level_saved(text::optional_text(contents)),
    {
        match contents {
            Some(contents) => KeyboardBacklightState::parse(text::trim(contents)),
            None => None,
        }
    }

    /// The level to start with. Falls back to `Low` for a missing or unreadable file.
    pub fn load(contents: Option<&str>) -> (level: KeyboardBacklightState)
        ensures
            level == level_loaded(text::optional_text(contents)),
    {
        match KeyboardBacklightState::saved(contents) {
            Some(level) => level,
            None => KeyboardBacklightState::Low,
        }
    }

    /// The level that follows this one when the user cycles through them.
    pub fn next(&self) -> (level: KeyboardBacklightState)
        ensures
            level == self.following(),
    {
        match self {
            KeyboardBacklightState::Off => KeyboardBacklightState::Low,
            KeyboardBacklightState::Low => KeyboardBacklightState::Medium,
            KeyboardBacklightState::Medium => KeyboardBacklightState::High,
            KeyboardBacklightState::High => KeyboardBacklightState::Off,
        }
    }
}

/// All that the daemon knows of the keyboard.
#[derive(Clone, Copy, Debug, PartialEq, Eq, Structural)]
pub struct InnerState {
    /// The level that the user chose.
    pub backlight: KeyboardBacklightState,
    /// Whether `backlight` was loaded, changed to or read back, rather than guessed at first.
    /// Choosing the level that was guessed is no change, so that it stays a guess.
    pub backlight_known: bool,
    /// Whether the microphone is muted.
    pub mic_mute_led: bool,
    /// While suspended, both the backlight and the microphone mute LED are off.
    pub is_suspended: bool,
    /// While idle, only the backlight is off.
    pub is_idle: bool,
    pub is_usb_attached: bool,
    pub is_secondary_display_enabled: bool,
}

/// The state that follows, and what has to be done to get there, in order.
pub type Transition = (InnerState, Seq<Effect>);

impl InnerState {
    /// An attached keyboard lies on the secondary display, which is then off.
    pub open spec fn wf(self) -> bool {
        self.is_usb_attached ==> !self.is_secondary_display_enabled
    }

    /// The state that the daemon starts with.
    pub open spec fn initial(is_usb_attached: bool, saved: Option<Seq<char>>) -> InnerState {
        InnerState {
            backlight: level_loaded(saved),
            backlight_known: level_saved(saved) is Some,
            mic_mute_led: false,
            is_suspended: false,
            is_idle: false,
            is_usb_attached,
            is_secondary_display_enabled: !is_usb_attached,
        }
    }

    /// The level that the keyboard is to show now.
    pub open spec fn shown_backlight(self) -> KeyboardBacklightState {
        if self.is_suspended || self.is_idle {
            KeyboardBacklightState::Off
        } else {
            self.backlight
        }
    }

    /// Whether the microphone mute LED is to be lit now.
    pub open spec fn shown_mic_mute_led(self) -> bool {
        self.mic_mute_led && !self.is_suspended
    }

    pub open spec fn suspend_started(self) -> Transition {
        (
            InnerState { is_suspended: true, ..self },
            seq![
                Effect::Emit(Event::MicMuteLed(false)),
                Effect::Emit(Event::Backlight(KeyboardBacklightState::Off)),
            ],
        )
    }

    pub open spec fn suspend_ended(self) -> Transition {
        let after = InnerState { is_suspended: false, ..self };
        (
            after,
            seq![
                Effect::Emit(Event::MicMuteLed(after.shown_mic_mute_led())),
                Effect::Emit(Event::Backlight(after.shown_backlight())),
            ],
        )
    }

    pub open spec fn idle_started(self) -> Transition {
        (
            InnerState { is_idle: true, ..self },
            seq![Effect::Emit(Event::Backlight(KeyboardBacklightState::Off))],
        )
    }

    pub open spec fn idle_ended(self) -> Transition {
        let after = InnerState { is_idle: false, ..self };
        (after, seq![Effect::Emit(Event::Backlight(after.shown_backlight()))])
    }

    /// A repeated value changes nothing and is told to nobody. While suspended a change is
    /// kept, and told when the suspension ends.
    pub open spec fn mic_mute_led_set(self, enabled: bool) -> Transition {
        (
            InnerState { mic_mute_led: enabled, ..self },
            if self.mic_mute_led != enabled && !self.is_suspended {
                seq![Effect::Emit(Event::MicMuteLed(enabled))]
            } else {
                Seq::empty()
            },
        )
    }

    pub open spec fn mic_mute_led_toggled(self) -> Transition {
        self.mic_mute_led_set(!self.mic_mute_led)
    }

    /// A repeated level changes nothing. A new one is saved; while suspended or idle it is
    /// told only when that ends.
    pub open spec fn keyboard_backlight_set(self, level: KeyboardBacklightState) -> Transition {
        if self.backlight == level {
            (self, Seq::empty())
        } else {
            (
                InnerState { backlight: level, backlight_known: true, ..self },
                if self.is_idle || self.is_suspended {
                    seq![Effect::Save(level)]
                } else {
                    seq![Effect::Save(level), Effect::Emit(Event::Backlight(level))]
                },
            )
        }
    }

    pub open spec fn keyboard_backlight_toggled(self) -> Transition {
        self.keyboard_backlight_set(self.backlight.following())
    }

    /// The keyboard shows the level already, so nobody is told of it.
    pub open spec fn keyboard_backlight_adopted(self, level: KeyboardBacklightState) -> Transition {
        (
            InnerState { backlight: level, backlight_known: true, ..self },
            if self.backlight == level {
                Seq::empty()
            } else {
                seq![Effect::Save(level)]
            },
        )
    }

    /// An attached keyboard keeps the display off.
    pub open spec fn secondary_display_set(self, enabled: bool) -> Transition {
        let shown = enabled && !self.is_usb_attached;
        (
            InnerState { is_secondary_display_enabled: shown, ..self },
            seq![Effect::Emit(Event::SecondaryDisplay(shown))],
        )
    }

    pub open spec fn secondary_display_toggled(self) -> Transition {
        self.secondary_display_set(!self.is_secondary_display_enabled)
    }

    /// Attaching the keyboard turns the display off, detaching it turns the display on.
    pub open spec fn usb_keyboard_attached_set(self, attached: bool) -> Transition {
        (
            InnerState {
                is_usb_attached: attached,
                is_secondary_display_enabled: !attached,
                ..self
            },
            seq![Effect::Emit(Event::SecondaryDisplay(!attached))],
        )
    }
}

/// Maintains the keyboard state across attach and detach cycles. Every operation returns
/// what has to be done, in order, because of it.
#[derive(Debug)]
pub struct KeyboardStateManager {
    state: InnerState,
}

impl View for KeyboardStateManager {
    type V = InnerState;

    closed spec fn view(&self) -> InnerState {
        self.state
    }
}

impl KeyboardStateManager {
    #[verifier::type_invariant]
    spec fn state_is_wf(self) -> bool {
        self.state.wf()
    }

    /// The state that the daemon starts with. `saved_backlight` is the text of the file at
    /// `BACKLIGHT_PATH`, or `None` where it is missing or cannot be read.
    pub fn new(is_usb_attached: bool, saved_backlight: Option<&str>) -> (manager:
        KeyboardStateManager)
        ensures
            manager@ == InnerState::initial(is_usb_attached, text::optional_text(saved_backlight)),
            manager@.wf(),
    {
        let saved = KeyboardBacklightState::saved(saved_backlight);
        KeyboardStateManager {
            state: InnerState {
                backlight: KeyboardBacklightState::load(saved_backlight),
                backlight_known: saved.is_some(),
                mic_mute_led: false,
                is_suspended: false,
                is_idle: false,
                is_usb_attached,
                is_secondary_display_enabled: !is_usb_attached,
            },
        }
    }

    pub fn suspend_start(&mut self) -> (effects: Vec<Effect>)
        ensures
            (final(self)@, effects@) == old(self)@.suspend_started(),
            final(self)@.wf(),
    {
        proof {
            use_type_invariant(&*self);
        }
        self.state.is_suspended = true;
        vec![
            Effect::Emit(Event::MicMuteLed(false)),
            Effect::Emit(Event::Backlight(KeyboardBacklightState::Off)),
        ]
    }

    pub fn suspend_end(&mut self) -> (effects: Vec<Effect>)
        ensures
            (final(self)@, effects@) == old(self)@.suspend_ended(),
            final(self)@.wf(),
    {
        proof {
            use_type_invariant(&*self);
        }
        self.state.is_suspended = false;
        vec![
            Effect::Emit(Event::MicMuteLed(self.get_mic_mute_led())),
            Effect::Emit(Event::Backlight(self.get_keyboard_backlight())),
        ]
    }

    pub fn idle_start(&mut self) -> (effects: Vec<Effect>)
        ensures
            (final(self)@, effects@) == old(self)@.idle_started(),
            final(self)@.wf(),
    {
        proof {
            use_type_invariant(&*self);
        }
        self.state.is_idle = true;
        vec![Effect::Emit(Event::Backlight(KeyboardBacklightState::Off))]
    }

    pub fn idle_end(&mut self) -> (effects: Vec<Effect>)
        ensures
            (final(self)@, effects@) == old(self)@.idle_ended(),
            final(self)@.wf(),
    {
        proof {
            use_type_invariant(&*self);
        }
        self.state.is_idle = false;
        vec![Effect::Emit(Event::Backlight(self.get_keyboard_backlight()))]
    }

    /// Callers poll and assert the same value again and again, so only a real change is told.
    pub fn set_mic_mute_led(&mut self, enabled: bool) -> (effects: Vec<Effect>)
        ensures
            (final(self)@, effects@) == old(self)@.mic_mute_led_set(enabled),
            final(self)@.wf(),
    {
        proof {
            use_type_invariant(&*self);
        }
        let mut effects: Vec<Effect> = Vec::new();
        if self.state.mic_mute_led == enabled {
            return effects;
        }
        self.state.mic_mute_led = enabled;
        if !self.state.is_suspended {
            effects.push(Effect::Emit(Event::MicMuteLed(enabled)));
        }
        effects
    }

    pub fn toggle_mic_mute_led(&mut self) -> (effects: Vec<Effect>)
        ensures
            (final(self)@, effects@) == old(self)@.mic_mute_led_toggled(),
            final(self)@.wf(),
    {
        proof {
            use_type_invariant(&*self);
        }
        let mut effects: Vec<Effect> = Vec::new();
        self.state.mic_mute_led = !self.state.mic_mute_led;
        if !self.state.is_suspended {
            effects.push(Effect::Emit(Event::MicMuteLed(self.state.mic_mute_led)));
        }
        effects
    }

    pub fn get_mic_mute_led(&self) -> (lit: bool)
        ensures
            lit == self@.shown_mic_mute_led(),
    {
        if self.state.is_suspended {
            false
        } else {
            self.state.mic_mute_led
        }
    }

    pub fn set_keyboard_backlight(&mut self, new_state: KeyboardBacklightState) -> (effects: Vec<
        Effect,
    >)
        ensures
            (final(self)@, effects@) == old(self)@.keyboard_backlight_set(new_state),
            final(self)@.wf(),
    {
        proof {
            use_type_invariant(&*self);
        }
        let mut effects: Vec<Effect> = Vec::new();
        if self.state.backlight == new_state {
            return effects;
        }
        self.state.backlight = new_state;
        self.state.backlight_known = true;
        effects.push(Effect::Save(new_state));
        if !self.state.is_idle && !self.state.is_suspended {
            effects.push(Effect::Emit(Event::Backlight(new_state)));
        }
        effects
    }

    pub fn toggle_keyboard_backlight(&mut self) -> (effects: Vec<Effect>)
        ensures
            (final(self)@, effects@) == old(self)@.keyboard_backlight_toggled(),
            final(self)@.wf(),
    {
        proof {
            use_type_invariant(&*self);
        }
        let mut effects: Vec<Effect> = Vec::new();
        self.state.backlight = self.state.backlight.next();
        self.state.backlight_known = true;
        effects.push(Effect::Save(self.state.backlight));
        if !self.state.is_idle && !self.state.is_suspended {
            effects.push(Effect::Emit(Event::Backlight(self.state.backlight)));
        }
        effects
    }

    /// Takes over a level that was read from the keyboard.
    pub fn adopt_keyboard_backlight(&mut self, level: KeyboardBacklightState) -> (effects: Vec<
        Effect,
    >)
        ensures
            (final(self)@, effects@) == old(self)@.keyboard_backlight_adopted(level),
            final(self)@.wf(),
    {
        proof {
            use_type_invariant(&*self);
        }
        let mut effects: Vec<Effect> = Vec::new();
        if self.state.backlight != level {
            effects.push(Effect::Save(level));
        }
        self.state.backlight = level;
        self.state.backlight_known = true;
        effects
    }

    /// Whether there is a level worth restoring.
    pub fn is_backlight_known(&self) -> (known: bool)
        ensures
            known == self@.backlight_known,
    {
        self.state.backlight_known
    }

    pub fn get_keyboard_backlight(&self) -> (level: KeyboardBacklightState)
        ensures
            level == self@.shown_backlight(),
    {
        if self.state.is_suspended || self.state.is_idle {
            KeyboardBacklightState::Off
        } else {
            self.state.backlight
        }
    }

    pub fn set_secondary_display(&mut self, enabled: bool) -> (effects: Vec<Effect>)
        ensures
            (final(self)@, effects@) == old(self)@.secondary_display_set(enabled),
            final(self)@.wf(),
    {
        proof {
            use_type_invariant(&*self);
        }
        self.state.is_secondary_display_enabled = if self.state.is_usb_attached {
            false
        } else {
            enabled
        };
        vec![Effect::Emit(Event::SecondaryDisplay(self.state.is_secondary_display_enabled))]
    }

    pub fn toggle_secondary_display(&mut self) -> (effects: Vec<Effect>)
        ensures
            (final(self)@, effects@) == old(self)@.secondary_display_toggled(),
            final(self)@.wf(),
    {
        let enabled = self.state.is_secondary_display_enabled;
        self.set_secondary_display(!enabled)
    }

    pub fn set_usb_keyboard_attached(&mut self, attached: bool) -> (effects: Vec<Effect>)
        ensures
            (final(self)@, effects@) == old(self)@.usb_keyboard_attached_set(attached),
            final(self)@.wf(),
    {
        self.state = InnerState {
            is_usb_attached: attached,
            is_secondary_display_enabled: !attached,
            ..self.state
        };
        vec![Effect::Emit(Event::SecondaryDisplay(!attached))]
    }

    pub fn is_secondary_display_enabled(&self) -> (enabled: bool)
        ensures
            enabled == self@.is_secondary_display_enabled,
            self@.is_usb_attached ==> !enabled,
    {
        proof {
            use_type_invariant(self);
        }
        self.state.is_secondary_display_enabled
    }
}

} // verus!
