//! What the daemon tells its tasks, and what a change of state makes it do.
use crate::state::KeyboardBacklightState;
use vstd::prelude::*;

verus! {

/// A change that the tasks of the daemon are told of.
#[derive(Clone, Copy, Debug, PartialEq, Eq, Structural)]
pub enum Event {
    /// The level that the keyboard backlight is to show.
    Backlight(KeyboardBacklightState),
    /// Whether the microphone mute LED is to be lit.
    MicMuteLed(bool),
    /// Whether the secondary display is to be on.
    SecondaryDisplay(bool),
}

/// What a change of state asks of the program around the library.
#[derive(Clone, Copy, Debug, PartialEq, Eq, Structural)]
pub enum Effect {
    /// Write the name of this level to the file at `BACKLIGHT_PATH`.
    Save(KeyboardBacklightState),
    /// Send this event to every task that listens.
    Emit(Event),
}

} // verus!
