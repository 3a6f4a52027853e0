//! The keyboard on its USB connector.
use crate::events::Effect;
use crate::hidraw;
use crate::keyboard;
use crate::keyboard::{KeyAction, LedReport, Outcome};
use crate::state::{InnerState, KeyboardBacklightState, KeyboardStateManager};
use vstd::prelude::*;

verus! {

/// The device is not usable again the instant that the system resumes, and the old task needs
/// a moment to drop its interface claim first.
pub const REOPEN_ATTEMPTS: usize = 10;

pub const REOPEN_RETRY_DELAY_MS: u64 = 200;

/// The interface that carries the function keys and the vendor reports.
pub const INTERFACE: u8 = 4;

/// The interrupt endpoint of that interface.
pub const ENDPOINT: u8 = 0x85;

/// How many transfers are kept in flight on the endpoint, and how long each is.
pub const PENDING_TRANSFERS: usize = 3;

pub const TRANSFER_LENGTH: usize = 64;

/// How long to wait after a failed transfer.
pub const TRANSFER_RETRY_DELAY_MS: u64 = 100;

/// Why a wired keyboard task is being shut down.
#[derive(Debug, Clone, Copy, PartialEq, Eq, Structural)]
pub enum Shutdown {
    /// The device is gone, report the keyboard as detached.
    Detached,
    /// The device is still there and is about to be opened again, keep the attached state.
    Reopening,
}

/// A USB device.
#[derive(Debug, Clone, Copy, PartialEq, Eq, Structural)]
pub struct UsbDevice {
    /// A number that tells the device from every other one seen so far.
    pub id: u64,
    pub vendor_id: u16,
    pub product_id: u16,
}

/// The vendor and product that the keyboard has.
#[derive(Debug, Clone, Copy, PartialEq, Eq, Structural)]
pub struct KeyboardModel {
    pub vendor_id: u16,
    pub product_id: u16,
}

impl KeyboardModel {
    /// Whether `device` is such a keyboard.
    pub open spec fn is_model_of(self, device: UsbDevice) -> bool {
        device.vendor_id == self.vendor_id && device.product_id == self.product_id
    }

    /// Whether `device` is such a keyboard.
    pub fn matches(&self, device: &UsbDevice) -> (r: bool)
        ensures
            r == self.is_model_of(*device),
    {
        device.vendor_id == self.vendor_id && device.product_id == self.product_id
    }
}

/// The first keyboard among `devices`.
pub open spec fn wired_keyboard(devices: Seq<UsbDevice>, model: KeyboardModel) -> Option<UsbDevice>
    decreases devices.len(),
{
    if devices.len() == 0 {
        None
    } else if model.is_model_of(devices.first()) {
        Some(devices.first())
    } else {
        wired_keyboard(devices.drop_first(), model)
    }
}

/// The first keyboard among `devices`.
pub fn find_wired_keyboard(devices: &Vec<UsbDevice>, model: &KeyboardModel) -> (device: Option<
    UsbDevice,
>)
    ensures
        device == wired_keyboard(devices@, *model),
{
    let mut i: usize = 0;
    assert(devices@.skip(0) == devices@);
    while i < devices.len()
        invariant
            i <= devices.len(),
            wired_keyboard(devices@.skip(i as int), *model) == wired_keyboard(devices@, *model),
        decreases devices.len() - i,
    {
        assert(devices@.skip(i as int).drop_first() == devices@.skip(i + 1));
        if model.matches(&devices[i]) {
            return Some(devices[i]);
        }
        i = i + 1;
    }
    None
}

/// What the monitor of the wired keyboard waits for.
#[derive(Debug, Clone, Copy, PartialEq, Eq, Structural)]
pub enum MonitorInput {
    /// A device was connected.
    Connected(UsbDevice),
    /// The device of this number was disconnected.
    Disconnected(u64),
    /// No device will be reported any more.
    WatchEnded,
    /// The keyboard is to be opened again.
    ReconnectRequested,
    /// Nobody can ask for that any more.
    ReconnectClosed,
    /// A keyboard task was to be started, on its device or again; it runs on the device of
    /// this number, or could not be started.
    Started(Option<u64>),
}

/// What the monitor of the wired keyboard does next.
#[derive(Debug, Clone, Copy, PartialEq, Eq, Structural)]
pub enum MonitorStep {
    /// Wait.
    Wait,
    /// Start a keyboard task on the device that was connected.
    Start(UsbDevice),
    /// Shut the current task down.
    Shutdown(Shutdown),
    /// Open the device again, as `Reopening` says.
    Reopen,
    /// End.
    Stop,
}

/// Starts a keyboard task when the keyboard is connected, and ends it when it is disconnected.
#[derive(Debug)]
pub struct UsbKeyboardMonitor {
    /// The keyboard to look for.
    pub model: KeyboardModel,
    /// The number of the device that a keyboard task runs on.
    pub current: Option<u64>,
}

impl UsbKeyboardMonitor {
    /// What the monitor does on `input`.
    pub open spec fn step_on(self, input: MonitorInput) -> MonitorStep {
        match input {
            MonitorInput::Connected(device) => if self.model.is_model_of(device) {
                MonitorStep::Start(device)
            } else {
                MonitorStep::Wait
            },
            MonitorInput::Disconnected(id) => if self.current == Some(id) {
                MonitorStep::Shutdown(Shutdown::Detached)
            } else {
                MonitorStep::Wait
            },
            MonitorInput::ReconnectRequested => if self.current is Some {
                MonitorStep::Reopen
            } else {
                MonitorStep::Wait
            },
            MonitorInput::Started(_) => MonitorStep::Wait,
            MonitorInput::WatchEnded => MonitorStep::Stop,
            MonitorInput::ReconnectClosed => MonitorStep::Stop,
        }
    }

    /// The task that runs after `input`.
    pub open spec fn current_after(self, input: MonitorInput) -> Option<u64> {
        match input {
            MonitorInput::Started(id) => id,
            MonitorInput::ReconnectRequested => None,
            MonitorInput::Disconnected(id) => if self.current == Some(id) {
                None
            } else {
                self.current
            },
            _ => self.current,
        }
    }

    /// A monitor for keyboards of `model`. `current` is the number of the device that a task
    /// runs on already.
    pub fn new(model: KeyboardModel, current: Option<u64>) -> (monitor: UsbKeyboardMonitor)
        ensures
            monitor.model == model,
            monitor.current == current,
    {
        UsbKeyboardMonitor { model, current }
    }

    /// What the monitor does on `input`.
    pub fn step(&mut self, input: MonitorInput) -> (step: MonitorStep)
        ensures
            step == old(self).step_on(input),
            final(self).current == old(self).current_after(input),
            final(self).model == old(self).model,
    {
        match input {
            MonitorInput::Connected(device) => if self.model.matches(&device) {
                MonitorStep::Start(device)
            } else {
                MonitorStep::Wait
            },
            MonitorInput::Disconnected(id) => if self.current == Some(id) {
                self.current = None;
                MonitorStep::Shutdown(Shutdown::Detached)
            } else {
                MonitorStep::Wait
            },
            MonitorInput::ReconnectRequested => if self.current.is_some() {
                self.current = None;
                MonitorStep::Reopen
            } else {
                // Nothing was open. A keyboard attached meanwhile is reported as connected.
                MonitorStep::Wait
            },
            MonitorInput::Started(id) => {
                self.current = id;
                MonitorStep::Wait
            },
            MonitorInput::WatchEnded => MonitorStep::Stop,
            MonitorInput::ReconnectClosed => MonitorStep::Stop,
        }
    }
}

/// What came of opening the keyboard again, so far.
#[derive(Debug, Clone, Copy, PartialEq, Eq, Structural)]
pub enum ReopenInput {
    /// Nothing was done yet.
    Begin,
    /// The task that ran was told to shut down.
    Closed,
    /// No keyboard was found, or no task could be started on it.
    Failed,
    /// A task runs on the device of this number.
    Started(u64),
}

/// What is to be done to open the keyboard again.
#[derive(Debug, Clone, Copy, PartialEq, Eq, Structural)]
pub enum ReopenStep {
    /// Tell the task that runs to shut down, for this reason.
    Shutdown(Shutdown),
    /// Wait this many milliseconds, then look for the keyboard and start a task on it.
    TryAfter(u64),
    /// A task runs on the device of this number.
    Reopened(u64),
    /// The keyboard did not come back.
    GaveUp,
}

/// Opens the keyboard again.
///
/// The kernel drops the claim on the interface across a suspension without reporting the device
/// as disconnected, so nothing opens it again and every transfer afterwards fails. This does in
/// software what physically detaching and attaching the keyboard does.
#[derive(Debug)]
pub struct Reopening {
    attempts: usize,
}

impl Reopening {
    #[verifier::type_invariant]
    spec fn attempts_are_bounded(self) -> bool {
        self.attempts <= REOPEN_ATTEMPTS
    }

    /// How many attempts were made.
    pub closed spec fn attempts_made(self) -> nat {
        self.attempts as nat
    }

    /// Before the first attempt.
    pub fn new() -> (reopening: Reopening)
        ensures
            reopening.attempts_made() == 0,
    {
        Reopening { attempts: 0 }
    }

    /// What is to be done after `input`.
    pub fn step(&mut self, input: ReopenInput) -> (step: ReopenStep)
        ensures
            (step, final(self).attempts_made()) == reopen_step(input, old(self).attempts_made()),
    {
        proof {
            use_type_invariant(&*self);
        }
        match input {
            ReopenInput::Begin => ReopenStep::Shutdown(Shutdown::Reopening),
            ReopenInput::Started(id) => ReopenStep::Reopened(id),
            _ => if self.attempts < REOPEN_ATTEMPTS {
                self.attempts = self.attempts + 1;
                ReopenStep::TryAfter(REOPEN_RETRY_DELAY_MS)
            } else {
                ReopenStep::GaveUp
            },
        }
    }
}

/// What is to be done after `input`, and how many attempts that makes.
pub open spec fn reopen_step(input: ReopenInput, attempts: nat) -> (ReopenStep, nat) {
    match input {
        ReopenInput::Begin => (ReopenStep::Shutdown(Shutdown::Reopening), attempts),
        ReopenInput::Started(id) => (ReopenStep::Reopened(id), attempts),
        _ => if attempts < REOPEN_ATTEMPTS {
            (ReopenStep::TryAfter(REOPEN_RETRY_DELAY_MS), attempts + 1)
        } else {
            (ReopenStep::GaveUp, attempts)
        },
    }
}

/// A request of the class of the interface, with data for it.
#[derive(Debug)]
pub struct ControlOut {
    pub request: u8,
    pub value: u16,
    pub index: u16,
    pub data: Vec<u8>,
    pub timeout_ms: u64,
}

/// A request of the class of the interface, for data from it.
#[derive(Debug, Clone, Copy, PartialEq, Eq, Structural)]
pub struct ControlIn {
    pub request: u8,
    pub value: u16,
    pub index: u16,
    pub length: u16,
    pub timeout_ms: u64,
}

/// What a request with data holds.
#[verifier::ext_equal]
pub struct ControlOutView {
    pub request: u8,
    pub value: u16,
    pub index: u16,
    pub data: Seq<u8>,
    pub timeout_ms: u64,
}

impl View for ControlOut {
    type V = ControlOutView;

    open spec fn view(&self) -> ControlOutView {
        ControlOutView {
            request: self.request,
            value: self.value,
            index: self.index,
            data: self.data@,
            timeout_ms: self.timeout_ms,
        }
    }
}

/// The request that writes the vendor report.
pub open spec fn report_write(data: Seq<u8>) -> ControlOutView {
    ControlOutView { request: 0x09, value: 0x035a, index: 4, data, timeout_ms: 100 }
}

/// The request that reads the vendor report.
pub open spec fn report_read() -> ControlIn {
    ControlIn { request: 0x01, value: 0x035a, index: 4, length: 16, timeout_ms: 100 }
}

/// The request that sets the backlight.
pub open spec fn backlight_write(level: KeyboardBacklightState) -> ControlOutView {
    report_write(hidraw::backlight_frame(level))
}

/// The request that sets the microphone mute LED.
pub open spec fn mic_mute_write(enabled: bool) -> ControlOutView {
    report_write(hidraw::mic_mute_frame(enabled))
}

/// The request that writes `data` as the vendor report of the keyboard.
pub fn set_report(data: Vec<u8>) -> (request: ControlOut)
    ensures
        request == (ControlOut {
            request: 0x09,
            value: 0x035a,
            index: 4,
            data,
            timeout_ms: 100,
        }),
        request@ == report_write(data@),
{
    ControlOut { request: 0x09, value: 0x035a, index: 4, data, timeout_ms: 100 }
}

/// The request that reads the backlight level: it asks for the vendor report, which is
/// whatever was written there last.
pub fn backlight_request() -> (request: ControlIn)
    ensures
        request == (ControlIn {
            request: 0x01,
            value: 0x035a,
            index: 4,
            length: 16,
            timeout_ms: 100,
        }),
        request == report_read(),
{
    ControlIn { request: 0x01, value: 0x035a, index: 4, length: 16, timeout_ms: 100 }
}

/// What a reply to `backlight_request` says, `None` being a request that failed.
pub open spec fn reply_outcome(reply: Option<Seq<u8>>) -> Outcome {
    match reply {
        Some(reply) => match hidraw::level_reported(reply) {
            Some(level) => Outcome::Read(level),
            None => Outcome::Failed,
        },
        None => Outcome::Failed,
    }
}

/// What a reply to `backlight_request` says, `None` being a request that failed.
pub fn read_backlight_state(reply: Option<Vec<u8>>) -> (outcome: Outcome)
    ensures
        outcome == reply_outcome(
            match reply {
                Some(reply) => Some(reply@),
                None => None,
            },
        ),
{
    match reply {
        Some(reply) => match hidraw::parse_backlight_report(reply.as_slice()) {
            Some(level) => Outcome::Read(level),
            None => Outcome::Failed,
        },
        None => Outcome::Failed,
    }
}

/// The request that sets the backlight.
pub fn send_backlight_state(state: KeyboardBacklightState) -> (request: ControlOut)
    ensures
        request@ == backlight_write(state),
        request.data@ == hidraw::backlight_frame(state),
        request.request == 0x09,
        request.value == 0x035a,
        request.index == 4,
        request.timeout_ms == 100,
{
    set_report(LedReport::Backlight(state).payload())
}

/// The request that sets the microphone mute LED.
pub fn send_mute_microphone_state(state: bool) -> (request: ControlOut)
    ensures
        request@ == mic_mute_write(state),
        request.data@ == hidraw::mic_mute_frame(state),
        request.request == 0x09,
        request.value == 0x035a,
        request.index == 4,
        request.timeout_ms == 100,
{
    set_report(LedReport::MicMute(state).payload())
}

/// What a task on a wired keyboard has to do before it runs, one after another.
#[derive(Debug, Clone, Copy, PartialEq, Eq, Structural)]
pub enum UsbStart {
    /// Open the device.
    Open,
    /// Claim its interface.
    Claim,
    /// Open the endpoint.
    OpenEndpoint,
    /// Note that the user is active.
    NotifyActivity,
    /// Set the function key mode.
    SetFnLock(bool),
    /// Read the backlight level.
    ReadBacklight,
    /// Set the backlight.
    SendBacklight(KeyboardBacklightState),
    /// Set the microphone mute LED.
    SendMicMute(bool),
    /// Run.
    Run,
    /// Give up: the device is not usable.
    GiveUp,
}

impl UsbStart {
    /// What comes first.
    pub fn first() -> (start: UsbStart)
        ensures
            start == UsbStart::Open,
    {
        UsbStart::Open
    }
}

/// What follows `start` when it has come to `outcome`, in `state`.
///
/// Opening and claiming can fail on a device that is listed but not ready yet, which is the
/// normal state for a second or so after resuming. All that comes later is attempted only.
/// `fn_lock` is the function key mode to set; without one, it stays as it is.
pub open spec fn usb_start_after(
    start: UsbStart,
    outcome: Outcome,
    fn_lock: Option<bool>,
    state: InnerState,
) -> (UsbStart, (InnerState, Seq<Effect>)) {
    let unchanged = (state, Seq::<Effect>::empty());
    let send_mic_mute = UsbStart::SendMicMute(state.shown_mic_mute_led());
    match start {
        UsbStart::Open => if outcome is Failed {
            (UsbStart::GiveUp, unchanged)
        } else {
            (UsbStart::Claim, unchanged)
        },
        UsbStart::Claim => if outcome is Failed {
            (UsbStart::GiveUp, unchanged)
        } else {
            (UsbStart::OpenEndpoint, unchanged)
        },
        UsbStart::OpenEndpoint => if outcome is Failed {
            (UsbStart::GiveUp, unchanged)
        } else {
            (UsbStart::NotifyActivity, state.usb_keyboard_attached_set(true))
        },
        UsbStart::NotifyActivity => match fn_lock {
            Some(locked) => (UsbStart::SetFnLock(locked), unchanged),
            None => (UsbStart::ReadBacklight, unchanged),
        },
        UsbStart::SetFnLock(_) => (UsbStart::ReadBacklight, unchanged),
        UsbStart::ReadBacklight => match keyboard::restored_backlight(outcome, state) {
            Some(level) => (UsbStart::SendBacklight(level), unchanged),
            None => (send_mic_mute, keyboard::read_back(outcome, state)),
        },
        UsbStart::SendBacklight(_) => (send_mic_mute, unchanged),
        UsbStart::SendMicMute(_) => (UsbStart::Run, unchanged),
        UsbStart::Run => (UsbStart::Run, unchanged),
        UsbStart::GiveUp => (UsbStart::GiveUp, unchanged),
    }
}

/// What follows `start` when it has come to `outcome`, and what has to be done because of it.
pub fn start_usb_keyboard_task(
    start: UsbStart,
    outcome: Outcome,
    fn_lock: Option<bool>,
    state: &mut KeyboardStateManager,
) -> (r: (UsbStart, Vec<Effect>))
    ensures
        (r.0, (final(state)@, r.1@)) == usb_start_after(start, outcome, fn_lock, old(state)@),
{
    let failed = match outcome {
        Outcome::Failed => true,
        _ => false,
    };
    match start {
        UsbStart::Open => if failed {
            (UsbStart::GiveUp, Vec::new())
        } else {
            (UsbStart::Claim, Vec::new())
        },
        UsbStart::Claim => if failed {
            (UsbStart::GiveUp, Vec::new())
        } else {
            (UsbStart::OpenEndpoint, Vec::new())
        },
        UsbStart::OpenEndpoint => if failed {
            (UsbStart::GiveUp, Vec::new())
        } else {
            (UsbStart::NotifyActivity, state.set_usb_keyboard_attached(true))
        },
        UsbStart::NotifyActivity => match fn_lock {
            Some(locked) => (UsbStart::SetFnLock(locked), Vec::new()),
            None => (UsbStart::ReadBacklight, Vec::new()),
        },
        UsbStart::SetFnLock(_) => (UsbStart::ReadBacklight, Vec::new()),
        UsbStart::ReadBacklight => match keyboard::backlight_to_restore(outcome, state) {
            Some(level) => (UsbStart::SendBacklight(level), Vec::new()),
            None => {
                let effects = keyboard::resync_backlight(outcome, state);
                (UsbStart::SendMicMute(state.get_mic_mute_led()), effects)
            },
        },
        UsbStart::SendBacklight(_) => (
            UsbStart::SendMicMute(state.get_mic_mute_led()),
            Vec::new(),
        ),
        UsbStart::SendMicMute(_) => (UsbStart::Run, Vec::new()),
        UsbStart::Run => (UsbStart::Run, Vec::new()),
        UsbStart::GiveUp => (UsbStart::GiveUp, Vec::new()),
    }
}

/// How many transfers to submit where `pending` are in flight.
pub open spec fn transfers_wanted(pending: nat) -> nat {
    if pending < PENDING_TRANSFERS {
        (PENDING_TRANSFERS - pending) as nat
    } else {
        0
    }
}

/// How many transfers to submit where `pending` are in flight.
pub fn transfers_to_submit(pending: usize) -> (count: usize)
    ensures
        pending < PENDING_TRANSFERS ==> pending + count == PENDING_TRANSFERS,
        pending >= PENDING_TRANSFERS ==> count == 0,
        count == transfers_wanted(pending as nat),
{
    if pending < PENDING_TRANSFERS {
        PENDING_TRANSFERS - pending
    } else {
        0
    }
}

/// What the end of the keyboard task does to the state. `reason` is why it ends, `None` where
/// nobody is left to say. Opening the keyboard again keeps it attached, so that the secondary
/// display is not turned on and straight off again.
pub open spec fn ended(reason: Option<Shutdown>, state: InnerState) -> (InnerState, Seq<Effect>) {
    if reason == Some(Shutdown::Reopening) {
        (state, Seq::empty())
    } else {
        state.usb_keyboard_attached_set(false)
    }
}

/// What the end of the keyboard task does to the state.
pub fn end_usb_keyboard_task(
    reason: Option<Shutdown>,
    state: &mut KeyboardStateManager,
) -> (effects: Vec<Effect>)
    ensures
        (final(state)@, effects@) == ended(reason, old(state)@),
{
    match reason {
        Some(Shutdown::Reopening) => Vec::new(),
        _ => state.set_usb_keyboard_attached(false),
    }
}

/// What a report of the endpoint asks for: six bytes, of which the second is the code of a key.
pub open spec fn usb_key_action(data: Seq<u8>) -> KeyAction {
    if data.len() == 6 && data == seq![90, data[1], 0, 0, 0, 0] {
        keyboard::action_of(data[1] as int)
    } else {
        KeyAction::ReleaseAllKeys
    }
}

/// What a report of the endpoint asks for.
pub fn parse_keyboard_data(data: &[u8]) -> (action: KeyAction)
    ensures
        action == usb_key_action(data@),
{
    if data.len() != 6 {
        return KeyAction::ReleaseAllKeys;
    }
    let ghost expected = seq![90u8, data@[1], 0, 0, 0, 0];
    if data[0] != 90 || data[2] != 0 || data[3] != 0 || data[4] != 0 || data[5] != 0 {
        assert(data@[0] != expected[0] || data@[2] != expected[2] || data@[3] != expected[3]
            || data@[4] != expected[4] || data@[5] != expected[5]);
        return KeyAction::ReleaseAllKeys;
    }
    assert(data@ == expected);
    keyboard::key_action(data[1] as i32)
}

/// What the task that reads the endpoint waits for.
#[derive(Debug)]
pub enum ReceiveInput {
    /// The task is to end, for this reason where there is one.
    Shutdown(Option<Shutdown>),
    /// A transfer was completed, with this data.
    Data(Vec<u8>),
    /// A transfer failed.
    Failed,
}

/// What the task that reads the endpoint does next.
#[derive(Debug, Clone, Copy, PartialEq, Eq, Structural)]
pub enum ReceiveStep {
    /// Release every key of the virtual keyboard, and end.
    End,
    /// Note that the user is active, which nobody else does for this endpoint, then do what the
    /// key asks for.
    Key(KeyAction),
    /// Wait this many milliseconds.
    Wait(u64),
}

/// What the task that reads the endpoint does on `input`, and what has to be done before that.
pub open spec fn receive_step_on(input: ReceiveInput, state: InnerState) -> (
    ReceiveStep,
    (InnerState, Seq<Effect>),
) {
    match input {
        ReceiveInput::Shutdown(reason) => (ReceiveStep::End, ended(reason, state)),
        ReceiveInput::Data(data) => (
            ReceiveStep::Key(usb_key_action(data@)),
            (state, Seq::empty()),
        ),
        ReceiveInput::Failed => (
            ReceiveStep::Wait(TRANSFER_RETRY_DELAY_MS),
            (state, Seq::empty()),
        ),
    }
}

/// What the task that reads the endpoint does on `input`, and what has to be done before that.
pub fn receive_step(input: &ReceiveInput, state: &mut KeyboardStateManager) -> (r: (
    ReceiveStep,
    Vec<Effect>,
))
    ensures
        (r.0, (final(state)@, r.1@)) == (match *input {
            ReceiveInput::Shutdown(reason) => (ReceiveStep::End, ended(reason, old(state)@)),
            ReceiveInput::Data(data) => (
                ReceiveStep::Key(usb_key_action(data@)),
                (old(state)@, Seq::empty()),
            ),
            ReceiveInput::Failed => (
                ReceiveStep::Wait(TRANSFER_RETRY_DELAY_MS),
                (old(state)@, Seq::empty()),
            ),
        }),
        (r.0, (final(state)@, r.1@)) == receive_step_on(*input, old(state)@),
{
    match input {
        ReceiveInput::Shutdown(reason) => (
            ReceiveStep::End,
            end_usb_keyboard_task(*reason, state),
        ),
        ReceiveInput::Data(data) => (
            ReceiveStep::Key(parse_keyboard_data(data.as_slice())),
            Vec::new(),
        ),
        ReceiveInput::Failed => (ReceiveStep::Wait(TRANSFER_RETRY_DELAY_MS), Vec::new()),
    }
}

/// How many more steps `start` can take.
pub open spec fn steps_left(start: UsbStart) -> nat {
    match start {
        UsbStart::Open => 8,
        UsbStart::Claim => 7,
        UsbStart::OpenEndpoint => 6,
        UsbStart::NotifyActivity => 5,
        UsbStart::SetFnLock(_) => 4,
        UsbStart::ReadBacklight => 3,
        UsbStart::SendBacklight(_) => 2,
        UsbStart::SendMicMute(_) => 1,
        UsbStart::Run => 0,
        UsbStart::GiveUp => 0,
    }
}

/// Starting a task ends, in running it or in giving up, after eight steps at most.
pub proof fn law_usb_start_ends(
    start: UsbStart,
    outcome: Outcome,
    fn_lock: Option<bool>,
    state: InnerState,
)
    ensures
        start is Run || start is GiveUp || steps_left(
            usb_start_after(start, outcome, fn_lock, state).0,
        ) < steps_left(start),
        steps_left(start) == 0 <==> start is Run || start is GiveUp,
{
}

/// A device that cannot be opened, claimed or listened to leaves the state alone: the task is
/// given up at once, and only then.
pub proof fn law_unusable_device_changes_nothing(
    start: UsbStart,
    outcome: Outcome,
    fn_lock: Option<bool>,
    state: InnerState,
)
    requires
        !(start is GiveUp),
    ensures
        usb_start_after(start, outcome, fn_lock, state).0 is GiveUp <==> outcome is Failed && (start
            is Open || start is Claim || start is OpenEndpoint),
        usb_start_after(start, outcome, fn_lock, state).0 is GiveUp ==> usb_start_after(
            start,
            outcome,
            fn_lock,
            state,
        ).1 == (state, Seq::<Effect>::empty()),
{
}

/// The backlight of a keyboard that connects is only ever set to the level to be shown, and only
/// where the keyboard does not tell its own and the user's is known.
pub proof fn law_unknown_level_is_left_alone(
    start: UsbStart,
    outcome: Outcome,
    fn_lock: Option<bool>,
    state: InnerState,
)
    ensures
        usb_start_after(start, outcome, fn_lock, state).0 matches UsbStart::SendBacklight(level)
            ==> start is ReadBacklight && !(outcome is Read) && state.backlight_known && level
            == state.shown_backlight(),
{
}

/// The microphone mute LED is always restored, to what is to be shown: a task runs only after
/// that. The function key mode is only ever set to what was asked for.
pub proof fn law_wired_keyboard_is_restored(
    start: UsbStart,
    outcome: Outcome,
    fn_lock: Option<bool>,
    state: InnerState,
)
    ensures
        ({
            let next = usb_start_after(start, outcome, fn_lock, state).0;
            &&& next is Run ==> start is SendMicMute || start is Run
            &&& next matches UsbStart::SendMicMute(lit) ==> lit == state.shown_mic_mute_led()
            &&& next matches UsbStart::SetFnLock(locked) ==> fn_lock == Some(locked)
            &&& start is NotifyActivity && fn_lock is Some ==> next is SetFnLock
        }),
{
}

/// Whether the endpoint of the keyboard is open.
pub open spec fn is_open(start: UsbStart) -> bool {
    !(start is Open || start is Claim || start is OpenEndpoint || start is GiveUp)
}

/// The keyboard is attached once its endpoint is open, and stays so while the task is started.
pub proof fn law_open_keyboard_is_attached(
    start: UsbStart,
    outcome: Outcome,
    fn_lock: Option<bool>,
    state: InnerState,
)
    requires
        is_open(start) ==> state.is_usb_attached,
    ensures
        ({
            let after = usb_start_after(start, outcome, fn_lock, state);
            is_open(after.0) ==> after.1.0.is_usb_attached
        }),
{
}

/// Closing an attached keyboard to open it again, and opening it, leaves the state as it was.
/// Closing it for another reason turns the secondary display on.
pub proof fn law_reopening_keeps_the_keyboard_attached(state: InnerState, reason: Option<Shutdown>)
    requires
        state.wf(),
        state.is_usb_attached,
    ensures
        ended(Some(Shutdown::Reopening), state) == (state, Seq::<Effect>::empty()),
        usb_start_after(
            UsbStart::OpenEndpoint,
            Outcome::Succeeded,
            None,
            ended(Some(Shutdown::Reopening), state).0,
        ).1.0 == state,
        reason != Some(Shutdown::Reopening) ==> ended(
            reason,
            state,
        ).0.is_secondary_display_enabled,
{
}

/// What is to be done when `failures` attempts to open the keyboard again have failed.
pub open spec fn reopen_after(failures: nat) -> (ReopenStep, nat)
    decreases failures,
{
    if failures == 0 {
        reopen_step(ReopenInput::Closed, reopen_step(ReopenInput::Begin, 0).1)
    } else {
        reopen_step(ReopenInput::Failed, reopen_after((failures - 1) as nat).1)
    }
}

/// The task that runs is told first, once, that the keyboard is about to be opened again, and
/// never that it is detached. Then the keyboard is looked for ten times, and given up; a task that
/// was started ends the search at any time.
pub proof fn law_reopening_is_tried_ten_times(failures: nat, id: u64, input: ReopenInput)
    ensures
        reopen_step(input, failures).0 matches ReopenStep::Shutdown(reason) ==> reason
            == Shutdown::Reopening && input is Begin,
        reopen_step(ReopenInput::Begin, 0).0 == ReopenStep::Shutdown(Shutdown::Reopening),
        failures < REOPEN_ATTEMPTS ==> reopen_after(failures) == (
            ReopenStep::TryAfter(REOPEN_RETRY_DELAY_MS),
            failures + 1,
        ),
        failures >= REOPEN_ATTEMPTS ==> reopen_after(failures) == (
            ReopenStep::GaveUp,
            REOPEN_ATTEMPTS as nat,
        ),
        reopen_step(ReopenInput::Started(id), reopen_after(failures).1).0 == ReopenStep::Reopened(
            id,
        ),
    decreases failures,
{
    if failures > 0 {
        law_reopening_is_tried_ten_times((failures - 1) as nat, id, input);
    }
}

/// What leads to each step of setting a keyboard up, and that nothing else does. It is opened,
/// claimed and listened to, each only after the one before has succeeded; then, whatever fails, the
/// user is active, the function key mode is set where one is asked for, the level is read back, a
/// known level is sent to a keyboard that did not tell its own, the LED is set, and the task runs.
pub proof fn law_wired_keyboard_is_set_up_in_order(
    start: UsbStart,
    outcome: Outcome,
    fn_lock: Option<bool>,
    state: InnerState,
    locked: bool,
    level: KeyboardBacklightState,
    lit: bool,
)
    ensures
        ({
            let next = usb_start_after(start, outcome, fn_lock, state).0;
            let is_sent = !(outcome is Read) && state.backlight_known;
            let shown = if state.is_suspended || state.is_idle {
                KeyboardBacklightState::Off
            } else {
                state.backlight
            };
            &&& !(next is Open)
            &&& next is Claim <==> start is Open && !(outcome is Failed)
            &&& next is OpenEndpoint <==> start is Claim && !(outcome is Failed)
            &&& next is NotifyActivity <==> start is OpenEndpoint && !(outcome is Failed)
            &&& next == UsbStart::SetFnLock(locked) <==> start is NotifyActivity && fn_lock == Some(
                locked,
            )
            &&& next is ReadBacklight <==> start is SetFnLock || (start is NotifyActivity && fn_lock
                is None)
            &&& next == UsbStart::SendBacklight(level) <==> start is ReadBacklight && is_sent
                && level == shown
            &&& next == UsbStart::SendMicMute(lit) <==> (start is SendBacklight || (start
                is ReadBacklight && !is_sent)) && lit == (state.mic_mute_led
                && !state.is_suspended)
            &&& next is Run <==> start is SendMicMute || start is Run
            &&& next is GiveUp <==> start is GiveUp || (outcome is Failed && (start is Open || start
                is Claim || start is OpenEndpoint))
        }),
{
}

/// A keyboard that hands its level back when it is attached is believed: the level is the user's
/// from then on, and known, and is saved where it is another than before. So the next press of the
/// backlight key goes on from there, and the LED does not write another level over it.
pub proof fn law_wired_level_is_adopted(
    level: KeyboardBacklightState,
    fn_lock: Option<bool>,
    state: InnerState,
)
    ensures
        ({
            let after = usb_start_after(
                UsbStart::ReadBacklight,
                Outcome::Read(level),
                fn_lock,
                state,
            );
            &&& after.0 is SendMicMute
            &&& after.1.0.backlight == level
            &&& after.1.0.backlight_known
            &&& after.1.0 == (InnerState { backlight: level, backlight_known: true, ..state })
            &&& state.backlight != level ==> after.1.1 == seq![Effect::Save(level)]
            &&& state.backlight == level ==> after.1.1 == Seq::<Effect>::empty()
            &&& after.1.0.keyboard_backlight_toggled().0.backlight == level.following()
        }),
{
}

/// Setting a keyboard up changes the state twice at most: it is attached once its endpoint is open,
/// which turns the second display off and tells so, and the level that it hands back is adopted. No
/// other step, and no failure, changes or tells anything.
pub proof fn law_setting_up_changes_no_more(
    start: UsbStart,
    outcome: Outcome,
    fn_lock: Option<bool>,
    state: InnerState,
)
    ensures
        ({
            let after = usb_start_after(start, outcome, fn_lock, state).1;
            if start is OpenEndpoint && !(outcome is Failed) {
                &&& after.0 == (InnerState {
                    is_usb_attached: true,
                    is_secondary_display_enabled: false,
                    ..state
                })
                &&& after.1 == seq![Effect::Emit(crate::events::Event::SecondaryDisplay(false))]
            } else {
                start is ReadBacklight && outcome is Read || after == (state, Seq::<Effect>::empty())
            }
        }),
{
}

/// The first keyboard among the devices is found, by vendor and product, and any one where there is
/// one.
pub proof fn law_first_wired_keyboard_is_found(devices: Seq<UsbDevice>, model: KeyboardModel)
    ensures
        wired_keyboard(devices, model) matches Some(device) ==> exists|i: int|
            0 <= i < devices.len() && #[trigger] devices[i] == device && device.vendor_id
                == model.vendor_id && device.product_id == model.product_id && forall|j: int|
                0 <= j < i ==> (#[trigger] devices[j]).vendor_id != model.vendor_id
                    || devices[j].product_id != model.product_id,
        wired_keyboard(devices, model) is None ==> forall|i: int|
            0 <= i < devices.len() ==> (#[trigger] devices[i]).vendor_id != model.vendor_id
                || devices[i].product_id != model.product_id,
    decreases devices.len(),
{
    if devices.len() > 0 && !model.is_model_of(devices.first()) {
        let rest = devices.drop_first();
        law_first_wired_keyboard_is_found(rest, model);
        if let Some(device) = wired_keyboard(devices, model) {
            let i = choose|i: int|
                0 <= i < rest.len() && #[trigger] rest[i] == device && device.vendor_id
                    == model.vendor_id && device.product_id == model.product_id && forall|j: int|
                    0 <= j < i ==> (#[trigger] rest[j]).vendor_id != model.vendor_id
                        || rest[j].product_id != model.product_id;
            assert(devices[i + 1] == rest[i]);
            assert forall|j: int| 0 <= j < i + 1 implies (#[trigger] devices[j]).vendor_id
                != model.vendor_id || devices[j].product_id != model.product_id by {
                if j > 0 {
                    assert(devices[j] == rest[j - 1]);
                }
            }
        } else {
            assert forall|j: int| 0 <= j < devices.len() implies (#[trigger] devices[j]).vendor_id
                != model.vendor_id || devices[j].product_id != model.product_id by {
                if j > 0 {
                    assert(devices[j] == rest[j - 1]);
                }
            }
        }
    } else if devices.len() > 0 {
        assert(devices[0] == devices.first());
    }
}

/// The monitor starts a task on every keyboard that is connected and on nothing else, shuts the
/// task down exactly where its own device is gone, opens it again exactly where one runs, and stops
/// only where nothing can happen any more.
pub proof fn law_monitor_follows_its_keyboard(monitor: UsbKeyboardMonitor, input: MonitorInput)
    ensures
        ({
            let step = monitor.step_on(input);
            &&& step is Start <==> (input matches MonitorInput::Connected(device)
                && device.vendor_id == monitor.model.vendor_id && device.product_id
                == monitor.model.product_id)
            &&& step matches MonitorStep::Start(device) ==> input == MonitorInput::Connected(device)
            &&& step is Shutdown <==> (input matches MonitorInput::Disconnected(id)
                && monitor.current == Some(id))
            &&& step matches MonitorStep::Shutdown(reason) ==> reason == Shutdown::Detached
            &&& step is Reopen <==> input is ReconnectRequested && monitor.current is Some
            &&& step is Stop <==> input is WatchEnded || input is ReconnectClosed
        }),
{
}

/// The monitor knows of the task that was started last, until it shuts it down or opens it again.
pub proof fn law_monitor_knows_its_task(monitor: UsbKeyboardMonitor, input: MonitorInput)
    ensures
        ({
            let step = monitor.step_on(input);
            let current = monitor.current_after(input);
            &&& input matches MonitorInput::Started(id) ==> current == id
            &&& step is Shutdown || step is Reopen ==> current is None
            &&& !(input is Started) && !(step is Shutdown) && !(step is Reopen) ==> current
                == monitor.current
        }),
{
}

/// Reports are written to and read from the same place: the feature report of the keyboard's
/// interface whose number every frame begins with, all of it.
pub proof fn law_requests_address_the_vendor_report(
    data: Seq<u8>,
    level: KeyboardBacklightState,
    enabled: bool,
)
    ensures
        report_write(data).data == data,
        report_write(data).value == report_read().value,
        report_write(data).index == report_read().index,
        report_read().index == INTERFACE,
        report_read().value / 256 == 3,
        report_read().value % 256 == hidraw::backlight_frame(level)[0],
        report_read().value % 256 == hidraw::mic_mute_frame(enabled)[0],
        report_read().length == hidraw::backlight_frame(level).len(),
        report_write(data).request == 9,
        report_read().request == 1,
        report_write(data).timeout_ms == 100,
        report_read().timeout_ms == 100,
{
}

/// What is written over USB to set a light is a report to that place, and is read back as what was
/// asked for. Over Bluetooth the same bytes are written.
pub proof fn law_wired_writes_set_what_was_asked_for(
    level: KeyboardBacklightState,
    enabled: bool,
    nodes: Seq<hidraw::HidrawNode>,
)
    ensures
        backlight_write(level) == report_write(backlight_write(level).data),
        hidraw::level_reported(backlight_write(level).data) == Some(level),
        reply_outcome(Some(backlight_write(level).data)) == Outcome::Read(level),
        mic_mute_write(enabled) == report_write(mic_mute_write(enabled).data),
        mic_mute_write(enabled).data.len() == 16,
        mic_mute_write(enabled).data.take(3) == seq![0x5au8, 0xd0, 0x7c],
        mic_mute_write(enabled).data[3] == 1 <==> enabled,
        hidraw::backlight_write(level, nodes) matches Some((_, data)) ==> data == backlight_write(
            level,
        ).data,
        hidraw::mic_mute_write(enabled, nodes) matches Some((_, data)) ==> data == mic_mute_write(
            enabled,
        ).data,
{
    hidraw::law_backlight_is_read_back(level, enabled);
    assert(hidraw::mic_mute_frame(enabled).take(3) == seq![0x5au8, 0xd0, 0x7c]);
}

/// A reply tells a level exactly where it is a report that carries it; a request that fails, and a
/// report of another kind, tell none.
pub proof fn law_reply_tells_the_level(reply: Option<Seq<u8>>, level: KeyboardBacklightState)
    ensures
        reply_outcome(reply) == Outcome::Read(level) <==> reply is Some && hidraw::level_reported(
            reply->0,
        ) == Some(level),
        reply_outcome(reply) is Read || reply_outcome(reply) is Failed,
{
}

/// There are always three transfers in flight, or as many more as there were.
pub proof fn law_three_transfers_are_in_flight(pending: nat)
    ensures
        pending + transfers_wanted(pending) >= 3,
        pending >= 3 <==> transfers_wanted(pending) == 0,
        pending < 3 ==> pending + transfers_wanted(pending) == 3,
{
}

/// A task that ends leaves the keyboard attached where it is about to be opened again. Else the
/// keyboard is detached, the second display is on and told to be, and nothing else has changed.
pub proof fn law_ending_detaches_unless_reopening(reason: Option<Shutdown>, state: InnerState)
    ensures
        reason == Some(Shutdown::Reopening) ==> ended(reason, state) == (
            state,
            Seq::<Effect>::empty(),
        ),
        reason != Some(Shutdown::Reopening) ==> ended(reason, state) == (
            InnerState { is_usb_attached: false, is_secondary_display_enabled: true, ..state },
            seq![Effect::Emit(crate::events::Event::SecondaryDisplay(true))],
        ),
{
}

/// A report of the endpoint asks for a key exactly where it is six bytes long, begins with 90, has
/// the key's code second and zeros after it. All else asks for no key to be down.
pub proof fn law_key_reports_are_six_bytes(data: Seq<u8>, key: keyboard::FunctionKey)
    ensures
        usb_key_action(data) == KeyAction::Execute(key) <==> {
            &&& data.len() == 6
            &&& data[0] == 90
            &&& keyboard::action_of(data[1] as int) == KeyAction::Execute(key)
            &&& data[2] == 0
            &&& data[3] == 0
            &&& data[4] == 0
            &&& data[5] == 0
        },
{
    if data.len() == 6 {
        let expected = seq![90u8, data[1], 0, 0, 0, 0];
        if data[0] == 90 && data[2] == 0 && data[3] == 0 && data[4] == 0 && data[5] == 0 {
            assert(data == expected);
        } else {
            assert(data[0] != expected[0] || data[2] != expected[2] || data[3] != expected[3]
                || data[4] != expected[4] || data[5] != expected[5]);
        }
    }
}

/// Only the end of the task changes the state. Every report that was read is a key that is carried
/// out; a failure is waited out, and ends nothing.
pub proof fn law_receiving_ends_only_on_shutdown(input: ReceiveInput, state: InnerState)
    ensures
        ({
            let after = receive_step_on(input, state);
            &&& after.0 is End <==> input is Shutdown
            &&& input matches ReceiveInput::Shutdown(reason) ==> after.1 == ended(reason, state)
            &&& !(input is Shutdown) ==> after.1 == (state, Seq::<Effect>::empty())
            &&& input matches ReceiveInput::Data(data) ==> after.0 == ReceiveStep::Key(
                usb_key_action(data@),
            )
            &&& after.0 is Key <==> input is Data
            &&& input is Failed ==> after.0 == ReceiveStep::Wait(100)
        }),
{
}

} // verus!
