//! The keyboard over Bluetooth, where it is an input device like any other.
use crate::events::Effect;
use crate::keyboard;
use crate::keyboard::{FunctionKey, KeyAction, Outcome};
use crate::keyboard_usb;
use crate::state::{InnerState, KeyboardBacklightState, KeyboardStateManager};
use crate::text;
use vstd::prelude::*;
use vstd::string::StringExecFns;

verus! {

/// Where the input devices are.
pub const INPUT_DIRECTORY: &'static str = "/dev/input/";

/// How the name of an event node begins.
pub const EVENT_NODE_PREFIX: &'static str = "event";

/// The name of the keyboard. It has this name only while it is connected over Bluetooth,
/// which is desired.
pub const KEYBOARD_NAME: &'static str = "ASUS Zenbook Duo Keyboard";

/// How long to wait after an event that could not be read.
pub const READ_RETRY_DELAY_MS: u64 = 100;

/// The bit by which a directory watch reports a file as new.
pub const CREATED: u32 = 0x100;

/// The type of an event of an absolute axis.
pub const EV_ABS: u16 = 3;

/// The axis on which the keyboard reports its function keys.
pub const ABS_MISC: u16 = 0x28;

/// The error number of a device that is gone.
pub const ENODEV: i32 = 19;

/// Whether `name` is the name of an event node.
pub open spec fn is_event_node(name: Seq<char>) -> bool {
    EVENT_NODE_PREFIX@.is_prefix_of(name)
}

/// The path of an event node that a directory watch reports as new. `name` is `None` where the
/// report names no file, or one whose name is no text; `mask` says what happened to the file.
pub open spec fn created_node(name: Option<Seq<char>>, mask: u32) -> Option<Seq<char>> {
    match name {
        Some(name) => if mask & CREATED == CREATED && is_event_node(name) {
            Some(INPUT_DIRECTORY@ + name)
        } else {
            None
        },
        None => None,
    }
}

/// The path of an event node that a directory watch reports as new.
pub fn created_event_node(name: Option<&str>, mask: u32) -> (path: Option<String>)
    ensures
        text::optional_string(path) == created_node(text::optional_text(name), mask),
{
    match name {
        Some(name) => if mask & CREATED == CREATED && text::starts_with(name, EVENT_NODE_PREFIX) {
            Some(String::from_str(INPUT_DIRECTORY).concat(name))
        } else {
            None
        },
        None => None,
    }
}

/// What the monitor of Bluetooth keyboards waits for.
#[derive(Debug)]
pub enum BtMonitorInput {
    /// Nothing was done yet.
    Begin,
    /// The paths that the listing of `INPUT_DIRECTORY` gave; `None` where it cannot be listed.
    Listed(Option<Vec<String>>),
    /// The watch reports something of a file in `INPUT_DIRECTORY`.
    Reported { name: Option<String>, mask: u32 },
    /// A report of the watch cannot be read.
    Unreadable,
    /// The watch reports nothing any more.
    Ended,
}

/// What the monitor of Bluetooth keyboards does next.
#[derive(Debug)]
pub enum BtMonitorStep {
    /// List `INPUT_DIRECTORY`.
    List,
    /// Look whether each of these is the keyboard, in order, and start a task on each that is.
    /// Then wait for the watch.
    Try(Vec<String>),
    /// Wait for the watch.
    Wait,
    /// End.
    Stop,
}

/// What an input of the monitor holds.
pub enum BtMonitorInputView {
    Begin,
    Listed(Option<Seq<Seq<char>>>),
    Reported { name: Option<Seq<char>>, mask: u32 },
    Unreadable,
    Ended,
}

/// What a step of the monitor holds.
pub enum BtMonitorStepView {
    List,
    Try(Seq<Seq<char>>),
    Wait,
    Stop,
}

/// The characters of each string.
pub open spec fn texts(strings: Seq<String>) -> Seq<Seq<char>> {
    Seq::new(strings.len(), |i: int| strings[i]@)
}

impl View for BtMonitorInput {
    type V = BtMonitorInputView;

    open spec fn view(&self) -> BtMonitorInputView {
        match self {
            BtMonitorInput::Begin => BtMonitorInputView::Begin,
            BtMonitorInput::Listed(Some(paths)) => BtMonitorInputView::Listed(Some(texts(paths@))),
            BtMonitorInput::Listed(None) => BtMonitorInputView::Listed(None),
            BtMonitorInput::Reported { name, mask } => BtMonitorInputView::Reported {
                name: text::optional_string(*name),
                mask: *mask,
            },
            BtMonitorInput::Unreadable => BtMonitorInputView::Unreadable,
            BtMonitorInput::Ended => BtMonitorInputView::Ended,
        }
    }
}

impl View for BtMonitorStep {
    type V = BtMonitorStepView;

    open spec fn view(&self) -> BtMonitorStepView {
        match self {
            BtMonitorStep::List => BtMonitorStepView::List,
            BtMonitorStep::Try(paths) => BtMonitorStepView::Try(texts(paths@)),
            BtMonitorStep::Wait => BtMonitorStepView::Wait,
            BtMonitorStep::Stop => BtMonitorStepView::Stop,
        }
    }
}

/// What the monitor does on `input`. It tries every device that is there, and then every one that
/// appears. A directory that cannot be listed ends it for good; a report that cannot be read is
/// passed over.
pub open spec fn bt_monitor_step_on(input: BtMonitorInputView) -> BtMonitorStepView {
    match input {
        BtMonitorInputView::Begin => BtMonitorStepView::List,
        BtMonitorInputView::Listed(Some(paths)) => BtMonitorStepView::Try(paths),
        BtMonitorInputView::Listed(None) => BtMonitorStepView::Stop,
        BtMonitorInputView::Reported { name, mask } => match created_node(name, mask) {
            Some(path) => BtMonitorStepView::Try(seq![path]),
            None => BtMonitorStepView::Wait,
        },
        BtMonitorInputView::Unreadable => BtMonitorStepView::Wait,
        BtMonitorInputView::Ended => BtMonitorStepView::Stop,
    }
}

/// What the monitor does on `input`.
pub fn bt_monitor_step(input: BtMonitorInput) -> (step: BtMonitorStep)
    ensures
        step@ == bt_monitor_step_on(input@),
{
    match input {
        BtMonitorInput::Begin => BtMonitorStep::List,
        BtMonitorInput::Listed(Some(paths)) => BtMonitorStep::Try(paths),
        BtMonitorInput::Listed(None) => BtMonitorStep::Stop,
        BtMonitorInput::Reported { name, mask } => {
            let created = match &name {
                Some(name) => created_event_node(Some(name.as_str()), mask),
                None => None,
            };
            match created {
                Some(path) => {
                    let paths = vec![path];
                    assert(texts(paths@) == seq![path@]);
                    BtMonitorStep::Try(paths)
                },
                None => BtMonitorStep::Wait,
            }
        },
        BtMonitorInput::Unreadable => BtMonitorStep::Wait,
        BtMonitorInput::Ended => BtMonitorStep::Stop,
    }
}

/// Whether a node is worth opening.
pub open spec fn is_worth_opening(is_directory: Option<bool>, file_name: Option<Seq<char>>) -> bool {
    is_directory == Some(false) && file_name is Some && is_event_node(file_name->0)
}

/// Whether a device of this name is the keyboard.
pub open spec fn is_keyboard_name(device_name: Option<Seq<char>>) -> bool {
    device_name == Some(KEYBOARD_NAME@)
}

/// What to do about an event that could not be read.
pub open spec fn failure_of(os_error: Option<i32>) -> ReadFailure {
    if os_error == Some(ENODEV) {
        ReadFailure::Disconnected
    } else {
        ReadFailure::RetryAfter(READ_RETRY_DELAY_MS)
    }
}

/// Whether a node is worth opening. `is_directory` is `None` where nothing is known of the
/// node, `file_name` where its path ends in no name that is text.
pub fn is_input_device(is_directory: Option<bool>, file_name: Option<&str>) -> (r: bool)
    ensures
        r <==> is_directory == Some(false) && file_name is Some && is_event_node(file_name->0@),
        r == is_worth_opening(is_directory, text::optional_text(file_name)),
{
    match (is_directory, file_name) {
        (Some(false), Some(name)) => text::starts_with(name, EVENT_NODE_PREFIX),
        _ => false,
    }
}

/// Whether an input device is the keyboard. A device may have no name.
pub fn is_keyboard(device_name: Option<&str>) -> (r: bool)
    ensures
        r <==> device_name is Some && device_name->0@ == KEYBOARD_NAME@,
        r == is_keyboard_name(text::optional_text(device_name)),
{
    match device_name {
        Some(name) => text::same_text(name, KEYBOARD_NAME),
        None => false,
    }
}

/// What a task on a Bluetooth keyboard has to do before it runs, one after another.
#[derive(Debug, Clone, Copy, PartialEq, Eq, Structural)]
pub enum BtStart {
    /// Note that the user is active.
    NotifyActivity,
    /// Read the backlight level.
    ReadBacklight,
    /// Set the backlight.
    SendBacklight(KeyboardBacklightState),
    /// Set the microphone mute LED.
    SendMicMute(bool),
    /// Set the function key mode.
    SetFnLock(bool),
    /// Run.
    Run,
}

impl BtStart {
    /// What comes first.
    pub fn first() -> (start: BtStart)
        ensures
            start == BtStart::NotifyActivity,
    {
        BtStart::NotifyActivity
    }
}

/// What follows `start` when it has come to `outcome`, in `state`.
///
/// The keyboard keeps its backlight across a restart of the daemon, so the level is read back
/// rather than set: nothing here changes what the user last chose. The microphone mute LED is
/// different, it follows the mute state of this run. `fn_lock` is the function key mode to
/// set; without one, it stays as it is.
pub open spec fn bt_start_after(
    start: BtStart,
    outcome: Outcome,
    fn_lock: Option<bool>,
    state: InnerState,
) -> (BtStart, (InnerState, Seq<Effect>)) {
    let unchanged = (state, Seq::<Effect>::empty());
    let send_mic_mute = BtStart::SendMicMute(state.shown_mic_mute_led());
    match start {
        BtStart::NotifyActivity => (BtStart::ReadBacklight, unchanged),
        BtStart::ReadBacklight => match keyboard::restored_backlight(outcome, state) {
            Some(level) => (BtStart::SendBacklight(level), unchanged),
            None => (send_mic_mute, keyboard::read_back(outcome, state)),
        },
        BtStart::SendBacklight(_) => (send_mic_mute, unchanged),
        BtStart::SendMicMute(_) => match fn_lock {
            Some(locked) => (BtStart::SetFnLock(locked), unchanged),
            None => (BtStart::Run, unchanged),
        },
        BtStart::SetFnLock(_) => (BtStart::Run, unchanged),
        BtStart::Run => (BtStart::Run, unchanged),
    }
}

/// What follows `start` when it has come to `outcome`, and what has to be done because of it.
pub fn start_bt_keyboard_task(
    start: BtStart,
    outcome: Outcome,
    fn_lock: Option<bool>,
    state: &mut KeyboardStateManager,
) -> (r: (BtStart, Vec<Effect>))
    ensures
        (r.0, (final(state)@, r.1@)) == bt_start_after(start, outcome, fn_lock, old(state)@),
{
    match start {
        BtStart::NotifyActivity => (BtStart::ReadBacklight, Vec::new()),
        BtStart::ReadBacklight => match keyboard::backlight_to_restore(outcome, state) {
            Some(level) => (BtStart::SendBacklight(level), Vec::new()),
            None => {
                let effects = keyboard::resync_backlight(outcome, state);
                (BtStart::SendMicMute(state.get_mic_mute_led()), effects)
            },
        },
        BtStart::SendBacklight(_) => (
            BtStart::SendMicMute(state.get_mic_mute_led()),
            Vec::new(),
        ),
        BtStart::SendMicMute(_) => match fn_lock {
            Some(locked) => (BtStart::SetFnLock(locked), Vec::new()),
            None => (BtStart::Run, Vec::new()),
        },
        BtStart::SetFnLock(_) => (BtStart::Run, Vec::new()),
        BtStart::Run => (BtStart::Run, Vec::new()),
    }
}

/// What to do about an event that could not be read.
#[derive(Debug, Clone, Copy, PartialEq, Eq, Structural)]
pub enum ReadFailure {
    /// The keyboard is gone: release every key of the virtual keyboard, and end.
    Disconnected,
    /// Try again after this many milliseconds.
    RetryAfter(u64),
}

/// What to do about an event that could not be read. `os_error` is the error number of the
/// system, where it has one.
pub fn read_failure(os_error: Option<i32>) -> (failure: ReadFailure)
    ensures
        failure == (if os_error == Some(ENODEV) {
            ReadFailure::Disconnected
        } else {
            ReadFailure::RetryAfter(READ_RETRY_DELAY_MS)
        }),
        failure == failure_of(os_error),
{
    match os_error {
        Some(error) => if error == ENODEV {
            ReadFailure::Disconnected
        } else {
            ReadFailure::RetryAfter(READ_RETRY_DELAY_MS)
        },
        None => ReadFailure::RetryAfter(READ_RETRY_DELAY_MS),
    }
}

/// An event of an input device.
#[derive(Debug, Clone, Copy, PartialEq, Eq, Structural)]
pub struct InputEvent {
    pub event_type: u16,
    pub code: u16,
    pub value: i32,
}

/// What an event of the keyboard asks for.
#[derive(Debug, Clone, Copy, PartialEq, Eq, Structural)]
pub struct KeyStep {
    /// Whether the backlight level is first read back from the keyboard, and taken over.
    pub resync_backlight: bool,
    pub action: KeyAction,
}

/// What an event of the keyboard asks for. Function keys are reported on one axis; all else
/// is left to the system. The backlight key cycles from the level that the keyboard is at,
/// because after a restart the daemon's idea of it is a guess.
pub open spec fn bt_key_step(event: InputEvent) -> Option<KeyStep> {
    if event.event_type == EV_ABS && event.code == ABS_MISC {
        let action = keyboard::action_of(event.value as int);
        Some(
            KeyStep {
                resync_backlight: action == KeyAction::Execute(FunctionKey::KeyboardBacklight),
                action,
            },
        )
    } else {
        None
    }
}

/// What an event of the keyboard asks for.
pub fn parse_keyboard_event(event: &InputEvent) -> (step: Option<KeyStep>)
    ensures
        step == bt_key_step(*event),
{
    if event.event_type != EV_ABS || event.code != ABS_MISC {
        return None;
    }
    let action = keyboard::key_action(event.value);
    let resync_backlight = match action {
        KeyAction::Execute(FunctionKey::KeyboardBacklight) => true,
        _ => false,
    };
    Some(KeyStep { resync_backlight, action })
}

/// The paths that the monitor tries, in order, where the listing gives `listed` and the watch then
/// says `reports`.
pub open spec fn tried(listed: Option<Seq<Seq<char>>>, reports: Seq<BtMonitorInputView>) -> Seq<
    Seq<char>,
>
    decreases reports.len(),
{
    if bt_monitor_step_on(BtMonitorInputView::Listed(listed)) is Stop {
        Seq::empty()
    } else if reports.len() == 0 {
        match bt_monitor_step_on(BtMonitorInputView::Listed(listed)) {
            BtMonitorStepView::Try(paths) => paths,
            _ => Seq::empty(),
        }
    } else {
        let before = tried(listed, reports.drop_last());
        match bt_monitor_step_on(reports.last()) {
            BtMonitorStepView::Try(paths) => before + paths,
            _ => before,
        }
    }
}

/// Where the directory cannot be listed nothing is ever tried. Else every listed path is tried
/// once, before any other; then each new event node, once for each report of it, and nothing else.
pub proof fn law_every_device_is_tried_once(
    listed: Seq<Seq<char>>,
    reports: Seq<BtMonitorInputView>,
    report: BtMonitorInputView,
)
    ensures
        tried(None, reports) == Seq::<Seq<char>>::empty(),
        tried(Some(listed), Seq::empty()) == listed,
        listed.is_prefix_of(tried(Some(listed), reports)),
        !(report is Listed) ==> tried(Some(listed), reports.push(report)) == (match report {
            BtMonitorInputView::Reported { name, mask } if created_node(
                name,
                mask,
            ) is Some => tried(Some(listed), reports).push(created_node(name, mask)->0),
            _ => tried(Some(listed), reports),
        }),
    decreases reports.len(),
{
    assert(reports.push(report).drop_last() == reports);
    if reports.len() > 0 {
        law_every_device_is_tried_once(listed, reports.drop_last(), report);
    }
}

/// What came of reading an event of the keyboard.
#[derive(Debug, Clone, Copy, PartialEq, Eq, Structural)]
pub enum BtReceiveInput {
    /// This event.
    Event(InputEvent),
    /// It could not be read. The system may have an error number for that.
    Failed(Option<i32>),
}

/// What the task that reads the events of the keyboard does.
#[derive(Debug, Clone, Copy, PartialEq, Eq, Structural)]
pub enum BtReceiveAction {
    /// Read the backlight level back from the keyboard, and take it over.
    ResyncBacklight,
    /// Do what the key asks for.
    Key(KeyAction),
    /// Release every key of the virtual keyboard.
    ReleaseAllKeys,
    /// Wait this many milliseconds.
    Wait(u64),
    /// End, and have the task that lights the keyboard end too.
    End,
}

/// What the task that reads the events of the keyboard does on `input`, in order. After that it
/// reads the next event, unless it has ended.
pub open spec fn bt_receive_actions(input: BtReceiveInput) -> Seq<BtReceiveAction> {
    match input {
        BtReceiveInput::Event(event) => match bt_key_step(event) {
            Some(step) => if step.resync_backlight {
                seq![BtReceiveAction::ResyncBacklight, BtReceiveAction::Key(step.action)]
            } else {
                seq![BtReceiveAction::Key(step.action)]
            },
            None => Seq::empty(),
        },
        BtReceiveInput::Failed(os_error) => if os_error == Some(ENODEV) {
            seq![BtReceiveAction::ReleaseAllKeys, BtReceiveAction::End]
        } else {
            seq![BtReceiveAction::Wait(READ_RETRY_DELAY_MS)]
        },
    }
}

/// What the task that reads the events of the keyboard does on `input`, in order.
pub fn bt_receive_step(input: BtReceiveInput) -> (actions: Vec<BtReceiveAction>)
    ensures
        actions@ == bt_receive_actions(input),
{
    match input {
        BtReceiveInput::Event(event) => match parse_keyboard_event(&event) {
            Some(step) => if step.resync_backlight {
                vec![BtReceiveAction::ResyncBacklight, BtReceiveAction::Key(step.action)]
            } else {
                vec![BtReceiveAction::Key(step.action)]
            },
            None => Vec::new(),
        },
        BtReceiveInput::Failed(os_error) => match read_failure(os_error) {
            ReadFailure::Disconnected => vec![
                BtReceiveAction::ReleaseAllKeys,
                BtReceiveAction::End,
            ],
            ReadFailure::RetryAfter(delay) => vec![BtReceiveAction::Wait(delay)],
        },
    }
}

/// The level is read back before the backlight key is carried out, and for no other key. The keys
/// are released before the task ends, and it ends only where the keyboard is gone.
pub proof fn law_level_is_read_back_before_the_backlight_key(input: BtReceiveInput)
    ensures
        ({
            let actions = bt_receive_actions(input);
            let backlight_key = BtReceiveAction::Key(
                KeyAction::Execute(FunctionKey::KeyboardBacklight),
            );
            &&& actions.contains(backlight_key) <==> actions == seq![
                BtReceiveAction::ResyncBacklight,
                backlight_key,
            ]
            &&& actions.contains(BtReceiveAction::ResyncBacklight) <==> actions.contains(
                backlight_key,
            )
            &&& actions.contains(BtReceiveAction::End) <==> actions == seq![
                BtReceiveAction::ReleaseAllKeys,
                BtReceiveAction::End,
            ]
            &&& actions.contains(BtReceiveAction::End) <==> input == BtReceiveInput::Failed(
                Some(ENODEV),
            )
        }),
{
    let actions = bt_receive_actions(input);
    assert(actions.len() > 0 ==> actions.contains(actions[0]));
    assert(actions.len() > 1 ==> actions.contains(actions[1]));
}

/// A key asks for the same over Bluetooth as over USB.
pub proof fn law_keys_mean_the_same_on_both_transports(code: u8)
    ensures
        bt_key_step(
            InputEvent { event_type: EV_ABS, code: ABS_MISC, value: code as i32 },
        ) matches Some(step) && step.action == keyboard_usb::usb_key_action(
            seq![90, code, 0, 0, 0, 0],
        ),
{
    let data = seq![90, code, 0, 0, 0, 0];
    assert(data == seq![90, data[1], 0, 0, 0, 0]);
}

/// How many more steps `start` can take.
pub open spec fn steps_left(start: BtStart) -> nat {
    match start {
        BtStart::NotifyActivity => 5,
        BtStart::ReadBacklight => 4,
        BtStart::SendBacklight(_) => 3,
        BtStart::SendMicMute(_) => 2,
        BtStart::SetFnLock(_) => 1,
        BtStart::Run => 0,
    }
}

/// Starting a task ends in running it, after five steps at most.
pub proof fn law_bt_start_ends(
    start: BtStart,
    outcome: Outcome,
    fn_lock: Option<bool>,
    state: InnerState,
)
    ensures
        start is Run || steps_left(bt_start_after(start, outcome, fn_lock, state).0) < steps_left(
            start,
        ),
        steps_left(start) == 0 <==> start is Run,
{
}

/// The microphone mute LED is always restored, to what is to be shown: a task runs only after
/// that. The function key mode is only ever set to what was asked for, and the backlight only to
/// a known level that the keyboard does not tell itself.
pub proof fn law_bluetooth_keyboard_is_restored(
    start: BtStart,
    outcome: Outcome,
    fn_lock: Option<bool>,
    state: InnerState,
)
    ensures
        ({
            let next = bt_start_after(start, outcome, fn_lock, state).0;
            &&& next is Run ==> start is SendMicMute || start is SetFnLock || start is Run
            &&& next is SetFnLock ==> start is SendMicMute && next == BtStart::SetFnLock(fn_lock->0)
            &&& start is SendMicMute && fn_lock is Some ==> next is SetFnLock
            &&& next matches BtStart::SendMicMute(lit) ==> lit == state.shown_mic_mute_led()
            &&& next matches BtStart::SendBacklight(level) ==> start is ReadBacklight && !(outcome
                is Read) && state.backlight_known && level == state.shown_backlight()
        }),
{
}

/// Connecting over Bluetooth tells nobody of anything, and changes no more of the state than
/// the backlight level, to what the keyboard itself says.
pub proof fn law_connecting_over_bluetooth_is_quiet(
    start: BtStart,
    outcome: Outcome,
    fn_lock: Option<bool>,
    state: InnerState,
)
    ensures
        ({
            let after = bt_start_after(start, outcome, fn_lock, state).1;
            &&& after.0 == state || (outcome matches Outcome::Read(level) && after.0
                == state.keyboard_backlight_adopted(level).0)
            &&& forall|i: int| 0 <= i < after.1.len() ==> #[trigger] after.1[i] is Save
        }),
{
}

/// What leads to each step of setting a keyboard up, and that nothing else does: the user is active,
/// the level is read back, a known level is sent to a keyboard that did not tell its own, the LED
/// is set, the function key mode is set where one is asked for, and the task runs, whatever fails.
pub proof fn law_bluetooth_keyboard_is_set_up_in_order(
    start: BtStart,
    outcome: Outcome,
    fn_lock: Option<bool>,
    state: InnerState,
    locked: bool,
    level: KeyboardBacklightState,
    lit: bool,
)
    ensures
        ({
            let next = bt_start_after(start, outcome, fn_lock, state).0;
            let is_sent = !(outcome is Read) && state.backlight_known;
            let shown = if state.is_suspended || state.is_idle {
                KeyboardBacklightState::Off
            } else {
                state.backlight
            };
            &&& !(next is NotifyActivity)
            &&& next is ReadBacklight <==> start is NotifyActivity
            &&& next == BtStart::SendBacklight(level) <==> start is ReadBacklight && is_sent
                && level == shown
            &&& next == BtStart::SendMicMute(lit) <==> (start is SendBacklight || (start
                is ReadBacklight && !is_sent)) && lit == (state.mic_mute_led
                && !state.is_suspended)
            &&& next == BtStart::SetFnLock(locked) <==> start is SendMicMute && fn_lock == Some(
                locked,
            )
            &&& next is Run <==> start is Run || start is SetFnLock || (start is SendMicMute
                && fn_lock is None)
        }),
{
}

/// A keyboard that hands its level back when it connects is believed: the level is the user's from
/// then on, and known, and is saved where it is another than before. No other step changes, saves
/// or tells anything.
pub proof fn law_bluetooth_level_is_adopted(
    level: KeyboardBacklightState,
    start: BtStart,
    outcome: Outcome,
    fn_lock: Option<bool>,
    state: InnerState,
)
    ensures
        ({
            let after = bt_start_after(
                BtStart::ReadBacklight,
                Outcome::Read(level),
                fn_lock,
                state,
            ).1;
            &&& after.0 == (InnerState { backlight: level, backlight_known: true, ..state })
            &&& state.backlight != level ==> after.1 == seq![Effect::Save(level)]
            &&& state.backlight == level ==> after.1 == Seq::<Effect>::empty()
        }),
        !(start is ReadBacklight && outcome is Read) ==> bt_start_after(
            start,
            outcome,
            fn_lock,
            state,
        ).1 == (state, Seq::<Effect>::empty()),
{
}

/// A device appears where a file is reported as new whose name begins as those of event nodes do,
/// whatever else the report says of it, and nowhere else. Its path is in the directory of input
/// devices, and the node is worth opening, as every node of such a name is that is no directory.
pub proof fn law_new_event_nodes_are_opened(
    name: Option<Seq<char>>,
    mask: u32,
    is_directory: Option<bool>,
)
    ensures
        created_node(name, mask) is Some <==> mask & 0x100 == 0x100 && name is Some
            && name->0.len() >= 5 && name->0.take(5) == "event"@,
        created_node(name, mask) matches Some(path) ==> path == "/dev/input/"@ + name->0,
        created_node(name, mask) is Some ==> is_worth_opening(Some(false), name),
        is_worth_opening(is_directory, name) ==> is_directory == Some(false),
        is_worth_opening(is_directory, name) <==> is_directory == Some(false) && created_node(
            name,
            0x100,
        ) is Some,
{
    reveal_strlit("event");
    assert(0x100u32 & 0x100 == 0x100) by (bit_vector);
    if let Some(name) = name {
        if name.len() >= 5 {
            assert(name.subrange(0, 5) == name.take(5));
        }
    }
}

/// One name, letter by letter, is the keyboard's, and a device without a name is not it.
pub proof fn law_keyboard_has_one_name(name: Seq<char>)
    ensures
        is_keyboard_name(Some(name)) <==> name == "ASUS Zenbook Duo Keyboard"@,
        !is_keyboard_name(None),
{
}

/// Only a device that is gone ends the reading; every other failure is tried again.
pub proof fn law_only_a_lost_device_ends_reading(os_error: Option<i32>)
    ensures
        failure_of(os_error) is Disconnected <==> os_error == Some(19i32),
        failure_of(os_error) matches ReadFailure::RetryAfter(delay) ==> delay == 100,
        bt_receive_actions(BtReceiveInput::Failed(os_error)) == (if failure_of(
            os_error,
        ) is Disconnected {
            seq![BtReceiveAction::ReleaseAllKeys, BtReceiveAction::End]
        } else {
            seq![BtReceiveAction::Wait(100)]
        }),
{
}

/// Every event of the axis of the function keys, and no other event, is carried out as the key that
/// its value is the code of; before the backlight key, and no other, the level is read back.
pub proof fn law_function_keys_are_carried_out(event: InputEvent)
    ensures
        ({
            let key = BtReceiveAction::Key(keyboard::action_of(event.value as int));
            let actions = bt_receive_actions(BtReceiveInput::Event(event));
            if event.event_type == 3 && event.code == 0x28 {
                if event.value == 199 {
                    actions == seq![BtReceiveAction::ResyncBacklight, key]
                } else {
                    actions == seq![key]
                }
            } else {
                actions == Seq::<BtReceiveAction>::empty()
            }
        }),
        bt_key_step(event) is Some <==> event.event_type == 3 && event.code == 0x28,
        bt_key_step(event) matches Some(step) ==> step.action == keyboard::action_of(
            event.value as int,
        ) && (step.resync_backlight <==> event.value == 199),
{
}

/// The monitor lists first, tries all that is listed, goes on after whatever it cannot read or does
/// not care for, and ends where there is nothing to list or to watch.
pub proof fn law_bluetooth_monitor_goes_on(input: BtMonitorInputView)
    ensures
        ({
            let step = bt_monitor_step_on(input);
            &&& step is List <==> input is Begin
            &&& step is Stop <==> input is Ended || (input matches BtMonitorInputView::Listed(paths)
                && paths is None)
            &&& input matches BtMonitorInputView::Listed(Some(paths)) ==> step
                == BtMonitorStepView::Try(paths)
            &&& input matches BtMonitorInputView::Reported { name, mask } ==> (match created_node(
                name,
                mask,
            ) {
                Some(path) => step matches BtMonitorStepView::Try(paths) && paths == seq![path],
                None => step is Wait,
            })
            &&& input is Unreadable ==> step is Wait
        }),
{
}

} // verus!
