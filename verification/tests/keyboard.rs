use zenbook_duo_daemon::keyboard::{
    backlight_to_restore, control_step, key_action, resync_backlight, ControlInput, ControlStep,
    FunctionKey, KeyAction, LedReport, Outcome,
};
use zenbook_duo_daemon::keyboard_bt::{
    self, bt_monitor_step, bt_receive_step, created_event_node, is_input_device, is_keyboard,
    parse_keyboard_event, read_failure, start_bt_keyboard_task, BtMonitorInput, BtMonitorStep,
    BtReceiveAction, BtReceiveInput, BtStart, InputEvent, KeyStep, ReadFailure,
};
use zenbook_duo_daemon::keyboard_usb::{
    backlight_request, end_usb_keyboard_task, find_wired_keyboard, parse_keyboard_data,
    read_backlight_state, receive_step, send_backlight_state, send_mute_microphone_state,
    start_usb_keyboard_task, transfers_to_submit, KeyboardModel, MonitorInput, MonitorStep,
    ReceiveInput, ReceiveStep, ReopenInput, ReopenStep, Reopening, Shutdown, UsbDevice,
    UsbKeyboardMonitor, UsbStart,
};
use zenbook_duo_daemon::hidraw::parse_backlight_report;
use zenbook_duo_daemon::{Effect, Event, KeyboardBacklightState, KeyboardStateManager};

const KEYS: [(u8, FunctionKey); 8] = [
    (199, FunctionKey::KeyboardBacklight),
    (16, FunctionKey::BrightnessDown),
    (32, FunctionKey::BrightnessUp),
    (156, FunctionKey::SwapUpDownDisplay),
    (124, FunctionKey::MicrophoneMute),
    (126, FunctionKey::EmojiPicker),
    (134, FunctionKey::MyAsus),
    (106, FunctionKey::ToggleSecondaryDisplay),
];

fn on_axis(value: i32) -> InputEvent {
    InputEvent {
        event_type: keyboard_bt::EV_ABS,
        code: keyboard_bt::ABS_MISC,
        value,
    }
}

#[test]
fn usb_reports_name_their_key() {
    for (code, key) in KEYS {
        assert_eq!(
            parse_keyboard_data(&[90, code, 0, 0, 0, 0]),
            KeyAction::Execute(key)
        );
        assert_eq!(key_action(code as i32), KeyAction::Execute(key));
    }
    for data in [
        vec![90, 0, 0, 0, 0, 0],
        vec![90, 1, 0, 0, 0, 0],
        vec![91, 199, 0, 0, 0, 0],
        vec![90, 199, 0, 0, 0, 1],
        vec![90, 199, 0, 0, 0],
        vec![90, 199, 0, 0, 0, 0, 0],
        vec![],
    ] {
        assert_eq!(parse_keyboard_data(&data), KeyAction::ReleaseAllKeys, "{data:?}");
    }
}

#[test]
fn keys_mean_the_same_on_both_transports() {
    for code in 0..=255_u8 {
        let step = parse_keyboard_event(&on_axis(code as i32)).unwrap();
        assert_eq!(step.action, parse_keyboard_data(&[90, code, 0, 0, 0, 0]));
    }
}

#[test]
fn only_the_backlight_key_resyncs() {
    for (code, key) in KEYS {
        assert_eq!(
            parse_keyboard_event(&on_axis(code as i32)),
            Some(KeyStep {
                resync_backlight: code == 199,
                action: KeyAction::Execute(key),
            })
        );
    }
    for value in [0, 1, -1, 199 + 256] {
        assert_eq!(
            parse_keyboard_event(&on_axis(value)),
            Some(KeyStep {
                resync_backlight: false,
                action: KeyAction::ReleaseAllKeys,
            })
        );
    }
}

#[test]
fn other_input_events_are_left_to_the_system() {
    for (event_type, code) in [(1, 0x28), (3, 0), (0, 0), (4, 0x28)] {
        let event = InputEvent { event_type, code, value: 199 };
        assert_eq!(parse_keyboard_event(&event), None);
    }
}

fn reports(event: Event, state: &KeyboardStateManager) -> Vec<LedReport> {
    let mut reports = Vec::new();
    let mut step = control_step(ControlInput::Event(event), state);
    while let ControlStep::Write(report) = step {
        reports.push(report);
        step = control_step(ControlInput::Written(report), state);
    }
    assert_eq!(step, ControlStep::Wait);
    reports
}

#[test]
fn the_level_is_put_on_top_of_a_mic_mute_report() {
    let state = KeyboardStateManager::new(false, Some("medium"));
    assert_eq!(
        reports(Event::MicMuteLed(true), &state),
        vec![
            LedReport::MicMute(true),
            LedReport::Backlight(KeyboardBacklightState::Medium),
        ]
    );
    assert_eq!(
        reports(Event::Backlight(KeyboardBacklightState::High), &state),
        vec![LedReport::Backlight(KeyboardBacklightState::High)]
    );
    assert_eq!(reports(Event::SecondaryDisplay(true), &state), vec![]);
    assert_eq!(control_step(ControlInput::Lagged, &state), ControlStep::Wait);
    assert_eq!(control_step(ControlInput::Closed, &state), ControlStep::Stop);
    assert_eq!(control_step(ControlInput::Shutdown, &state), ControlStep::Stop);
}

#[test]
fn the_level_on_top_is_the_one_after_the_first_write() {
    let mut state = KeyboardStateManager::new(false, Some("medium"));
    let first = LedReport::MicMute(true);
    assert_eq!(
        control_step(ControlInput::Event(Event::MicMuteLed(true)), &state),
        ControlStep::Write(first)
    );
    state.set_keyboard_backlight(KeyboardBacklightState::High);
    assert_eq!(
        control_step(ControlInput::Written(first), &state),
        ControlStep::Write(LedReport::Backlight(KeyboardBacklightState::High))
    );
}

#[test]
fn the_level_stays_readable() {
    let state = KeyboardStateManager::new(false, Some("high"));
    let reports = reports(Event::MicMuteLed(false), &state);
    assert_eq!(
        parse_backlight_report(&reports.last().unwrap().payload()),
        Some(KeyboardBacklightState::High)
    );
    assert_eq!(reports[0].payload()[..4], [0x5a, 0xd0, 0x7c, 0]);
}

#[test]
fn a_level_read_back_is_adopted_and_a_known_one_restored() {
    let mut state = KeyboardStateManager::new(false, None);
    assert_eq!(backlight_to_restore(Outcome::Failed, &state), None);
    assert_eq!(resync_backlight(Outcome::Failed, &mut state), vec![]);
    let read = Outcome::Read(KeyboardBacklightState::Off);
    assert_eq!(backlight_to_restore(read, &state), None);
    assert_eq!(
        resync_backlight(read, &mut state),
        vec![Effect::Save(KeyboardBacklightState::Off)]
    );
    assert_eq!(
        backlight_to_restore(Outcome::Failed, &state),
        Some(KeyboardBacklightState::Off)
    );
    state.toggle_keyboard_backlight();
    assert_eq!(state.get_keyboard_backlight(), KeyboardBacklightState::Low);
}

fn run_usb(
    state: &mut KeyboardStateManager,
    fn_lock: Option<bool>,
    read: Outcome,
) -> (Vec<UsbStart>, Vec<Effect>) {
    let mut start = UsbStart::first();
    let mut steps = vec![start];
    let mut effects = Vec::new();
    while start != UsbStart::Run {
        let outcome = if start == UsbStart::ReadBacklight { read } else { Outcome::Succeeded };
        let (next, done) = start_usb_keyboard_task(start, outcome, fn_lock, state);
        start = next;
        steps.push(start);
        effects.extend(done);
    }
    (steps, effects)
}

#[test]
fn a_wired_keyboard_that_forgot_its_level_is_sent_the_known_one() {
    let mut state = KeyboardStateManager::new(false, Some("high"));
    let (steps, effects) = run_usb(&mut state, Some(true), Outcome::Failed);
    assert_eq!(
        steps,
        vec![
            UsbStart::Open,
            UsbStart::Claim,
            UsbStart::OpenEndpoint,
            UsbStart::NotifyActivity,
            UsbStart::SetFnLock(true),
            UsbStart::ReadBacklight,
            UsbStart::SendBacklight(KeyboardBacklightState::High),
            UsbStart::SendMicMute(false),
            UsbStart::Run,
        ]
    );
    assert_eq!(effects, vec![Effect::Emit(Event::SecondaryDisplay(false))]);
    assert!(!state.is_secondary_display_enabled());
}

#[test]
fn a_wired_keyboard_that_tells_its_level_keeps_it() {
    let mut state = KeyboardStateManager::new(false, Some("high"));
    let (steps, effects) = run_usb(&mut state, None, Outcome::Read(KeyboardBacklightState::Low));
    assert_eq!(
        steps,
        vec![
            UsbStart::Open,
            UsbStart::Claim,
            UsbStart::OpenEndpoint,
            UsbStart::NotifyActivity,
            UsbStart::ReadBacklight,
            UsbStart::SendMicMute(false),
            UsbStart::Run,
        ]
    );
    assert_eq!(
        effects,
        vec![
            Effect::Emit(Event::SecondaryDisplay(false)),
            Effect::Save(KeyboardBacklightState::Low),
        ]
    );
}

#[test]
fn an_unknown_level_is_left_alone() {
    let mut state = KeyboardStateManager::new(false, None);
    let (steps, _) = run_usb(&mut state, None, Outcome::Failed);
    assert!(!steps.iter().any(|step| matches!(step, UsbStart::SendBacklight(_))));
}

#[test]
fn a_device_that_cannot_be_opened_is_given_up() {
    for start in [UsbStart::Open, UsbStart::Claim, UsbStart::OpenEndpoint] {
        let mut state = KeyboardStateManager::new(false, None);
        assert_eq!(
            start_usb_keyboard_task(start, Outcome::Failed, Some(true), &mut state),
            (UsbStart::GiveUp, vec![])
        );
        assert!(state.is_secondary_display_enabled());
    }
}

#[test]
fn a_bluetooth_keyboard_is_set_up_in_order() {
    let mut state = KeyboardStateManager::new(false, Some("medium"));
    state.set_mic_mute_led(true);
    let mut start = BtStart::first();
    assert_eq!(start, BtStart::NotifyActivity);
    let mut steps = vec![start];
    while start != BtStart::Run {
        let (next, effects) =
            start_bt_keyboard_task(start, Outcome::Failed, Some(false), &mut state);
        assert_eq!(effects, vec![]);
        start = next;
        steps.push(start);
    }
    assert_eq!(
        steps,
        vec![
            BtStart::NotifyActivity,
            BtStart::ReadBacklight,
            BtStart::SendBacklight(KeyboardBacklightState::Medium),
            BtStart::SendMicMute(true),
            BtStart::SetFnLock(false),
            BtStart::Run,
        ]
    );
}

#[test]
fn a_bluetooth_level_is_read_back() {
    let mut state = KeyboardStateManager::new(false, Some("medium"));
    assert_eq!(
        start_bt_keyboard_task(
            BtStart::ReadBacklight,
            Outcome::Read(KeyboardBacklightState::Off),
            None,
            &mut state
        ),
        (BtStart::SendMicMute(false), vec![Effect::Save(KeyboardBacklightState::Off)])
    );
    assert_eq!(
        start_bt_keyboard_task(BtStart::SendMicMute(false), Outcome::Failed, None, &mut state),
        (BtStart::Run, vec![])
    );
}

#[test]
fn input_nodes_are_picked_by_name() {
    assert_eq!(
        created_event_node(Some("event17"), 0x100),
        Some("/dev/input/event17".to_string())
    );
    assert_eq!(created_event_node(Some("event17"), 0x200), None);
    assert_eq!(created_event_node(Some("mouse0"), 0x100), None);
    assert_eq!(created_event_node(None, 0x100), None);
    assert!(is_input_device(Some(false), Some("event3")));
    assert!(!is_input_device(Some(true), Some("event3")));
    assert!(!is_input_device(None, Some("event3")));
    assert!(!is_input_device(Some(false), Some("js0")));
    assert!(!is_input_device(Some(false), None));
    assert!(is_keyboard(Some("ASUS Zenbook Duo Keyboard")));
    assert!(!is_keyboard(Some("ASUS Zenbook Duo Keyboard Touchpad")));
    assert!(!is_keyboard(None));
}

fn reported(name: &str, mask: u32) -> BtMonitorInput {
    BtMonitorInput::Reported { name: Some(name.to_string()), mask }
}

#[test]
fn the_bluetooth_monitor_tries_what_is_there_and_what_appears() {
    assert!(matches!(bt_monitor_step(BtMonitorInput::Begin), BtMonitorStep::List));
    let listed = vec!["/dev/input/mice".to_string(), "/dev/input/event0".to_string()];
    match bt_monitor_step(BtMonitorInput::Listed(Some(listed.clone()))) {
        BtMonitorStep::Try(paths) => assert_eq!(paths, listed),
        step => panic!("{step:?}"),
    }
    match bt_monitor_step(reported("event17", 0x100)) {
        BtMonitorStep::Try(paths) => assert_eq!(paths, vec!["/dev/input/event17".to_string()]),
        step => panic!("{step:?}"),
    }
    for passed_over in [
        reported("event17", 0x200),
        reported("mouse1", 0x100),
        BtMonitorInput::Reported { name: None, mask: 0x100 },
        BtMonitorInput::Unreadable,
    ] {
        assert!(matches!(bt_monitor_step(passed_over), BtMonitorStep::Wait));
    }
    for end in [BtMonitorInput::Listed(None), BtMonitorInput::Ended] {
        assert!(matches!(bt_monitor_step(end), BtMonitorStep::Stop));
    }
}

#[test]
fn a_device_that_is_gone_ends_the_task() {
    assert_eq!(read_failure(Some(19)), ReadFailure::Disconnected);
    assert_eq!(read_failure(Some(11)), ReadFailure::RetryAfter(100));
    assert_eq!(read_failure(None), ReadFailure::RetryAfter(100));
}

const MODEL: KeyboardModel = KeyboardModel { vendor_id: 0x0b05, product_id: 0x1bf2 };

fn device(id: u64, vendor_id: u16, product_id: u16) -> UsbDevice {
    UsbDevice { id, vendor_id, product_id }
}

#[test]
fn the_first_wired_keyboard_is_found() {
    let devices = vec![
        device(1, 0x0b05, 0x0001),
        device(2, 0x0001, 0x1bf2),
        device(3, 0x0b05, 0x1bf2),
        device(4, 0x0b05, 0x1bf2),
    ];
    assert_eq!(find_wired_keyboard(&devices, &MODEL), Some(devices[2]));
    assert_eq!(find_wired_keyboard(&Vec::new(), &MODEL), None);
}

#[test]
fn the_monitor_follows_the_keyboard() {
    let mut monitor = UsbKeyboardMonitor::new(MODEL, None);
    let keyboard = device(7, 0x0b05, 0x1bf2);
    assert_eq!(
        monitor.step(MonitorInput::Connected(device(6, 1, 2))),
        MonitorStep::Wait
    );
    assert_eq!(
        monitor.step(MonitorInput::Connected(keyboard)),
        MonitorStep::Start(keyboard)
    );
    assert_eq!(monitor.step(MonitorInput::ReconnectRequested), MonitorStep::Wait);
    assert_eq!(monitor.step(MonitorInput::Started(Some(7))), MonitorStep::Wait);
    assert_eq!(monitor.step(MonitorInput::Disconnected(6)), MonitorStep::Wait);
    assert_eq!(monitor.current, Some(7));
    assert_eq!(monitor.step(MonitorInput::ReconnectRequested), MonitorStep::Reopen);
    assert_eq!(monitor.current, None);
    monitor.step(MonitorInput::Started(Some(8)));
    assert_eq!(
        monitor.step(MonitorInput::Disconnected(8)),
        MonitorStep::Shutdown(Shutdown::Detached)
    );
    assert_eq!(monitor.current, None);
    assert_eq!(monitor.step(MonitorInput::WatchEnded), MonitorStep::Stop);
    assert_eq!(monitor.step(MonitorInput::ReconnectClosed), MonitorStep::Stop);
}

#[test]
fn reopening_is_tried_ten_times() {
    let mut reopening = Reopening::new();
    let mut attempts = 0;
    assert_eq!(
        reopening.step(ReopenInput::Begin),
        ReopenStep::Shutdown(Shutdown::Reopening)
    );
    let mut input = ReopenInput::Closed;
    while reopening.step(input) == ReopenStep::TryAfter(200) {
        attempts += 1;
        input = ReopenInput::Failed;
    }
    assert_eq!(attempts, 10);
    assert_eq!(reopening.step(ReopenInput::Failed), ReopenStep::GaveUp);
    let mut reopening = Reopening::new();
    reopening.step(ReopenInput::Begin);
    assert_eq!(reopening.step(ReopenInput::Closed), ReopenStep::TryAfter(200));
    assert_eq!(reopening.step(ReopenInput::Started(5)), ReopenStep::Reopened(5));
}

#[test]
fn reopening_keeps_the_keyboard_attached() {
    let mut state = KeyboardStateManager::new(true, None);
    assert_eq!(end_usb_keyboard_task(Some(Shutdown::Reopening), &mut state), vec![]);
    assert!(!state.is_secondary_display_enabled());
    for reason in [Some(Shutdown::Detached), None] {
        let mut state = KeyboardStateManager::new(true, None);
        assert_eq!(
            end_usb_keyboard_task(reason, &mut state),
            vec![Effect::Emit(Event::SecondaryDisplay(true))]
        );
        assert!(state.is_secondary_display_enabled());
    }
}

#[test]
fn usb_requests_address_the_vendor_report() {
    let request = send_backlight_state(KeyboardBacklightState::Medium);
    assert_eq!(
        (request.request, request.value, request.index, request.timeout_ms),
        (0x09, 0x035a, 4, 100)
    );
    assert_eq!(request.data[..5], [0x5a, 0xba, 0xc5, 0xc4, 2]);
    let request = send_mute_microphone_state(true);
    assert_eq!(request.data[..4], [0x5a, 0xd0, 0x7c, 1]);
    let request = backlight_request();
    assert_eq!(
        (request.request, request.value, request.index, request.length, request.timeout_ms),
        (0x01, 0x035a, 4, 16, 100)
    );
}

#[test]
fn a_usb_reply_tells_the_level() {
    let report = send_backlight_state(KeyboardBacklightState::Low).data;
    assert_eq!(
        read_backlight_state(Some(report)),
        Outcome::Read(KeyboardBacklightState::Low)
    );
    let report = send_mute_microphone_state(true).data;
    assert_eq!(read_backlight_state(Some(report)), Outcome::Failed);
    assert_eq!(read_backlight_state(None), Outcome::Failed);
}

#[test]
fn three_transfers_are_kept_in_flight() {
    assert_eq!(transfers_to_submit(0), 3);
    assert_eq!(transfers_to_submit(2), 1);
    assert_eq!(transfers_to_submit(3), 0);
    assert_eq!(transfers_to_submit(9), 0);
}

#[test]
fn the_endpoint_is_read_until_the_task_ends() {
    let mut state = KeyboardStateManager::new(true, None);
    let data = ReceiveInput::Data(vec![90, 124, 0, 0, 0, 0]);
    let key = KeyAction::Execute(FunctionKey::MicrophoneMute);
    assert_eq!(receive_step(&data, &mut state), (ReceiveStep::Key(key), vec![]));
    let unknown = ReceiveInput::Data(vec![90, 124, 0, 0, 0, 1]);
    assert_eq!(
        receive_step(&unknown, &mut state),
        (ReceiveStep::Key(KeyAction::ReleaseAllKeys), vec![])
    );
    assert_eq!(
        receive_step(&ReceiveInput::Failed, &mut state),
        (ReceiveStep::Wait(100), vec![])
    );
    assert_eq!(
        receive_step(&ReceiveInput::Shutdown(Some(Shutdown::Reopening)), &mut state),
        (ReceiveStep::End, vec![])
    );
    assert!(!state.is_secondary_display_enabled());
    for reason in [Some(Shutdown::Detached), None] {
        assert_eq!(
            receive_step(&ReceiveInput::Shutdown(reason), &mut state),
            (ReceiveStep::End, vec![Effect::Emit(Event::SecondaryDisplay(true))])
        );
    }
    assert!(state.is_secondary_display_enabled());
}

#[test]
fn bluetooth_events_are_carried_out_in_order() {
    assert_eq!(
        bt_receive_step(BtReceiveInput::Event(on_axis(199))),
        vec![
            BtReceiveAction::ResyncBacklight,
            BtReceiveAction::Key(KeyAction::Execute(FunctionKey::KeyboardBacklight)),
        ]
    );
    assert_eq!(
        bt_receive_step(BtReceiveInput::Event(on_axis(124))),
        vec![BtReceiveAction::Key(KeyAction::Execute(FunctionKey::MicrophoneMute))]
    );
    assert_eq!(
        bt_receive_step(BtReceiveInput::Event(on_axis(0))),
        vec![BtReceiveAction::Key(KeyAction::ReleaseAllKeys)]
    );
    let other = InputEvent { event_type: 1, ..on_axis(199) };
    assert_eq!(bt_receive_step(BtReceiveInput::Event(other)), vec![]);
    assert_eq!(
        bt_receive_step(BtReceiveInput::Failed(Some(19))),
        vec![BtReceiveAction::ReleaseAllKeys, BtReceiveAction::End]
    );
    for error in [Some(11), None] {
        assert_eq!(
            bt_receive_step(BtReceiveInput::Failed(error)),
            vec![BtReceiveAction::Wait(100)]
        );
    }
}
