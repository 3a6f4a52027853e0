use zenbook_duo_daemon::hidraw::{
    backlight_report, find_bt_hidraw, mic_mute_report, parse_backlight_report,
    send_backlight_state, send_feature_report, send_mic_mute_state, HidrawNode,
};
use zenbook_duo_daemon::{parse_hex_string, KeyboardBacklightState};

const LEVELS: [KeyboardBacklightState; 4] = [
    KeyboardBacklightState::Off,
    KeyboardBacklightState::Low,
    KeyboardBacklightState::Medium,
    KeyboardBacklightState::High,
];

fn node(name: &str, modalias: &str) -> HidrawNode {
    HidrawNode {
        name: name.to_string(),
        modalias: modalias.to_string(),
    }
}

/// The reports are hand written hex, and a typo in one of them is silent: the ioctl
/// still succeeds, the keyboard just ignores it.
#[test]
fn reports_are_16_byte_frames_carrying_the_right_level() {
    let cases = [
        (KeyboardBacklightState::Off, 0),
        (KeyboardBacklightState::Low, 1),
        (KeyboardBacklightState::Medium, 2),
        (KeyboardBacklightState::High, 3),
    ];
    for (state, level) in cases {
        let report = parse_hex_string(backlight_report(state));
        assert_eq!(report.len(), 16, "{state:?} report is not 16 bytes");
        assert_eq!(
            report[..4],
            [0x5a, 0xba, 0xc5, 0xc4],
            "{state:?} wrong prefix"
        );
        assert_eq!(report[4], level, "{state:?} wrong level byte");
        assert!(
            report[5..].iter().all(|b| *b == 0),
            "{state:?} dirty padding"
        );
    }

    for (enabled, expected) in [(true, 1), (false, 0)] {
        let report = parse_hex_string(mic_mute_report(enabled));
        assert_eq!(report.len(), 16);
        assert_eq!(report[..3], [0x5a, 0xd0, 0x7c]);
        assert_eq!(report[3], expected);
    }
}

#[test]
fn hex_is_read_two_digits_at_a_time() {
    assert_eq!(parse_hex_string(""), Vec::<u8>::new());
    assert_eq!(parse_hex_string("00ff"), vec![0x00, 0xff]);
    assert_eq!(parse_hex_string("0aB9"), vec![0x0a, 0xb9]);
}

#[test]
fn every_level_is_read_back_from_its_report() {
    for level in LEVELS {
        let report = parse_hex_string(backlight_report(level));
        assert_eq!(parse_backlight_report(&report), Some(level));
    }
    for enabled in [true, false] {
        let report = parse_hex_string(mic_mute_report(enabled));
        assert_eq!(parse_backlight_report(&report), None);
    }
}

#[test]
fn other_reports_carry_no_level() {
    assert_eq!(parse_backlight_report(&[]), None);
    assert_eq!(parse_backlight_report(&[0x5a, 0xba, 0xc5, 0xc4]), None);
    assert_eq!(parse_backlight_report(&[0x5a, 0xba, 0xc5, 0xc4, 4]), None);
    assert_eq!(parse_backlight_report(&[0x5b, 0xba, 0xc5, 0xc4, 1]), None);
}

#[test]
fn the_first_bluetooth_keyboard_is_found() {
    let nodes = vec![
        node("hidraw0", "hid:b0003g0001v00000B05p00001B2C\n"),
        node("hidraw1", "hid:b0005g0004v00000B05p00001BF3\n"),
        node("hidraw2", ""),
        node("hidraw3", " hid:b0005g0001v00000B05p00001BF3\n"),
        node("hidraw4", "hid:b0005g0001v00000B05p00001B2D\n"),
    ];
    assert_eq!(find_bt_hidraw(&nodes), Some("/dev/hidraw3".to_string()));
    assert_eq!(find_bt_hidraw(&Vec::new()), None);
}

#[test]
fn a_shorter_modalias_is_no_keyboard() {
    assert_eq!(
        find_bt_hidraw(&vec![node("hidraw0", "hid:b0005g0001v00000B0")]),
        None
    );
}

#[test]
fn reports_go_to_the_keyboard_node() {
    let nodes = vec![node("hidraw7", "hid:b0005g0001v00000B05p00001BF3\n")];
    let report = send_backlight_state(KeyboardBacklightState::High, &nodes).unwrap();
    assert_eq!(report.node, "/dev/hidraw7");
    assert_eq!(
        report.data,
        vec![0x5a, 0xba, 0xc5, 0xc4, 3, 0, 0, 0, 0, 0, 0, 0, 0, 0, 0, 0]
    );
    let report = send_mic_mute_state(true, &nodes).unwrap();
    assert_eq!(report.node, "/dev/hidraw7");
    assert_eq!(
        report.data,
        vec![0x5a, 0xd0, 0x7c, 1, 0, 0, 0, 0, 0, 0, 0, 0, 0, 0, 0, 0]
    );
    let report = send_feature_report("5a01", &nodes).unwrap();
    assert_eq!(report.data, vec![0x5a, 0x01]);
}

#[test]
fn without_a_keyboard_nothing_is_sent() {
    assert_eq!(send_backlight_state(KeyboardBacklightState::Low, &Vec::new()), None);
    assert_eq!(send_mic_mute_state(false, &Vec::new()), None);
}
