//! Keyboard backlight and microphone mute LED over Bluetooth.
//!
//! The keyboard accepts the same vendor HID feature reports over Bluetooth as it does over
//! USB, so the payloads here are the ones that the wired keyboard is sent too. Only the
//! transport differs: a feature report on the Bluetooth hidraw node instead of a USB control
//! transfer.
use crate::state::KeyboardBacklightState;
use crate::text;
use vstd::prelude::*;
use vstd::string::StringExecFns;

verus! {

/// Bluetooth bus, generic keyboard interface, ASUS vendor. The sibling `g0004` node is the
/// touchpad and ignores these reports. The product id is deliberately not part of the match:
/// it differs from model to model.
pub const MODALIAS_PREFIX: &'static str = "hid:b0005g0001v00000B05";

/// An entry of `/sys/class/hidraw`.
#[derive(Debug, PartialEq, Eq)]
pub struct HidrawNode {
    /// The name of the entry, which is the name of the device node too.
    pub name: String,
    /// The text of its `device/modalias` file; empty where that cannot be read.
    pub modalias: String,
}

impl HidrawNode {
    /// Whether the node is the keyboard, connected over Bluetooth.
    pub open spec fn is_bt_keyboard(self) -> bool {
        MODALIAS_PREFIX@.is_prefix_of(text::trimmed(self.modalias@))
    }

    /// The path of the device node.
    pub open spec fn path(self) -> Seq<char> {
        "/dev/"@ + self.name@
    }
}

/// A feature report, and the device node to write it to.
#[derive(Debug, PartialEq, Eq)]
pub struct FeatureReport {
    pub node: String,
    pub data: Vec<u8>,
}

/// The path of the first node that is the keyboard.
pub open spec fn bt_hidraw(nodes: Seq<HidrawNode>) -> Option<Seq<char>>
    decreases nodes.len(),
{
    if nodes.len() == 0 {
        None
    } else if nodes.first().is_bt_keyboard() {
        Some(nodes.first().path())
    } else {
        bt_hidraw(nodes.drop_first())
    }
}

/// A report with these bytes, and the path of the node to write it to, where there is one.
pub open spec fn report_to(nodes: Seq<HidrawNode>, data: Seq<u8>) -> Option<(Seq<char>, Seq<u8>)> {
    match bt_hidraw(nodes) {
        Some(path) => Some((path, data)),
        None => None,
    }
}

/// The path and the bytes of a report, where there is one.
pub open spec fn report_view(report: Option<FeatureReport>) -> Option<(Seq<char>, Seq<u8>)> {
    match report {
        Some(report) => Some((report.node@, report.data@)),
        None => None,
    }
}

/// What is written, and where, to set the backlight.
pub open spec fn backlight_write(
    level: KeyboardBacklightState,
    nodes: Seq<HidrawNode>,
) -> Option<(Seq<char>, Seq<u8>)> {
    report_to(nodes, backlight_frame(level))
}

/// What is written, and where, to set the microphone mute LED.
pub open spec fn mic_mute_write(enabled: bool, nodes: Seq<HidrawNode>) -> Option<
    (Seq<char>, Seq<u8>),
> {
    report_to(nodes, mic_mute_frame(enabled))
}

/// The number of a level in a backlight report.
pub open spec fn level_byte(level: KeyboardBacklightState) -> u8 {
    match level {
        KeyboardBacklightState::Off => 0,
        KeyboardBacklightState::Low => 1,
        KeyboardBacklightState::Medium => 2,
        KeyboardBacklightState::High => 3,
    }
}

/// The bytes of the report that sets the backlight.
pub open spec fn backlight_frame(level: KeyboardBacklightState) -> Seq<u8> {
    seq![0x5a, 0xba, 0xc5, 0xc4, level_byte(level), 0, 0, 0, 0, 0, 0, 0, 0, 0, 0, 0]
}

/// The bytes of the report that sets the microphone mute LED.
pub open spec fn mic_mute_frame(enabled: bool) -> Seq<u8> {
    seq![
        0x5a,
        0xd0,
        0x7c,
        if enabled {
            1u8
        } else {
            0u8
        },
        0,
        0,
        0,
        0,
        0,
        0,
        0,
        0,
        0,
        0,
        0,
        0,
    ]
}

/// The level that a report carries, where it is a backlight report.
pub open spec fn level_reported(report: Seq<u8>) -> Option<KeyboardBacklightState> {
    if report.len() < 5 || report.take(4) != seq![0x5au8, 0xba, 0xc5, 0xc4] {
        None
    } else if report[4] == 0 {
        Some(KeyboardBacklightState::Off)
    } else if report[4] == 1 {
        Some(KeyboardBacklightState::Low)
    } else if report[4] == 2 {
        Some(KeyboardBacklightState::Medium)
    } else if report[4] == 3 {
        Some(KeyboardBacklightState::High)
    } else {
        None
    }
}

/// The device node of the keyboard. Looked for on every write rather than kept, because
/// hidraw nodes are numbered in the order of connection and change when the keyboard
/// reconnects.
pub fn find_bt_hidraw(nodes: &Vec<HidrawNode>) -> (node: Option<String>)
    ensures
        node is Some <==> bt_hidraw(nodes@) is Some,
        node matches Some(path) ==> bt_hidraw(nodes@) == Some(path@),
{
    let mut i: usize = 0;
    assert(nodes@.skip(0) == nodes@);
    while i < nodes.len()
        invariant
            i <= nodes.len(),
            bt_hidraw(nodes@.skip(i as int)) == bt_hidraw(nodes@),
        decreases nodes.len() - i,
    {
        assert(nodes@.skip(i as int).drop_first() == nodes@.skip(i + 1));
        if text::starts_with(text::trim(nodes[i].modalias.as_str()), MODALIAS_PREFIX) {
            let path = String::from_str("/dev/").concat(nodes[i].name.as_str());
            return Some(path);
        }
        i = i + 1;
    }
    None
}

/// The report that `hex` writes out, for the keyboard among `nodes`. Without a keyboard
/// there is nothing to send.
pub fn send_feature_report(hex: &str, nodes: &Vec<HidrawNode>) -> (report: Option<FeatureReport>)
    requires
        crate::is_hex(hex@),
    ensures
        report is Some <==> bt_hidraw(nodes@) is Some,
        report matches Some(report) ==> {
            &&& bt_hidraw(nodes@) == Some(report.node@)
            &&& report.data@ == crate::hex_bytes(hex@)
        },
        report_view(report) == report_to(nodes@, crate::hex_bytes(hex@)),
{
    match find_bt_hidraw(nodes) {
        Some(node) => Some(FeatureReport { node, data: crate::parse_hex_string(hex) }),
        None => None,
    }
}

/// The report that sets the backlight, in hexadecimal.
pub fn backlight_report(state: KeyboardBacklightState) -> (hex: &'static str)
    ensures
        crate::is_hex(hex@),
        crate::hex_bytes(hex@) == backlight_frame(state),
        hex@ == (match state {
            KeyboardBacklightState::Off => "5abac5c4000000000000000000000000"@,
            KeyboardBacklightState::Low => "5abac5c4010000000000000000000000"@,
            KeyboardBacklightState::Medium => "5abac5c4020000000000000000000000"@,
            KeyboardBacklightState::High => "5abac5c4030000000000000000000000"@,
        }),
{
    proof {
        reveal_strlit("5abac5c4000000000000000000000000");
        reveal_strlit("5abac5c4010000000000000000000000");
        reveal_strlit("5abac5c4020000000000000000000000");
        reveal_strlit("5abac5c4030000000000000000000000");
    }
    match state {
        KeyboardBacklightState::Off => "5abac5c4000000000000000000000000",
        KeyboardBacklightState::Low => "5abac5c4010000000000000000000000",
        KeyboardBacklightState::Medium => "5abac5c4020000000000000000000000",
        KeyboardBacklightState::High => "5abac5c4030000000000000000000000",
    }
}

/// The report that sets the microphone mute LED, in hexadecimal.
pub fn mic_mute_report(enabled: bool) -> (hex: &'static str)
    ensures
        crate::is_hex(hex@),
        crate::hex_bytes(hex@) == mic_mute_frame(enabled),
        hex@ == (if enabled {
            "5ad07c01000000000000000000000000"@
        } else {
            "5ad07c00000000000000000000000000"@
        }),
{
    proof {
        reveal_strlit("5ad07c01000000000000000000000000");
        reveal_strlit("5ad07c00000000000000000000000000");
    }
    if enabled {
        "5ad07c01000000000000000000000000"
    } else {
        "5ad07c00000000000000000000000000"
    }
}

/// The level that a report carries, where it is a backlight report.
pub fn parse_backlight_report(report: &[u8]) -> (level: Option<KeyboardBacklightState>)
    ensures
        level == level_reported(report@),
{
    let ghost head = seq![0x5au8, 0xba, 0xc5, 0xc4];
    if report.len() < 5 {
        return None;
    }
    if report[0] != 0x5a || report[1] != 0xba || report[2] != 0xc5 || report[3] != 0xc4 {
        assert(report@.take(4)[0] != head[0] || report@.take(4)[1] != head[1] || report@.take(4)[2]
            != head[2] || report@.take(4)[3] != head[3]);
        return None;
    }
    assert(report@.take(4) == head);
    match report[4] {
        0 => Some(KeyboardBacklightState::Off),
        1 => Some(KeyboardBacklightState::Low),
        2 => Some(KeyboardBacklightState::Medium),
        3 => Some(KeyboardBacklightState::High),
        _ => None,
    }
}

/// The report that sets the backlight of the keyboard among `nodes`.
pub fn send_backlight_state(state: KeyboardBacklightState, nodes: &Vec<HidrawNode>) -> (report:
    Option<FeatureReport>)
    ensures
        report is Some <==> bt_hidraw(nodes@) is Some,
        report matches Some(report) ==> {
            &&& bt_hidraw(nodes@) == Some(report.node@)
            &&& report.data@ == backlight_frame(state)
        },
        report_view(report) == backlight_write(state, nodes@),
{
    send_feature_report(backlight_report(state), nodes)
}

/// The report that sets the microphone mute LED of the keyboard among `nodes`.
pub fn send_mic_mute_state(enabled: bool, nodes: &Vec<HidrawNode>) -> (report: Option<
    FeatureReport,
>)
    ensures
        report is Some <==> bt_hidraw(nodes@) is Some,
        report matches Some(report) ==> {
            &&& bt_hidraw(nodes@) == Some(report.node@)
            &&& report.data@ == mic_mute_frame(enabled)
        },
        report_view(report) == mic_mute_write(enabled, nodes@),
{
    send_feature_report(mic_mute_report(enabled), nodes)
}

/// A backlight report carries the level that it was made for, and no microphone mute report
/// is taken for one.
pub proof fn law_backlight_is_read_back(level: KeyboardBacklightState, enabled: bool)
    ensures
        level_reported(backlight_frame(level)) == Some(level),
        level_reported(mic_mute_frame(enabled)) is None,
{
    let head = seq![0x5au8, 0xba, 0xc5, 0xc4];
    assert(backlight_frame(level).take(4) == head);
    assert(mic_mute_frame(enabled).take(4)[1] != head[1]);
}

/// Every report is a frame of sixteen bytes.
pub proof fn law_reports_are_frames(level: KeyboardBacklightState, enabled: bool)
    ensures
        backlight_frame(level).len() == 16,
        mic_mute_frame(enabled).len() == 16,
{
}

/// The bytes of a report say which light it sets, and to what: the level as its number, the LED as
/// one or zero. All that follows is zero. Reports for different lights, levels or LEDs differ.
pub proof fn law_frames_say_what_they_set(
    level: KeyboardBacklightState,
    other: KeyboardBacklightState,
    enabled: bool,
    i: int,
)
    requires
        0 <= i < 16,
    ensures
        backlight_frame(level).take(4) == seq![0x5au8, 0xba, 0xc5, 0xc4],
        backlight_frame(level)[4] == level_byte(level),
        i > 4 ==> backlight_frame(level)[i] == 0,
        mic_mute_frame(enabled).take(3) == seq![0x5au8, 0xd0, 0x7c],
        mic_mute_frame(enabled)[3] == 1 <==> enabled,
        mic_mute_frame(enabled)[3] <= 1,
        i > 3 ==> mic_mute_frame(enabled)[i] == 0,
        backlight_frame(level) == backlight_frame(other) ==> level == other,
        backlight_frame(level) != mic_mute_frame(enabled),
        mic_mute_frame(enabled) != mic_mute_frame(!enabled),
{
    assert(backlight_frame(level)[4] == level_byte(level));
    assert(backlight_frame(other)[4] == level_byte(other));
    assert(backlight_frame(level)[1] != mic_mute_frame(enabled)[1]);
    assert(mic_mute_frame(enabled)[3] != mic_mute_frame(!enabled)[3]);
}

/// A report carries a level exactly where it begins as the report that sets that level does.
pub proof fn law_level_is_read_off_the_first_bytes(report: Seq<u8>, level: KeyboardBacklightState)
    ensures
        level_reported(report) == Some(level) <==> report.len() >= 5 && report.take(5)
            == backlight_frame(level).take(5),
{
    let head = seq![0x5au8, 0xba, 0xc5, 0xc4];
    let frame = backlight_frame(level);
    assert(frame.take(4) == head);
    if report.len() >= 5 {
        assert(report.take(5) == report.take(4).push(report[4]));
        assert(frame.take(5) == frame.take(4).push(frame[4]));
        assert(report.take(5)[4] == report[4]);
        assert(report.take(5).take(4) == report.take(4));
        assert(frame.take(5).take(4) == frame.take(4));
        assert(frame.take(5)[4] == frame[4]);
    }
}

/// The node of the keyboard is the first one whose modalias says so: reports go there, and nowhere
/// where there is none.
pub proof fn law_reports_go_to_the_first_keyboard(nodes: Seq<HidrawNode>)
    ensures
        bt_hidraw(nodes) matches Some(path) ==> exists|i: int|
            0 <= i < nodes.len() && (#[trigger] nodes[i]).is_bt_keyboard() && path == "/dev/"@
                + nodes[i].name@ && forall|j: int|
                0 <= j < i ==> !(#[trigger] nodes[j]).is_bt_keyboard(),
        bt_hidraw(nodes) is None ==> forall|i: int|
            0 <= i < nodes.len() ==> !(#[trigger] nodes[i]).is_bt_keyboard(),
    decreases nodes.len(),
{
    if nodes.len() > 0 && !nodes.first().is_bt_keyboard() {
        let rest = nodes.drop_first();
        law_reports_go_to_the_first_keyboard(rest);
        if let Some(path) = bt_hidraw(nodes) {
            let i = choose|i: int|
                0 <= i < rest.len() && (#[trigger] rest[i]).is_bt_keyboard() && path == "/dev/"@
                    + rest[i].name@ && forall|j: int|
                    0 <= j < i ==> !(#[trigger] rest[j]).is_bt_keyboard();
            assert(nodes[i + 1] == rest[i]);
            assert forall|j: int| 0 <= j < i + 1 implies !(
            #[trigger] nodes[j]).is_bt_keyboard() by {
                if j > 0 {
                    assert(nodes[j] == rest[j - 1]);
                }
            }
        } else {
            assert forall|j: int| 0 <= j < nodes.len() implies !(
            #[trigger] nodes[j]).is_bt_keyboard() by {
                if j > 0 {
                    assert(nodes[j] == rest[j - 1]);
                }
            }
        }
    } else if nodes.len() > 0 {
        assert(nodes[0].is_bt_keyboard());
    }
}

/// What is written to set a light is written to the node of the keyboard, and is read back as what
/// was asked for: a level as that level, and the LED as lit or not. It is written wherever there is
/// a node.
pub proof fn law_writes_set_what_was_asked_for(
    level: KeyboardBacklightState,
    enabled: bool,
    nodes: Seq<HidrawNode>,
)
    ensures
        backlight_write(level, nodes) is Some <==> bt_hidraw(nodes) is Some,
        backlight_write(level, nodes) matches Some((path, data)) ==> bt_hidraw(nodes) == Some(path)
            && data.len() == 16 && level_reported(data) == Some(level),
        mic_mute_write(enabled, nodes) is Some <==> bt_hidraw(nodes) is Some,
        mic_mute_write(enabled, nodes) matches Some((path, data)) ==> bt_hidraw(nodes) == Some(path)
            && data.len() == 16 && data.take(3) == seq![0x5au8, 0xd0, 0x7c] && (data[3] == 1
            <==> enabled),
{
    law_backlight_is_read_back(level, enabled);
    assert(mic_mute_frame(enabled).take(3) == seq![0x5au8, 0xd0, 0x7c]);
}

/// The keyboard is known by how its modalias begins, whatever product it names, and the touchpad
/// beside it is not taken for it.
pub proof fn law_keyboard_is_known_by_its_modalias(node: HidrawNode, product: Seq<char>)
    ensures
        text::trimmed(node.modalias@) == "hid:b0005g0001v00000B05"@ + product
            ==> node.is_bt_keyboard(),
        text::trimmed(node.modalias@) == "hid:b0005g0004v00000B05"@ + product
            ==> !node.is_bt_keyboard(),
        node.is_bt_keyboard() ==> text::trimmed(node.modalias@).len() >= 23 && text::trimmed(
            node.modalias@,
        ).take(23) == "hid:b0005g0001v00000B05"@,
{
    reveal_strlit("hid:b0005g0001v00000B05");
    reveal_strlit("hid:b0005g0004v00000B05");
    let modalias = text::trimmed(node.modalias@);
    let keyboard = "hid:b0005g0001v00000B05"@;
    let touchpad = "hid:b0005g0004v00000B05"@;
    if modalias == keyboard + product {
        assert(modalias.subrange(0, 23) == keyboard);
    }
    if modalias == touchpad + product {
        assert(modalias.subrange(0, 23)[13] == touchpad[13]);
        assert(keyboard[13] != touchpad[13]);
    }
}

/// A report is sent as it is, to the node of the keyboard.
pub proof fn law_reports_are_sent_as_they_are(nodes: Seq<HidrawNode>, data: Seq<u8>)
    ensures
        report_to(nodes, data) is Some <==> bt_hidraw(nodes) is Some,
        report_to(nodes, data) matches Some((path, sent)) ==> bt_hidraw(nodes) == Some(path) && sent
            == data,
{
}

} // verus!
