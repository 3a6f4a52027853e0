//! Verified core of a daemon for a laptop with a detachable keyboard and a second screen.
//!
//! The library decides; the program around it reads and writes. A decision takes what was
//! read (file contents, directory entries, input reports, replies) as plain values, and
//! returns what has to be done as plain values too.
use vstd::prelude::*;

pub mod events;
pub mod handshake;
pub mod hidraw;
pub mod keyboard;
pub mod keyboard_bt;
pub mod keyboard_usb;
pub mod mute_state;
pub mod pulse;
pub mod sleep_monitor;
pub mod state;
pub mod state_laws;
pub mod text;

pub use crate::events::{Effect, Event};
pub use crate::state::{KeyboardBacklightState, KeyboardStateManager};

verus! {

/// Whether `c` is a hexadecimal digit.
pub open spec fn is_hex_digit(c: char) -> bool {
    '0' <= c <= '9' || 'a' <= c <= 'f' || 'A' <= c <= 'F'
}

/// The value of a hexadecimal digit.
pub open spec fn hex_digit_value(c: char) -> int {
    if '0' <= c <= '9' {
        c as int - '0' as int
    } else if 'a' <= c <= 'f' {
        c as int - 'a' as int + 10
    } else {
        c as int - 'A' as int + 10
    }
}

/// Whether `text` writes out whole bytes in hexadecimal.
pub open spec fn is_hex(text: Seq<char>) -> bool {
    text.len() % 2 == 0 && forall|i: int| 0 <= i < text.len() ==> is_hex_digit(#[trigger] text[i])
}

/// The bytes that `text` writes out in hexadecimal, two digits each.
pub open spec fn hex_bytes(text: Seq<char>) -> Seq<u8> {
    Seq::new(
        text.len() / 2,
        |i: int| (hex_digit_value(text[2 * i]) * 16 + hex_digit_value(text[2 * i + 1])) as u8,
    )
}

fn hex_digit(c: char) -> (value: u8)
    requires
        is_hex_digit(c),
    ensures
        value == hex_digit_value(c),
        value < 16,
{
    let code: u32 = c as u32;
    if '0' <= c && c <= '9' {
        (code - '0' as u32) as u8
    } else if 'a' <= c && c <= 'f' {
        (code - 'a' as u32 + 10) as u8
    } else {
        (code - 'A' as u32 + 10) as u8
    }
}

/// The bytes that `hex` writes out.
pub fn parse_hex_string(hex: &str) -> (bytes: Vec<u8>)
    requires
        is_hex(hex@),
    ensures
        bytes@ == hex_bytes(hex@),
{
    let digits = text::chars_of(hex);
    let mut bytes: Vec<u8> = Vec::new();
    let count: usize = digits.len() / 2;
    let mut i: usize = 0;
    while i < count
        invariant
            i <= count,
            count == digits.len() / 2,
            digits@ == hex@,
            is_hex(hex@),
            bytes@ == hex_bytes(hex@).take(i as int),
        decreases count - i,
    {
        let high: u8 = hex_digit(digits[2 * i]);
        let low: u8 = hex_digit(digits[2 * i + 1]);
        bytes.push(high * 16 + low);
        assert(hex_bytes(hex@).take(i + 1) == hex_bytes(hex@).take(i as int).push(
            hex_bytes(hex@)[i as int],
        ));
        i = i + 1;
    }
    bytes
}

/// The digits count up from zero, the letters go on from ten, and capitals mean the same.
pub proof fn law_hex_digits_count_up(c: char, d: char)
    requires
        is_hex_digit(c),
        is_hex_digit(d),
    ensures
        0 <= hex_digit_value(c) < 16,
        hex_digit_value('0') == 0,
        hex_digit_value('a') == hex_digit_value('9') + 1,
        hex_digit_value('A') == hex_digit_value('a'),
        d as int == c as int + 1 ==> hex_digit_value(d) == hex_digit_value(c) + 1,
{
}

/// Two digits make one byte, the first of them counting sixteen times, and what is written after
/// them makes the bytes after it.
pub proof fn law_hex_is_read_digit_by_digit(high: char, low: char, rest: Seq<char>)
    requires
        is_hex_digit(high),
        is_hex_digit(low),
        is_hex(rest),
    ensures
        is_hex(seq![high, low] + rest),
        hex_bytes(Seq::empty()) == Seq::<u8>::empty(),
        hex_bytes(seq![high, low] + rest) == seq![
            (hex_digit_value(high) * 16 + hex_digit_value(low)) as u8,
        ] + hex_bytes(rest),
{
    let text = seq![high, low] + rest;
    assert forall|i: int| 0 <= i < text.len() implies is_hex_digit(#[trigger] text[i]) by {
        if i >= 2 {
            assert(text[i] == rest[i - 2]);
        }
    }
    let bytes = seq![(hex_digit_value(high) * 16 + hex_digit_value(low)) as u8] + hex_bytes(rest);
    assert(hex_bytes(text).len() == bytes.len());
    assert forall|i: int| 0 <= i < bytes.len() implies hex_bytes(text)[i] == bytes[i] by {
        if i > 0 {
            assert(text[2 * i] == rest[2 * (i - 1)]);
            assert(text[2 * i + 1] == rest[2 * (i - 1) + 1]);
        }
    }
    assert(hex_bytes(text) == bytes);
}

/// Only the sixteen digits, in either case, are hexadecimal, and only in pairs.
pub proof fn law_hex_comes_in_pairs(text: Seq<char>, c: char)
    ensures
        is_hex(text) ==> text.len() % 2 == 0,
        is_hex(text) ==> forall|i: int| 0 <= i < text.len() ==> is_hex_digit(#[trigger] text[i]),
        text.len() % 2 == 0 && !is_hex(text) ==> exists|i: int|
            0 <= i < text.len() && !is_hex_digit(#[trigger] text[i]),
        is_hex_digit(c) <==> '0' <= c <= '9' || 'a' <= c <= 'f' || 'A' <= c <= 'F',
{
}

} // verus!
