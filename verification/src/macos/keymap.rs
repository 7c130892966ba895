//! Mapping between macOS virtual key codes and HID usage IDs.
//!
//! macOS virtual key codes name positions on an ANSI keyboard, not characters,
//! so the mapping to HID usages is a static table rather than a
//! layout-dependent lookup. The table follows the mapping used by Chromium and
//! WebKit. The `fn` key (`0x3F`) has no HID keyboard usage and is deliberately
//! absent: forwarding it would mean inventing an encoding.

use vstd::prelude::*;

use crate::keycode::{
    hid_application, hid_digit, hid_function_key, hid_international, hid_keypad_digit,
    hid_keypad_symbol, hid_lang, hid_letter, hid_non_us_backslash, hid_num_lock, key_name, KeyCode,
};

verus! {

/// The HID key at macOS virtual key code `vk`, if the table maps it.
pub open spec fn mac_key(vk: u16) -> Option<KeyCode> {
    match vk {
        0x00 => Some(KeyCode { page: 0x07, usage: 0x04 }), // A
        0x01 => Some(KeyCode { page: 0x07, usage: 0x16 }), // S
        0x02 => Some(KeyCode { page: 0x07, usage: 0x07 }), // D
        0x03 => Some(KeyCode { page: 0x07, usage: 0x09 }), // F
        0x04 => Some(KeyCode { page: 0x07, usage: 0x0B }), // H
        0x05 => Some(KeyCode { page: 0x07, usage: 0x0A }), // G
        0x06 => Some(KeyCode { page: 0x07, usage: 0x1D }), // Z
        0x07 => Some(KeyCode { page: 0x07, usage: 0x1B }), // X
        0x08 => Some(KeyCode { page: 0x07, usage: 0x06 }), // C
        0x09 => Some(KeyCode { page: 0x07, usage: 0x19 }), // V
        0x0A => Some(KeyCode { page: 0x07, usage: 0x64 }), // ISO section / non-US backslash
        0x0B => Some(KeyCode { page: 0x07, usage: 0x05 }), // B
        0x0C => Some(KeyCode { page: 0x07, usage: 0x14 }), // Q
        0x0D => Some(KeyCode { page: 0x07, usage: 0x1A }), // W
        0x0E => Some(KeyCode { page: 0x07, usage: 0x08 }), // E
        0x0F => Some(KeyCode { page: 0x07, usage: 0x15 }), // R
        0x10 => Some(KeyCode { page: 0x07, usage: 0x1C }), // Y
        0x11 => Some(KeyCode { page: 0x07, usage: 0x17 }), // T
        0x12 => Some(KeyCode { page: 0x07, usage: 0x1E }), // 1
        0x13 => Some(KeyCode { page: 0x07, usage: 0x1F }), // 2
        0x14 => Some(KeyCode { page: 0x07, usage: 0x20 }), // 3
        0x15 => Some(KeyCode { page: 0x07, usage: 0x21 }), // 4
        0x16 => Some(KeyCode { page: 0x07, usage: 0x23 }), // 6
        0x17 => Some(KeyCode { page: 0x07, usage: 0x22 }), // 5
        0x18 => Some(KeyCode { page: 0x07, usage: 0x2E }), // =
        0x19 => Some(KeyCode { page: 0x07, usage: 0x26 }), // 9
        0x1A => Some(KeyCode { page: 0x07, usage: 0x24 }), // 7
        0x1B => Some(KeyCode { page: 0x07, usage: 0x2D }), // -
        0x1C => Some(KeyCode { page: 0x07, usage: 0x25 }), // 8
        0x1D => Some(KeyCode { page: 0x07, usage: 0x27 }), // 0
        0x1E => Some(KeyCode { page: 0x07, usage: 0x30 }), // ]
        0x1F => Some(KeyCode { page: 0x07, usage: 0x12 }), // O
        0x20 => Some(KeyCode { page: 0x07, usage: 0x18 }), // U
        0x21 => Some(KeyCode { page: 0x07, usage: 0x2F }), // [
        0x22 => Some(KeyCode { page: 0x07, usage: 0x0C }), // I
        0x23 => Some(KeyCode { page: 0x07, usage: 0x13 }), // P
        0x24 => Some(KeyCode { page: 0x07, usage: 0x28 }), // Return
        0x25 => Some(KeyCode { page: 0x07, usage: 0x0F }), // L
        0x26 => Some(KeyCode { page: 0x07, usage: 0x0D }), // J
        0x27 => Some(KeyCode { page: 0x07, usage: 0x34 }), // '
        0x28 => Some(KeyCode { page: 0x07, usage: 0x0E }), // K
        0x29 => Some(KeyCode { page: 0x07, usage: 0x33 }), // ;
        0x2A => Some(KeyCode { page: 0x07, usage: 0x31 }), // backslash
        0x2B => Some(KeyCode { page: 0x07, usage: 0x36 }), // ,
        0x2C => Some(KeyCode { page: 0x07, usage: 0x38 }), // /
        0x2D => Some(KeyCode { page: 0x07, usage: 0x11 }), // N
        0x2E => Some(KeyCode { page: 0x07, usage: 0x10 }), // M
        0x2F => Some(KeyCode { page: 0x07, usage: 0x37 }), // .
        0x30 => Some(KeyCode { page: 0x07, usage: 0x2B }), // Tab
        0x31 => Some(KeyCode { page: 0x07, usage: 0x2C }), // Space
        0x32 => Some(KeyCode { page: 0x07, usage: 0x35 }), // `
        0x33 => Some(KeyCode { page: 0x07, usage: 0x2A }), // Delete (Backspace)
        0x35 => Some(KeyCode { page: 0x07, usage: 0x29 }), // Escape
        0x36 => Some(KeyCode { page: 0x07, usage: 0xE7 }), // Right Command
        0x37 => Some(KeyCode { page: 0x07, usage: 0xE3 }), // Left Command
        0x38 => Some(KeyCode { page: 0x07, usage: 0xE1 }), // Left Shift
        0x39 => Some(KeyCode { page: 0x07, usage: 0x39 }), // Caps Lock (a key, not a modifier)
        0x3A => Some(KeyCode { page: 0x07, usage: 0xE2 }), // Left Option
        0x3B => Some(KeyCode { page: 0x07, usage: 0xE0 }), // Left Control
        0x3C => Some(KeyCode { page: 0x07, usage: 0xE5 }), // Right Shift
        0x3D => Some(KeyCode { page: 0x07, usage: 0xE6 }), // Right Option
        0x3E => Some(KeyCode { page: 0x07, usage: 0xE4 }), // Right Control
        0x40 => Some(KeyCode { page: 0x07, usage: 0x6C }), // F17
        0x41 => Some(KeyCode { page: 0x07, usage: 0x63 }), // Keypad .
        0x43 => Some(KeyCode { page: 0x07, usage: 0x55 }), // Keypad *
        0x45 => Some(KeyCode { page: 0x07, usage: 0x57 }), // Keypad +
        0x47 => Some(KeyCode { page: 0x07, usage: 0x53 }), // Keypad Clear / Num Lock
        0x48 => Some(KeyCode { page: 0x0C, usage: 0xE9 }), // Volume Up
        0x49 => Some(KeyCode { page: 0x0C, usage: 0xEA }), // Volume Down
        0x4A => Some(KeyCode { page: 0x0C, usage: 0xE2 }), // Mute
        0x4B => Some(KeyCode { page: 0x07, usage: 0x54 }), // Keypad /
        0x4C => Some(KeyCode { page: 0x07, usage: 0x58 }), // Keypad Enter
        0x4E => Some(KeyCode { page: 0x07, usage: 0x56 }), // Keypad -
        0x4F => Some(KeyCode { page: 0x07, usage: 0x6D }), // F18
        0x50 => Some(KeyCode { page: 0x07, usage: 0x6E }), // F19
        0x51 => Some(KeyCode { page: 0x07, usage: 0x67 }), // Keypad =
        0x52 => Some(KeyCode { page: 0x07, usage: 0x62 }), // Keypad 0
        0x53 => Some(KeyCode { page: 0x07, usage: 0x59 }), // Keypad 1
        0x54 => Some(KeyCode { page: 0x07, usage: 0x5A }), // Keypad 2
        0x55 => Some(KeyCode { page: 0x07, usage: 0x5B }), // Keypad 3
        0x56 => Some(KeyCode { page: 0x07, usage: 0x5C }), // Keypad 4
        0x57 => Some(KeyCode { page: 0x07, usage: 0x5D }), // Keypad 5
        0x58 => Some(KeyCode { page: 0x07, usage: 0x5E }), // Keypad 6
        0x59 => Some(KeyCode { page: 0x07, usage: 0x5F }), // Keypad 7
        0x5A => Some(KeyCode { page: 0x07, usage: 0x6F }), // F20
        0x5B => Some(KeyCode { page: 0x07, usage: 0x60 }), // Keypad 8
        0x5C => Some(KeyCode { page: 0x07, usage: 0x61 }), // Keypad 9
        0x5D => Some(KeyCode { page: 0x07, usage: 0x89 }), // JIS Yen
        0x5E => Some(KeyCode { page: 0x07, usage: 0x87 }), // JIS underscore
        0x5F => Some(KeyCode { page: 0x07, usage: 0x85 }), // JIS keypad comma
        0x60 => Some(KeyCode { page: 0x07, usage: 0x3E }), // F5
        0x61 => Some(KeyCode { page: 0x07, usage: 0x3F }), // F6
        0x62 => Some(KeyCode { page: 0x07, usage: 0x40 }), // F7
        0x63 => Some(KeyCode { page: 0x07, usage: 0x3C }), // F3
        0x64 => Some(KeyCode { page: 0x07, usage: 0x41 }), // F8
        0x65 => Some(KeyCode { page: 0x07, usage: 0x42 }), // F9
        0x66 => Some(KeyCode { page: 0x07, usage: 0x91 }), // JIS Eisu (Lang2)
        0x67 => Some(KeyCode { page: 0x07, usage: 0x44 }), // F11
        0x68 => Some(KeyCode { page: 0x07, usage: 0x90 }), // JIS Kana (Lang1)
        0x69 => Some(KeyCode { page: 0x07, usage: 0x68 }), // F13
        0x6A => Some(KeyCode { page: 0x07, usage: 0x6B }), // F16
        0x6B => Some(KeyCode { page: 0x07, usage: 0x69 }), // F14
        0x6D => Some(KeyCode { page: 0x07, usage: 0x43 }), // F10
        0x6E => Some(KeyCode { page: 0x07, usage: 0x65 }), // Application / context menu
        0x6F => Some(KeyCode { page: 0x07, usage: 0x45 }), // F12
        0x71 => Some(KeyCode { page: 0x07, usage: 0x6A }), // F15
        0x72 => Some(KeyCode { page: 0x07, usage: 0x49 }), // Help / Insert
        0x73 => Some(KeyCode { page: 0x07, usage: 0x4A }), // Home
        0x74 => Some(KeyCode { page: 0x07, usage: 0x4B }), // Page Up
        0x75 => Some(KeyCode { page: 0x07, usage: 0x4C }), // Forward Delete
        0x76 => Some(KeyCode { page: 0x07, usage: 0x3D }), // F4
        0x77 => Some(KeyCode { page: 0x07, usage: 0x4D }), // End
        0x78 => Some(KeyCode { page: 0x07, usage: 0x3B }), // F2
        0x79 => Some(KeyCode { page: 0x07, usage: 0x4E }), // Page Down
        0x7A => Some(KeyCode { page: 0x07, usage: 0x3A }), // F1
        0x7B => Some(KeyCode { page: 0x07, usage: 0x50 }), // Left Arrow
        0x7C => Some(KeyCode { page: 0x07, usage: 0x4F }), // Right Arrow
        0x7D => Some(KeyCode { page: 0x07, usage: 0x51 }), // Down Arrow
        0x7E => Some(KeyCode { page: 0x07, usage: 0x52 }), // Up Arrow
        _ => None,
    }
}

/// The macOS virtual key code of a HID key, if the table maps it.
pub open spec fn mac_virtual_key(key: KeyCode) -> Option<u16> {
    match (key.page, key.usage) {
        (0x07, 0x04) => Some(0x00), // A
        (0x07, 0x16) => Some(0x01), // S
        (0x07, 0x07) => Some(0x02), // D
        (0x07, 0x09) => Some(0x03), // F
        (0x07, 0x0B) => Some(0x04), // H
        (0x07, 0x0A) => Some(0x05), // G
        (0x07, 0x1D) => Some(0x06), // Z
        (0x07, 0x1B) => Some(0x07), // X
        (0x07, 0x06) => Some(0x08), // C
        (0x07, 0x19) => Some(0x09), // V
        (0x07, 0x64) => Some(0x0A), // ISO section / non-US backslash
        (0x07, 0x05) => Some(0x0B), // B
        (0x07, 0x14) => Some(0x0C), // Q
        (0x07, 0x1A) => Some(0x0D), // W
        (0x07, 0x08) => Some(0x0E), // E
        (0x07, 0x15) => Some(0x0F), // R
        (0x07, 0x1C) => Some(0x10), // Y
        (0x07, 0x17) => Some(0x11), // T
        (0x07, 0x1E) => Some(0x12), // 1
        (0x07, 0x1F) => Some(0x13), // 2
        (0x07, 0x20) => Some(0x14), // 3
        (0x07, 0x21) => Some(0x15), // 4
        (0x07, 0x23) => Some(0x16), // 6
        (0x07, 0x22) => Some(0x17), // 5
        (0x07, 0x2E) => Some(0x18), // =
        (0x07, 0x26) => Some(0x19), // 9
        (0x07, 0x24) => Some(0x1A), // 7
        (0x07, 0x2D) => Some(0x1B), // -
        (0x07, 0x25) => Some(0x1C), // 8
        (0x07, 0x27) => Some(0x1D), // 0
        (0x07, 0x30) => Some(0x1E), // ]
        (0x07, 0x12) => Some(0x1F), // O
        (0x07, 0x18) => Some(0x20), // U
        (0x07, 0x2F) => Some(0x21), // [
        (0x07, 0x0C) => Some(0x22), // I
        (0x07, 0x13) => Some(0x23), // P
        (0x07, 0x28) => Some(0x24), // Return
        (0x07, 0x0F) => Some(0x25), // L
        (0x07, 0x0D) => Some(0x26), // J
        (0x07, 0x34) => Some(0x27), // '
        (0x07, 0x0E) => Some(0x28), // K
        (0x07, 0x33) => Some(0x29), // ;
        (0x07, 0x31) => Some(0x2A), // backslash
        (0x07, 0x36) => Some(0x2B), // ,
        (0x07, 0x38) => Some(0x2C), // /
        (0x07, 0x11) => Some(0x2D), // N
        (0x07, 0x10) => Some(0x2E), // M
        (0x07, 0x37) => Some(0x2F), // .
        (0x07, 0x2B) => Some(0x30), // Tab
        (0x07, 0x2C) => Some(0x31), // Space
        (0x07, 0x35) => Some(0x32), // `
        (0x07, 0x2A) => Some(0x33), // Delete (Backspace)
        (0x07, 0x29) => Some(0x35), // Escape
        (0x07, 0xE7) => Some(0x36), // Right Command
        (0x07, 0xE3) => Some(0x37), // Left Command
        (0x07, 0xE1) => Some(0x38), // Left Shift
        (0x07, 0x39) => Some(0x39), // Caps Lock (a key, not a modifier)
        (0x07, 0xE2) => Some(0x3A), // Left Option
        (0x07, 0xE0) => Some(0x3B), // Left Control
        (0x07, 0xE5) => Some(0x3C), // Right Shift
        (0x07, 0xE6) => Some(0x3D), // Right Option
        (0x07, 0xE4) => Some(0x3E), // Right Control
        (0x07, 0x6C) => Some(0x40), // F17
        (0x07, 0x63) => Some(0x41), // Keypad .
        (0x07, 0x55) => Some(0x43), // Keypad *
        (0x07, 0x57) => Some(0x45), // Keypad +
        (0x07, 0x53) => Some(0x47), // Keypad Clear / Num Lock
        (0x0C, 0xE9) => Some(0x48), // Volume Up
        (0x0C, 0xEA) => Some(0x49), // Volume Down
        (0x0C, 0xE2) => Some(0x4A), // Mute
        (0x07, 0x54) => Some(0x4B), // Keypad /
        (0x07, 0x58) => Some(0x4C), // Keypad Enter
        (0x07, 0x56) => Some(0x4E), // Keypad -
        (0x07, 0x6D) => Some(0x4F), // F18
        (0x07, 0x6E) => Some(0x50), // F19
        (0x07, 0x67) => Some(0x51), // Keypad =
        (0x07, 0x62) => Some(0x52), // Keypad 0
        (0x07, 0x59) => Some(0x53), // Keypad 1
        (0x07, 0x5A) => Some(0x54), // Keypad 2
        (0x07, 0x5B) => Some(0x55), // Keypad 3
        (0x07, 0x5C) => Some(0x56), // Keypad 4
        (0x07, 0x5D) => Some(0x57), // Keypad 5
        (0x07, 0x5E) => Some(0x58), // Keypad 6
        (0x07, 0x5F) => Some(0x59), // Keypad 7
        (0x07, 0x6F) => Some(0x5A), // F20
        (0x07, 0x60) => Some(0x5B), // Keypad 8
        (0x07, 0x61) => Some(0x5C), // Keypad 9
        (0x07, 0x89) => Some(0x5D), // JIS Yen
        (0x07, 0x87) => Some(0x5E), // JIS underscore
        (0x07, 0x85) => Some(0x5F), // JIS keypad comma
        (0x07, 0x3E) => Some(0x60), // F5
        (0x07, 0x3F) => Some(0x61), // F6
        (0x07, 0x40) => Some(0x62), // F7
        (0x07, 0x3C) => Some(0x63), // F3
        (0x07, 0x41) => Some(0x64), // F8
        (0x07, 0x42) => Some(0x65), // F9
        (0x07, 0x91) => Some(0x66), // JIS Eisu (Lang2)
        (0x07, 0x44) => Some(0x67), // F11
        (0x07, 0x90) => Some(0x68), // JIS Kana (Lang1)
        (0x07, 0x68) => Some(0x69), // F13
        (0x07, 0x6B) => Some(0x6A), // F16
        (0x07, 0x69) => Some(0x6B), // F14
        (0x07, 0x43) => Some(0x6D), // F10
        (0x07, 0x65) => Some(0x6E), // Application / context menu
        (0x07, 0x45) => Some(0x6F), // F12
        (0x07, 0x6A) => Some(0x71), // F15
        (0x07, 0x49) => Some(0x72), // Help / Insert
        (0x07, 0x4A) => Some(0x73), // Home
        (0x07, 0x4B) => Some(0x74), // Page Up
        (0x07, 0x4C) => Some(0x75), // Forward Delete
        (0x07, 0x3D) => Some(0x76), // F4
        (0x07, 0x4D) => Some(0x77), // End
        (0x07, 0x3B) => Some(0x78), // F2
        (0x07, 0x4E) => Some(0x79), // Page Down
        (0x07, 0x3A) => Some(0x7A), // F1
        (0x07, 0x50) => Some(0x7B), // Left Arrow
        (0x07, 0x4F) => Some(0x7C), // Right Arrow
        (0x07, 0x51) => Some(0x7D), // Down Arrow
        (0x07, 0x52) => Some(0x7E), // Up Arrow
        _ => None,
    }
}

/// Converts a macOS virtual key code to a HID key code; `None` for keys with
/// no HID equivalent, which are dropped rather than forwarded.
pub fn to_hid(virtual_key: u16) -> (r: Option<KeyCode>)
    ensures
        r == mac_key(virtual_key),
{
    match virtual_key {
        0x00 => Some(KeyCode { page: 0x07, usage: 0x04 }), // A
        0x01 => Some(KeyCode { page: 0x07, usage: 0x16 }), // S
        0x02 => Some(KeyCode { page: 0x07, usage: 0x07 }), // D
        0x03 => Some(KeyCode { page: 0x07, usage: 0x09 }), // F
        0x04 => Some(KeyCode { page: 0x07, usage: 0x0B }), // H
        0x05 => Some(KeyCode { page: 0x07, usage: 0x0A }), // G
        0x06 => Some(KeyCode { page: 0x07, usage: 0x1D }), // Z
        0x07 => Some(KeyCode { page: 0x07, usage: 0x1B }), // X
        0x08 => Some(KeyCode { page: 0x07, usage: 0x06 }), // C
        0x09 => Some(KeyCode { page: 0x07, usage: 0x19 }), // V
        0x0A => Some(KeyCode { page: 0x07, usage: 0x64 }), // ISO section / non-US backslash
        0x0B => Some(KeyCode { page: 0x07, usage: 0x05 }), // B
        0x0C => Some(KeyCode { page: 0x07, usage: 0x14 }), // Q
        0x0D => Some(KeyCode { page: 0x07, usage: 0x1A }), // W
        0x0E => Some(KeyCode { page: 0x07, usage: 0x08 }), // E
        0x0F => Some(KeyCode { page: 0x07, usage: 0x15 }), // R
        0x10 => Some(KeyCode { page: 0x07, usage: 0x1C }), // Y
        0x11 => Some(KeyCode { page: 0x07, usage: 0x17 }), // T
        0x12 => Some(KeyCode { page: 0x07, usage: 0x1E }), // 1
        0x13 => Some(KeyCode { page: 0x07, usage: 0x1F }), // 2
        0x14 => Some(KeyCode { page: 0x07, usage: 0x20 }), // 3
        0x15 => Some(KeyCode { page: 0x07, usage: 0x21 }), // 4
        0x16 => Some(KeyCode { page: 0x07, usage: 0x23 }), // 6
        0x17 => Some(KeyCode { page: 0x07, usage: 0x22 }), // 5
        0x18 => Some(KeyCode { page: 0x07, usage: 0x2E }), // =
        0x19 => Some(KeyCode { page: 0x07, usage: 0x26 }), // 9
        0x1A => Some(KeyCode { page: 0x07, usage: 0x24 }), // 7
        0x1B => Some(KeyCode { page: 0x07, usage: 0x2D }), // -
        0x1C => Some(KeyCode { page: 0x07, usage: 0x25 }), // 8
        0x1D => Some(KeyCode { page: 0x07, usage: 0x27 }), // 0
        0x1E => Some(KeyCode { page: 0x07, usage: 0x30 }), // ]
        0x1F => Some(KeyCode { page: 0x07, usage: 0x12 }), // O
        0x20 => Some(KeyCode { page: 0x07, usage: 0x18 }), // U
        0x21 => Some(KeyCode { page: 0x07, usage: 0x2F }), // [
        0x22 => Some(KeyCode { page: 0x07, usage: 0x0C }), // I
        0x23 => Some(KeyCode { page: 0x07, usage: 0x13 }), // P
        0x24 => Some(KeyCode { page: 0x07, usage: 0x28 }), // Return
        0x25 => Some(KeyCode { page: 0x07, usage: 0x0F }), // L
        0x26 => Some(KeyCode { page: 0x07, usage: 0x0D }), // J
        0x27 => Some(KeyCode { page: 0x07, usage: 0x34 }), // '
        0x28 => Some(KeyCode { page: 0x07, usage: 0x0E }), // K
        0x29 => Some(KeyCode { page: 0x07, usage: 0x33 }), // ;
        0x2A => Some(KeyCode { page: 0x07, usage: 0x31 }), // backslash
        0x2B => Some(KeyCode { page: 0x07, usage: 0x36 }), // ,
        0x2C => Some(KeyCode { page: 0x07, usage: 0x38 }), // /
        0x2D => Some(KeyCode { page: 0x07, usage: 0x11 }), // N
        0x2E => Some(KeyCode { page: 0x07, usage: 0x10 }), // M
        0x2F => Some(KeyCode { page: 0x07, usage: 0x37 }), // .
        0x30 => Some(KeyCode { page: 0x07, usage: 0x2B }), // Tab
        0x31 => Some(KeyCode { page: 0x07, usage: 0x2C }), // Space
        0x32 => Some(KeyCode { page: 0x07, usage: 0x35 }), // `
        0x33 => Some(KeyCode { page: 0x07, usage: 0x2A }), // Delete (Backspace)
        0x35 => Some(KeyCode { page: 0x07, usage: 0x29 }), // Escape
        0x36 => Some(KeyCode { page: 0x07, usage: 0xE7 }), // Right Command
        0x37 => Some(KeyCode { page: 0x07, usage: 0xE3 }), // Left Command
        0x38 => Some(KeyCode { page: 0x07, usage: 0xE1 }), // Left Shift
        0x39 => Some(KeyCode { page: 0x07, usage: 0x39 }), // Caps Lock (a key, not a modifier)
        0x3A => Some(KeyCode { page: 0x07, usage: 0xE2 }), // Left Option
        0x3B => Some(KeyCode { page: 0x07, usage: 0xE0 }), // Left Control
        0x3C => Some(KeyCode { page: 0x07, usage: 0xE5 }), // Right Shift
        0x3D => Some(KeyCode { page: 0x07, usage: 0xE6 }), // Right Option
        0x3E => Some(KeyCode { page: 0x07, usage: 0xE4 }), // Right Control
        0x40 => Some(KeyCode { page: 0x07, usage: 0x6C }), // F17
        0x41 => Some(KeyCode { page: 0x07, usage: 0x63 }), // Keypad .
        0x43 => Some(KeyCode { page: 0x07, usage: 0x55 }), // Keypad *
        0x45 => Some(KeyCode { page: 0x07, usage: 0x57 }), // Keypad +
        0x47 => Some(KeyCode { page: 0x07, usage: 0x53 }), // Keypad Clear / Num Lock
        0x48 => Some(KeyCode { page: 0x0C, usage: 0xE9 }), // Volume Up
        0x49 => Some(KeyCode { page: 0x0C, usage: 0xEA }), // Volume Down
        0x4A => Some(KeyCode { page: 0x0C, usage: 0xE2 }), // Mute
        0x4B => Some(KeyCode { page: 0x07, usage: 0x54 }), // Keypad /
        0x4C => Some(KeyCode { page: 0x07, usage: 0x58 }), // Keypad Enter
        0x4E => Some(KeyCode { page: 0x07, usage: 0x56 }), // Keypad -
        0x4F => Some(KeyCode { page: 0x07, usage: 0x6D }), // F18
        0x50 => Some(KeyCode { page: 0x07, usage: 0x6E }), // F19
        0x51 => Some(KeyCode { page: 0x07, usage: 0x67 }), // Keypad =
        0x52 => Some(KeyCode { page: 0x07, usage: 0x62 }), // Keypad 0
        0x53 => Some(KeyCode { page: 0x07, usage: 0x59 }), // Keypad 1
        0x54 => Some(KeyCode { page: 0x07, usage: 0x5A }), // Keypad 2
        0x55 => Some(KeyCode { page: 0x07, usage: 0x5B }), // Keypad 3
        0x56 => Some(KeyCode { page: 0x07, usage: 0x5C }), // Keypad 4
        0x57 => Some(KeyCode { page: 0x07, usage: 0x5D }), // Keypad 5
        0x58 => Some(KeyCode { page: 0x07, usage: 0x5E }), // Keypad 6
        0x59 => Some(KeyCode { page: 0x07, usage: 0x5F }), // Keypad 7
        0x5A => Some(KeyCode { page: 0x07, usage: 0x6F }), // F20
        0x5B => Some(KeyCode { page: 0x07, usage: 0x60 }), // Keypad 8
        0x5C => Some(KeyCode { page: 0x07, usage: 0x61 }), // Keypad 9
        0x5D => Some(KeyCode { page: 0x07, usage: 0x89 }), // JIS Yen
        0x5E => Some(KeyCode { page: 0x07, usage: 0x87 }), // JIS underscore
        0x5F => Some(KeyCode { page: 0x07, usage: 0x85 }), // JIS keypad comma
        0x60 => Some(KeyCode { page: 0x07, usage: 0x3E }), // F5
        0x61 => Some(KeyCode { page: 0x07, usage: 0x3F }), // F6
        0x62 => Some(KeyCode { page: 0x07, usage: 0x40 }), // F7
        0x63 => Some(KeyCode { page: 0x07, usage: 0x3C }), // F3
        0x64 => Some(KeyCode { page: 0x07, usage: 0x41 }), // F8
        0x65 => Some(KeyCode { page: 0x07, usage: 0x42 }), // F9
        0x66 => Some(KeyCode { page: 0x07, usage: 0x91 }), // JIS Eisu (Lang2)
        0x67 => Some(KeyCode { page: 0x07, usage: 0x44 }), // F11
        0x68 => Some(KeyCode { page: 0x07, usage: 0x90 }), // JIS Kana (Lang1)
        0x69 => Some(KeyCode { page: 0x07, usage: 0x68 }), // F13
        0x6A => Some(KeyCode { page: 0x07, usage: 0x6B }), // F16
        0x6B => Some(KeyCode { page: 0x07, usage: 0x69 }), // F14
        0x6D => Some(KeyCode { page: 0x07, usage: 0x43 }), // F10
        0x6E => Some(KeyCode { page: 0x07, usage: 0x65 }), // Application / context menu
        0x6F => Some(KeyCode { page: 0x07, usage: 0x45 }), // F12
        0x71 => Some(KeyCode { page: 0x07, usage: 0x6A }), // F15
        0x72 => Some(KeyCode { page: 0x07, usage: 0x49 }), // Help / Insert
        0x73 => Some(KeyCode { page: 0x07, usage: 0x4A }), // Home
        0x74 => Some(KeyCode { page: 0x07, usage: 0x4B }), // Page Up
        0x75 => Some(KeyCode { page: 0x07, usage: 0x4C }), // Forward Delete
        0x76 => Some(KeyCode { page: 0x07, usage: 0x3D }), // F4
        0x77 => Some(KeyCode { page: 0x07, usage: 0x4D }), // End
        0x78 => Some(KeyCode { page: 0x07, usage: 0x3B }), // F2
        0x79 => Some(KeyCode { page: 0x07, usage: 0x4E }), // Page Down
        0x7A => Some(KeyCode { page: 0x07, usage: 0x3A }), // F1
        0x7B => Some(KeyCode { page: 0x07, usage: 0x50 }), // Left Arrow
        0x7C => Some(KeyCode { page: 0x07, usage: 0x4F }), // Right Arrow
        0x7D => Some(KeyCode { page: 0x07, usage: 0x51 }), // Down Arrow
        0x7E => Some(KeyCode { page: 0x07, usage: 0x52 }), // Up Arrow
        _ => None,
    }
}

/// Converts a HID key code to a macOS virtual key code; `None` for usages this
/// keyboard has no position for, which a peer may legitimately send.
pub fn from_hid(key: KeyCode) -> (r: Option<u16>)
    ensures
        r == mac_virtual_key(key),
{
    match (key.page, key.usage) {
        (0x07, 0x04) => Some(0x00), // A
        (0x07, 0x16) => Some(0x01), // S
        (0x07, 0x07) => Some(0x02), // D
        (0x07, 0x09) => Some(0x03), // F
        (0x07, 0x0B) => Some(0x04), // H
        (0x07, 0x0A) => Some(0x05), // G
        (0x07, 0x1D) => Some(0x06), // Z
        (0x07, 0x1B) => Some(0x07), // X
        (0x07, 0x06) => Some(0x08), // C
        (0x07, 0x19) => Some(0x09), // V
        (0x07, 0x64) => Some(0x0A), // ISO section / non-US backslash
        (0x07, 0x05) => Some(0x0B), // B
        (0x07, 0x14) => Some(0x0C), // Q
        (0x07, 0x1A) => Some(0x0D), // W
        (0x07, 0x08) => Some(0x0E), // E
        (0x07, 0x15) => Some(0x0F), // R
        (0x07, 0x1C) => Some(0x10), // Y
        (0x07, 0x17) => Some(0x11), // T
        (0x07, 0x1E) => Some(0x12), // 1
        (0x07, 0x1F) => Some(0x13), // 2
        (0x07, 0x20) => Some(0x14), // 3
        (0x07, 0x21) => Some(0x15), // 4
        (0x07, 0x23) => Some(0x16), // 6
        (0x07, 0x22) => Some(0x17), // 5
        (0x07, 0x2E) => Some(0x18), // =
        (0x07, 0x26) => Some(0x19), // 9
        (0x07, 0x24) => Some(0x1A), // 7
        (0x07, 0x2D) => Some(0x1B), // -
        (0x07, 0x25) => Some(0x1C), // 8
        (0x07, 0x27) => Some(0x1D), // 0
        (0x07, 0x30) => Some(0x1E), // ]
        (0x07, 0x12) => Some(0x1F), // O
        (0x07, 0x18) => Some(0x20), // U
        (0x07, 0x2F) => Some(0x21), // [
        (0x07, 0x0C) => Some(0x22), // I
        (0x07, 0x13) => Some(0x23), // P
        (0x07, 0x28) => Some(0x24), // Return
        (0x07, 0x0F) => Some(0x25), // L
        (0x07, 0x0D) => Some(0x26), // J
        (0x07, 0x34) => Some(0x27), // '
        (0x07, 0x0E) => Some(0x28), // K
        (0x07, 0x33) => Some(0x29), // ;
        (0x07, 0x31) => Some(0x2A), // backslash
        (0x07, 0x36) => Some(0x2B), // ,
        (0x07, 0x38) => Some(0x2C), // /
        (0x07, 0x11) => Some(0x2D), // N
        (0x07, 0x10) => Some(0x2E), // M
        (0x07, 0x37) => Some(0x2F), // .
        (0x07, 0x2B) => Some(0x30), // Tab
        (0x07, 0x2C) => Some(0x31), // Space
        (0x07, 0x35) => Some(0x32), // `
        (0x07, 0x2A) => Some(0x33), // Delete (Backspace)
        (0x07, 0x29) => Some(0x35), // Escape
        (0x07, 0xE7) => Some(0x36), // Right Command
        (0x07, 0xE3) => Some(0x37), // Left Command
        (0x07, 0xE1) => Some(0x38), // Left Shift
        (0x07, 0x39) => Some(0x39), // Caps Lock (a key, not a modifier)
        (0x07, 0xE2) => Some(0x3A), // Left Option
        (0x07, 0xE0) => Some(0x3B), // Left Control
        (0x07, 0xE5) => Some(0x3C), // Right Shift
        (0x07, 0xE6) => Some(0x3D), // Right Option
        (0x07, 0xE4) => Some(0x3E), // Right Control
        (0x07, 0x6C) => Some(0x40), // F17
        (0x07, 0x63) => Some(0x41), // Keypad .
        (0x07, 0x55) => Some(0x43), // Keypad *
        (0x07, 0x57) => Some(0x45), // Keypad +
        (0x07, 0x53) => Some(0x47), // Keypad Clear / Num Lock
        (0x0C, 0xE9) => Some(0x48), // Volume Up
        (0x0C, 0xEA) => Some(0x49), // Volume Down
        (0x0C, 0xE2) => Some(0x4A), // Mute
        (0x07, 0x54) => Some(0x4B), // Keypad /
        (0x07, 0x58) => Some(0x4C), // Keypad Enter
        (0x07, 0x56) => Some(0x4E), // Keypad -
        (0x07, 0x6D) => Some(0x4F), // F18
        (0x07, 0x6E) => Some(0x50), // F19
        (0x07, 0x67) => Some(0x51), // Keypad =
        (0x07, 0x62) => Some(0x52), // Keypad 0
        (0x07, 0x59) => Some(0x53), // Keypad 1
        (0x07, 0x5A) => Some(0x54), // Keypad 2
        (0x07, 0x5B) => Some(0x55), // Keypad 3
        (0x07, 0x5C) => Some(0x56), // Keypad 4
        (0x07, 0x5D) => Some(0x57), // Keypad 5
        (0x07, 0x5E) => Some(0x58), // Keypad 6
        (0x07, 0x5F) => Some(0x59), // Keypad 7
        (0x07, 0x6F) => Some(0x5A), // F20
        (0x07, 0x60) => Some(0x5B), // Keypad 8
        (0x07, 0x61) => Some(0x5C), // Keypad 9
        (0x07, 0x89) => Some(0x5D), // JIS Yen
        (0x07, 0x87) => Some(0x5E), // JIS underscore
        (0x07, 0x85) => Some(0x5F), // JIS keypad comma
        (0x07, 0x3E) => Some(0x60), // F5
        (0x07, 0x3F) => Some(0x61), // F6
        (0x07, 0x40) => Some(0x62), // F7
        (0x07, 0x3C) => Some(0x63), // F3
        (0x07, 0x41) => Some(0x64), // F8
        (0x07, 0x42) => Some(0x65), // F9
        (0x07, 0x91) => Some(0x66), // JIS Eisu (Lang2)
        (0x07, 0x44) => Some(0x67), // F11
        (0x07, 0x90) => Some(0x68), // JIS Kana (Lang1)
        (0x07, 0x68) => Some(0x69), // F13
        (0x07, 0x6B) => Some(0x6A), // F16
        (0x07, 0x69) => Some(0x6B), // F14
        (0x07, 0x43) => Some(0x6D), // F10
        (0x07, 0x65) => Some(0x6E), // Application / context menu
        (0x07, 0x45) => Some(0x6F), // F12
        (0x07, 0x6A) => Some(0x71), // F15
        (0x07, 0x49) => Some(0x72), // Help / Insert
        (0x07, 0x4A) => Some(0x73), // Home
        (0x07, 0x4B) => Some(0x74), // Page Up
        (0x07, 0x4C) => Some(0x75), // Forward Delete
        (0x07, 0x3D) => Some(0x76), // F4
        (0x07, 0x4D) => Some(0x77), // End
        (0x07, 0x3B) => Some(0x78), // F2
        (0x07, 0x4E) => Some(0x79), // Page Down
        (0x07, 0x3A) => Some(0x7A), // F1
        (0x07, 0x50) => Some(0x7B), // Left Arrow
        (0x07, 0x4F) => Some(0x7C), // Right Arrow
        (0x07, 0x51) => Some(0x7D), // Down Arrow
        (0x07, 0x52) => Some(0x7E), // Up Arrow
        _ => None,
    }
}

/// Every mapped virtual key maps back to itself: the table holds no virtual
/// key twice.
pub proof fn law_virtual_keys_round_trip(vk: u16)
    ensures
        mac_key(vk) matches Some(k) ==> mac_virtual_key(k) == Some(vk),
{
}

/// Every mapped HID key maps back to itself: the table holds no HID usage
/// twice.
pub proof fn law_hid_keys_round_trip(key: KeyCode)
    ensures
        mac_virtual_key(key) matches Some(vk) ==> mac_key(vk) == Some(key),
{
}

/// Two virtual keys never share a HID key, and two HID keys never share a
/// virtual key.
pub proof fn law_table_is_one_to_one(a: u16, b: u16, x: KeyCode, y: KeyCode)
    ensures
        mac_key(a) is Some && mac_key(a) == mac_key(b) ==> a == b,
        mac_virtual_key(x) is Some && mac_virtual_key(x) == mac_virtual_key(y) ==> x == y,
{
    law_virtual_keys_round_trip(a);
    law_virtual_keys_round_trip(b);
    law_hid_keys_round_trip(x);
    law_hid_keys_round_trip(y);
}

/// Every entry of the table as `(virtual key, HID key)`, by ascending virtual
/// key.
pub fn table() -> (entries: Vec<(u16, KeyCode)>)
    ensures
        forall|i: int, j: int| 0 <= i < j < entries@.len() ==> entries@[i].0 < entries@[j].0,
        forall|i: int| 0 <= i < entries@.len() ==> mac_key(#[trigger] entries@[i].0) == Some(entries@[i].1),
        forall|vk: u16| #[trigger] mac_key(vk) is Some ==> exists|i: int| 0 <= i < entries@.len() && entries@[i].0 == vk,
{
    let mut entries: Vec<(u16, KeyCode)> = Vec::new();
    let mut vk: u32 = 0;
    while vk <= 0xFFFF
        invariant
            vk <= 0x10000,
            forall|i: int, j: int| 0 <= i < j < entries@.len() ==> entries@[i].0 < entries@[j].0,
            forall|i: int| 0 <= i < entries@.len() ==> entries@[i].0 < vk,
            forall|i: int| 0 <= i < entries@.len() ==> mac_key(#[trigger] entries@[i].0) == Some(entries@[i].1),
            forall|v: u16| v < vk && #[trigger] mac_key(v) is Some ==> exists|i: int| 0 <= i < entries@.len() && entries@[i].0 == v,
        decreases 0x10000 - vk,
    {
        let v = vk as u16;
        let ghost before = entries@;
        if let Some(key) = to_hid(v) {
            entries.push((v, key));
            assert(entries@[entries@.len() - 1].0 == v);
        }
        assert forall|w: u16| w < vk + 1 && #[trigger] mac_key(w) is Some implies exists|i: int|
            0 <= i < entries@.len() && entries@[i].0 == w by {
            if w < vk {
                let i = choose|i: int| 0 <= i < before.len() && before[i].0 == w;
                assert(entries@[i] == before[i]);
            } else {
                assert(entries@[entries@.len() - 1].0 == w);
            }
        }
        vk = vk + 1;
    }
    entries
}


/// The letter key at a macOS virtual key code, as Apple's `kVK_ANSI_*`
/// constants (`Events.h`) name the positions of an ANSI keyboard.
pub open spec fn apple_letter(vk: u16) -> Option<char> {
    match vk {
        0x00 => Some('A'),
        0x01 => Some('S'),
        0x02 => Some('D'),
        0x03 => Some('F'),
        0x04 => Some('H'),
        0x05 => Some('G'),
        0x06 => Some('Z'),
        0x07 => Some('X'),
        0x08 => Some('C'),
        0x09 => Some('V'),
        0x0B => Some('B'),
        0x0C => Some('Q'),
        0x0D => Some('W'),
        0x0E => Some('E'),
        0x0F => Some('R'),
        0x10 => Some('Y'),
        0x11 => Some('T'),
        0x1F => Some('O'),
        0x20 => Some('U'),
        0x22 => Some('I'),
        0x23 => Some('P'),
        0x25 => Some('L'),
        0x26 => Some('J'),
        0x28 => Some('K'),
        0x2D => Some('N'),
        0x2E => Some('M'),
        _ => None,
    }
}

/// The main-row digit key at a macOS virtual key code (`kVK_ANSI_0` to
/// `kVK_ANSI_9`).
pub open spec fn apple_digit(vk: u16) -> Option<nat> {
    match vk {
        0x12 => Some(1nat),
        0x13 => Some(2nat),
        0x14 => Some(3nat),
        0x15 => Some(4nat),
        0x16 => Some(6nat),
        0x17 => Some(5nat),
        0x19 => Some(9nat),
        0x1A => Some(7nat),
        0x1C => Some(8nat),
        0x1D => Some(0nat),
        _ => None,
    }
}

/// The function key F`n` at a macOS virtual key code (`kVK_F1` to `kVK_F20`).
pub open spec fn apple_function_key(vk: u16) -> Option<nat> {
    match vk {
        0x7A => Some(1nat),
        0x78 => Some(2nat),
        0x63 => Some(3nat),
        0x76 => Some(4nat),
        0x60 => Some(5nat),
        0x61 => Some(6nat),
        0x62 => Some(7nat),
        0x64 => Some(8nat),
        0x65 => Some(9nat),
        0x6D => Some(10nat),
        0x67 => Some(11nat),
        0x6F => Some(12nat),
        0x69 => Some(13nat),
        0x6B => Some(14nat),
        0x71 => Some(15nat),
        0x6A => Some(16nat),
        0x40 => Some(17nat),
        0x4F => Some(18nat),
        0x50 => Some(19nat),
        0x5A => Some(20nat),
        _ => None,
    }
}

/// The keypad digit at a macOS virtual key code (`kVK_ANSI_Keypad0` to
/// `kVK_ANSI_Keypad9`).
pub open spec fn apple_keypad_digit(vk: u16) -> Option<nat> {
    match vk {
        0x52 => Some(0nat),
        0x53 => Some(1nat),
        0x54 => Some(2nat),
        0x55 => Some(3nat),
        0x56 => Some(4nat),
        0x57 => Some(5nat),
        0x58 => Some(6nat),
        0x59 => Some(7nat),
        0x5B => Some(8nat),
        0x5C => Some(9nat),
        _ => None,
    }
}

/// The key at a macOS virtual key code for the other documented `kVK_*`
/// constants, by the name the library gives that key.
pub open spec fn apple_named_key(vk: u16) -> Option<&'static str> {
    match vk {
        0x18 => Some("Equal"),  // kVK_ANSI_Equal
        0x1B => Some("Minus"),  // kVK_ANSI_Minus
        0x1E => Some("BracketRight"),  // kVK_ANSI_RightBracket
        0x21 => Some("BracketLeft"),  // kVK_ANSI_LeftBracket
        0x24 => Some("Enter"),  // kVK_Return
        0x27 => Some("Quote"),  // kVK_ANSI_Quote
        0x29 => Some("Semicolon"),  // kVK_ANSI_Semicolon
        0x2A => Some("Backslash"),  // kVK_ANSI_Backslash
        0x2B => Some("Comma"),  // kVK_ANSI_Comma
        0x2C => Some("Slash"),  // kVK_ANSI_Slash
        0x2F => Some("Period"),  // kVK_ANSI_Period
        0x30 => Some("Tab"),  // kVK_Tab
        0x31 => Some("Space"),  // kVK_Space
        0x32 => Some("Backquote"),  // kVK_ANSI_Grave
        0x33 => Some("Backspace"),  // kVK_Delete
        0x35 => Some("Escape"),  // kVK_Escape
        0x36 => Some("RightMeta"),  // kVK_RightCommand
        0x37 => Some("LeftMeta"),  // kVK_Command
        0x38 => Some("LeftShift"),  // kVK_Shift
        0x39 => Some("CapsLock"),  // kVK_CapsLock
        0x3A => Some("LeftAlt"),  // kVK_Option
        0x3B => Some("LeftControl"),  // kVK_Control
        0x3C => Some("RightShift"),  // kVK_RightShift
        0x3D => Some("RightAlt"),  // kVK_RightOption
        0x3E => Some("RightControl"),  // kVK_RightControl
        0x48 => Some("VolumeUp"),  // kVK_VolumeUp
        0x49 => Some("VolumeDown"),  // kVK_VolumeDown
        0x4A => Some("Mute"),  // kVK_Mute
        0x72 => Some("Insert"),  // kVK_Help, where PC keyboards have Insert
        0x73 => Some("Home"),  // kVK_Home
        0x74 => Some("PageUp"),  // kVK_PageUp
        0x75 => Some("Delete"),  // kVK_ForwardDelete
        0x77 => Some("End"),  // kVK_End
        0x79 => Some("PageDown"),  // kVK_PageDown
        0x7B => Some("ArrowLeft"),  // kVK_LeftArrow
        0x7C => Some("ArrowRight"),  // kVK_RightArrow
        0x7D => Some("ArrowDown"),  // kVK_DownArrow
        0x7E => Some("ArrowUp"),  // kVK_UpArrow
        _ => None,
    }
}

/// The keypad symbol at a macOS virtual key code, with `'\n'` for
/// `kVK_ANSI_KeypadEnter`.
pub open spec fn apple_keypad_symbol(vk: u16) -> Option<char> {
    match vk {
        0x41 => Some('.'),  // kVK_ANSI_KeypadDecimal
        0x43 => Some('*'),  // kVK_ANSI_KeypadMultiply
        0x45 => Some('+'),  // kVK_ANSI_KeypadPlus
        0x4B => Some('/'),  // kVK_ANSI_KeypadDivide
        0x4C => Some('\n'),  // kVK_ANSI_KeypadEnter
        0x4E => Some('-'),  // kVK_ANSI_KeypadMinus
        0x51 => Some('='),  // kVK_ANSI_KeypadEquals
        0x5F => Some(','),  // kVK_JIS_KeypadComma
        _ => None,
    }
}

/// The HID key of the remaining documented macOS keys: the ISO section key,
/// keypad Clear, the context-menu key and the JIS keys.
pub open spec fn apple_special_key(vk: u16) -> Option<KeyCode> {
    match vk {
        0x0A => Some(hid_non_us_backslash()),  // kVK_ISO_Section
        0x47 => Some(hid_num_lock()),  // kVK_ANSI_KeypadClear
        0x6E => Some(hid_application()),  // kVK_ContextualMenu
        0x5D => Some(hid_international(3)),  // kVK_JIS_Yen
        0x5E => Some(hid_international(1)),  // kVK_JIS_Underscore
        0x66 => Some(hid_lang(2)),  // kVK_JIS_Eisu
        0x68 => Some(hid_lang(1)),  // kVK_JIS_Kana
        _ => None,
    }
}

/// Each macOS virtual key code Apple documents translates to the HID key at
/// the same position, and that key translates back to it: letter keys to the
/// HID letter of the same letter, digits to the same digit, F`n` to F`n`,
/// keypad digits to the same keypad digit, keypad symbols to the same symbol,
/// every other documented key to the HID key of the same name or usage; and
/// the table translates no code Apple does not document.
pub proof fn law_virtual_keys_are_the_documented_keys(vk: u16)
    ensures
        apple_letter(vk) matches Some(c) ==> mac_key(vk) == Some(hid_letter(c)) && mac_virtual_key(
            hid_letter(c),
        ) == Some(vk),
        apple_digit(vk) matches Some(d) ==> mac_key(vk) == Some(hid_digit(d)) && mac_virtual_key(
            hid_digit(d),
        ) == Some(vk),
        apple_function_key(vk) matches Some(n) ==> mac_key(vk) == Some(hid_function_key(n))
            && mac_virtual_key(hid_function_key(n)) == Some(vk),
        apple_keypad_digit(vk) matches Some(d) ==> mac_key(vk) == Some(hid_keypad_digit(d))
            && mac_virtual_key(hid_keypad_digit(d)) == Some(vk),
        apple_named_key(vk) matches Some(name) ==> mac_key(vk) matches Some(k) && key_name(k)
            == name && mac_virtual_key(k) == Some(vk),
        apple_keypad_symbol(vk) matches Some(c) ==> hid_keypad_symbol(c) matches Some(k) && mac_key(
            vk,
        ) == Some(k) && mac_virtual_key(k) == Some(vk),
        apple_special_key(vk) matches Some(k) ==> mac_key(vk) == Some(k) && mac_virtual_key(k)
            == Some(vk),
        mac_key(vk) is Some ==> apple_letter(vk) is Some || apple_digit(vk) is Some
            || apple_function_key(vk) is Some || apple_keypad_digit(vk) is Some || apple_named_key(
            vk,
        ) is Some || apple_keypad_symbol(vk) is Some || apple_special_key(vk) is Some,
{
}

} // verus!
