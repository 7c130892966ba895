//! Mapping between Windows scan codes and HID usage IDs.
//!
//! Scan codes name the position the hardware reported and are
//! layout-independent, unlike virtual key codes. Set 1 scan codes are only
//! unique together with the extended flag (the `E0` prefix): `0x1D` is Left
//! Control plain and Right Control extended, `0x47` Keypad 7 plain and Home
//! extended. The key of this table is therefore the pair, never the code
//! alone.

use vstd::prelude::*;

use crate::keycode::{
    hid_application, hid_digit, hid_function_key, hid_keypad_digit, hid_keypad_symbol,
    hid_letter, hid_non_us_backslash, hid_num_lock, key_name, KeyCode,
};

verus! {

/// The HID key at a scan code and extended flag, if the table maps it.
pub open spec fn windows_key(scan_code: u16, extended: bool) -> Option<KeyCode> {
    match (scan_code, extended) {
        (0x1E, false) => Some(KeyCode { page: 0x07, usage: 0x04 }), // A
        (0x30, false) => Some(KeyCode { page: 0x07, usage: 0x05 }), // B
        (0x2E, false) => Some(KeyCode { page: 0x07, usage: 0x06 }), // C
        (0x20, false) => Some(KeyCode { page: 0x07, usage: 0x07 }), // D
        (0x12, false) => Some(KeyCode { page: 0x07, usage: 0x08 }), // E
        (0x21, false) => Some(KeyCode { page: 0x07, usage: 0x09 }), // F
        (0x22, false) => Some(KeyCode { page: 0x07, usage: 0x0A }), // G
        (0x23, false) => Some(KeyCode { page: 0x07, usage: 0x0B }), // H
        (0x17, false) => Some(KeyCode { page: 0x07, usage: 0x0C }), // I
        (0x24, false) => Some(KeyCode { page: 0x07, usage: 0x0D }), // J
        (0x25, false) => Some(KeyCode { page: 0x07, usage: 0x0E }), // K
        (0x26, false) => Some(KeyCode { page: 0x07, usage: 0x0F }), // L
        (0x32, false) => Some(KeyCode { page: 0x07, usage: 0x10 }), // M
        (0x31, false) => Some(KeyCode { page: 0x07, usage: 0x11 }), // N
        (0x18, false) => Some(KeyCode { page: 0x07, usage: 0x12 }), // O
        (0x19, false) => Some(KeyCode { page: 0x07, usage: 0x13 }), // P
        (0x10, false) => Some(KeyCode { page: 0x07, usage: 0x14 }), // Q
        (0x13, false) => Some(KeyCode { page: 0x07, usage: 0x15 }), // R
        (0x1F, false) => Some(KeyCode { page: 0x07, usage: 0x16 }), // S
        (0x14, false) => Some(KeyCode { page: 0x07, usage: 0x17 }), // T
        (0x16, false) => Some(KeyCode { page: 0x07, usage: 0x18 }), // U
        (0x2F, false) => Some(KeyCode { page: 0x07, usage: 0x19 }), // V
        (0x11, false) => Some(KeyCode { page: 0x07, usage: 0x1A }), // W
        (0x2D, false) => Some(KeyCode { page: 0x07, usage: 0x1B }), // X
        (0x15, false) => Some(KeyCode { page: 0x07, usage: 0x1C }), // Y
        (0x2C, false) => Some(KeyCode { page: 0x07, usage: 0x1D }), // Z
        (0x02, false) => Some(KeyCode { page: 0x07, usage: 0x1E }), // 1
        (0x03, false) => Some(KeyCode { page: 0x07, usage: 0x1F }), // 2
        (0x04, false) => Some(KeyCode { page: 0x07, usage: 0x20 }), // 3
        (0x05, false) => Some(KeyCode { page: 0x07, usage: 0x21 }), // 4
        (0x06, false) => Some(KeyCode { page: 0x07, usage: 0x22 }), // 5
        (0x07, false) => Some(KeyCode { page: 0x07, usage: 0x23 }), // 6
        (0x08, false) => Some(KeyCode { page: 0x07, usage: 0x24 }), // 7
        (0x09, false) => Some(KeyCode { page: 0x07, usage: 0x25 }), // 8
        (0x0A, false) => Some(KeyCode { page: 0x07, usage: 0x26 }), // 9
        (0x0B, false) => Some(KeyCode { page: 0x07, usage: 0x27 }), // 0
        (0x1C, false) => Some(KeyCode { page: 0x07, usage: 0x28 }), // Enter
        (0x01, false) => Some(KeyCode { page: 0x07, usage: 0x29 }), // Escape
        (0x0E, false) => Some(KeyCode { page: 0x07, usage: 0x2A }), // Backspace
        (0x0F, false) => Some(KeyCode { page: 0x07, usage: 0x2B }), // Tab
        (0x39, false) => Some(KeyCode { page: 0x07, usage: 0x2C }), // Space
        (0x0C, false) => Some(KeyCode { page: 0x07, usage: 0x2D }), // -
        (0x0D, false) => Some(KeyCode { page: 0x07, usage: 0x2E }), // =
        (0x1A, false) => Some(KeyCode { page: 0x07, usage: 0x2F }), // [
        (0x1B, false) => Some(KeyCode { page: 0x07, usage: 0x30 }), // ]
        (0x2B, false) => Some(KeyCode { page: 0x07, usage: 0x31 }), // backslash
        (0x27, false) => Some(KeyCode { page: 0x07, usage: 0x33 }), // ;
        (0x28, false) => Some(KeyCode { page: 0x07, usage: 0x34 }), // '
        (0x29, false) => Some(KeyCode { page: 0x07, usage: 0x35 }), // `
        (0x33, false) => Some(KeyCode { page: 0x07, usage: 0x36 }), // ,
        (0x34, false) => Some(KeyCode { page: 0x07, usage: 0x37 }), // .
        (0x35, false) => Some(KeyCode { page: 0x07, usage: 0x38 }), // /
        (0x3A, false) => Some(KeyCode { page: 0x07, usage: 0x39 }), // Caps Lock
        (0x56, false) => Some(KeyCode { page: 0x07, usage: 0x64 }), // Non-US backslash (ISO)
        (0x3B, false) => Some(KeyCode { page: 0x07, usage: 0x3A }), // F1
        (0x3C, false) => Some(KeyCode { page: 0x07, usage: 0x3B }), // F2
        (0x3D, false) => Some(KeyCode { page: 0x07, usage: 0x3C }), // F3
        (0x3E, false) => Some(KeyCode { page: 0x07, usage: 0x3D }), // F4
        (0x3F, false) => Some(KeyCode { page: 0x07, usage: 0x3E }), // F5
        (0x40, false) => Some(KeyCode { page: 0x07, usage: 0x3F }), // F6
        (0x41, false) => Some(KeyCode { page: 0x07, usage: 0x40 }), // F7
        (0x42, false) => Some(KeyCode { page: 0x07, usage: 0x41 }), // F8
        (0x43, false) => Some(KeyCode { page: 0x07, usage: 0x42 }), // F9
        (0x44, false) => Some(KeyCode { page: 0x07, usage: 0x43 }), // F10
        (0x57, false) => Some(KeyCode { page: 0x07, usage: 0x44 }), // F11
        (0x58, false) => Some(KeyCode { page: 0x07, usage: 0x45 }), // F12
        (0x52, true) => Some(KeyCode { page: 0x07, usage: 0x49 }), // Insert
        (0x47, true) => Some(KeyCode { page: 0x07, usage: 0x4A }), // Home
        (0x49, true) => Some(KeyCode { page: 0x07, usage: 0x4B }), // Page Up
        (0x53, true) => Some(KeyCode { page: 0x07, usage: 0x4C }), // Delete
        (0x4F, true) => Some(KeyCode { page: 0x07, usage: 0x4D }), // End
        (0x51, true) => Some(KeyCode { page: 0x07, usage: 0x4E }), // Page Down
        (0x4D, true) => Some(KeyCode { page: 0x07, usage: 0x4F }), // Right Arrow
        (0x4B, true) => Some(KeyCode { page: 0x07, usage: 0x50 }), // Left Arrow
        (0x50, true) => Some(KeyCode { page: 0x07, usage: 0x51 }), // Down Arrow
        (0x48, true) => Some(KeyCode { page: 0x07, usage: 0x52 }), // Up Arrow
        (0x37, true) => Some(KeyCode { page: 0x07, usage: 0x46 }), // Print Screen
        (0x46, false) => Some(KeyCode { page: 0x07, usage: 0x47 }), // Scroll Lock
        (0x45, false) => Some(KeyCode { page: 0x07, usage: 0x53 }), // Num Lock
        (0x35, true) => Some(KeyCode { page: 0x07, usage: 0x54 }), // Keypad /
        (0x37, false) => Some(KeyCode { page: 0x07, usage: 0x55 }), // Keypad *
        (0x4A, false) => Some(KeyCode { page: 0x07, usage: 0x56 }), // Keypad -
        (0x4E, false) => Some(KeyCode { page: 0x07, usage: 0x57 }), // Keypad +
        (0x1C, true) => Some(KeyCode { page: 0x07, usage: 0x58 }), // Keypad Enter
        (0x4F, false) => Some(KeyCode { page: 0x07, usage: 0x59 }), // Keypad 1
        (0x50, false) => Some(KeyCode { page: 0x07, usage: 0x5A }), // Keypad 2
        (0x51, false) => Some(KeyCode { page: 0x07, usage: 0x5B }), // Keypad 3
        (0x4B, false) => Some(KeyCode { page: 0x07, usage: 0x5C }), // Keypad 4
        (0x4C, false) => Some(KeyCode { page: 0x07, usage: 0x5D }), // Keypad 5
        (0x4D, false) => Some(KeyCode { page: 0x07, usage: 0x5E }), // Keypad 6
        (0x47, false) => Some(KeyCode { page: 0x07, usage: 0x5F }), // Keypad 7
        (0x48, false) => Some(KeyCode { page: 0x07, usage: 0x60 }), // Keypad 8
        (0x49, false) => Some(KeyCode { page: 0x07, usage: 0x61 }), // Keypad 9
        (0x52, false) => Some(KeyCode { page: 0x07, usage: 0x62 }), // Keypad 0
        (0x53, false) => Some(KeyCode { page: 0x07, usage: 0x63 }), // Keypad .
        (0x5D, true) => Some(KeyCode { page: 0x07, usage: 0x65 }), // Application / context menu
        (0x1D, false) => Some(KeyCode { page: 0x07, usage: 0xE0 }), // Left Control
        (0x2A, false) => Some(KeyCode { page: 0x07, usage: 0xE1 }), // Left Shift
        (0x38, false) => Some(KeyCode { page: 0x07, usage: 0xE2 }), // Left Alt
        (0x5B, true) => Some(KeyCode { page: 0x07, usage: 0xE3 }), // Left Windows
        (0x1D, true) => Some(KeyCode { page: 0x07, usage: 0xE4 }), // Right Control
        (0x36, false) => Some(KeyCode { page: 0x07, usage: 0xE5 }), // Right Shift
        (0x38, true) => Some(KeyCode { page: 0x07, usage: 0xE6 }), // Right Alt / AltGr
        (0x5C, true) => Some(KeyCode { page: 0x07, usage: 0xE7 }), // Right Windows
        (0x10, true) => Some(KeyCode { page: 0x0C, usage: 0xB6 }), // Previous track
        (0x19, true) => Some(KeyCode { page: 0x0C, usage: 0xB5 }), // Next track
        (0x20, true) => Some(KeyCode { page: 0x0C, usage: 0xE2 }), // Mute
        (0x22, true) => Some(KeyCode { page: 0x0C, usage: 0xCD }), // Play / pause
        (0x24, true) => Some(KeyCode { page: 0x0C, usage: 0xB7 }), // Stop
        (0x2E, true) => Some(KeyCode { page: 0x0C, usage: 0xEA }), // Volume down
        (0x30, true) => Some(KeyCode { page: 0x0C, usage: 0xE9 }), // Volume up
        _ => None,
    }
}

/// The scan code and extended flag of a HID key, if the table maps it.
pub open spec fn windows_scan_code(key: KeyCode) -> Option<(u16, bool)> {
    match (key.page, key.usage) {
        (0x07, 0x04) => Some((0x1E, false)), // A
        (0x07, 0x05) => Some((0x30, false)), // B
        (0x07, 0x06) => Some((0x2E, false)), // C
        (0x07, 0x07) => Some((0x20, false)), // D
        (0x07, 0x08) => Some((0x12, false)), // E
        (0x07, 0x09) => Some((0x21, false)), // F
        (0x07, 0x0A) => Some((0x22, false)), // G
        (0x07, 0x0B) => Some((0x23, false)), // H
        (0x07, 0x0C) => Some((0x17, false)), // I
        (0x07, 0x0D) => Some((0x24, false)), // J
        (0x07, 0x0E) => Some((0x25, false)), // K
        (0x07, 0x0F) => Some((0x26, false)), // L
        (0x07, 0x10) => Some((0x32, false)), // M
        (0x07, 0x11) => Some((0x31, false)), // N
        (0x07, 0x12) => Some((0x18, false)), // O
        (0x07, 0x13) => Some((0x19, false)), // P
        (0x07, 0x14) => Some((0x10, false)), // Q
        (0x07, 0x15) => Some((0x13, false)), // R
        (0x07, 0x16) => Some((0x1F, false)), // S
        (0x07, 0x17) => Some((0x14, false)), // T
        (0x07, 0x18) => Some((0x16, false)), // U
        (0x07, 0x19) => Some((0x2F, false)), // V
        (0x07, 0x1A) => Some((0x11, false)), // W
        (0x07, 0x1B) => Some((0x2D, false)), // X
        (0x07, 0x1C) => Some((0x15, false)), // Y
        (0x07, 0x1D) => Some((0x2C, false)), // Z
        (0x07, 0x1E) => Some((0x02, false)), // 1
        (0x07, 0x1F) => Some((0x03, false)), // 2
        (0x07, 0x20) => Some((0x04, false)), // 3
        (0x07, 0x21) => Some((0x05, false)), // 4
        (0x07, 0x22) => Some((0x06, false)), // 5
        (0x07, 0x23) => Some((0x07, false)), // 6
        (0x07, 0x24) => Some((0x08, false)), // 7
        (0x07, 0x25) => Some((0x09, false)), // 8
        (0x07, 0x26) => Some((0x0A, false)), // 9
        (0x07, 0x27) => Some((0x0B, false)), // 0
        (0x07, 0x28) => Some((0x1C, false)), // Enter
        (0x07, 0x29) => Some((0x01, false)), // Escape
        (0x07, 0x2A) => Some((0x0E, false)), // Backspace
        (0x07, 0x2B) => Some((0x0F, false)), // Tab
        (0x07, 0x2C) => Some((0x39, false)), // Space
        (0x07, 0x2D) => Some((0x0C, false)), // -
        (0x07, 0x2E) => Some((0x0D, false)), // =
        (0x07, 0x2F) => Some((0x1A, false)), // [
        (0x07, 0x30) => Some((0x1B, false)), // ]
        (0x07, 0x31) => Some((0x2B, false)), // backslash
        (0x07, 0x33) => Some((0x27, false)), // ;
        (0x07, 0x34) => Some((0x28, false)), // '
        (0x07, 0x35) => Some((0x29, false)), // `
        (0x07, 0x36) => Some((0x33, false)), // ,
        (0x07, 0x37) => Some((0x34, false)), // .
        (0x07, 0x38) => Some((0x35, false)), // /
        (0x07, 0x39) => Some((0x3A, false)), // Caps Lock
        (0x07, 0x64) => Some((0x56, false)), // Non-US backslash (ISO)
        (0x07, 0x3A) => Some((0x3B, false)), // F1
        (0x07, 0x3B) => Some((0x3C, false)), // F2
        (0x07, 0x3C) => Some((0x3D, false)), // F3
        (0x07, 0x3D) => Some((0x3E, false)), // F4
        (0x07, 0x3E) => Some((0x3F, false)), // F5
        (0x07, 0x3F) => Some((0x40, false)), // F6
        (0x07, 0x40) => Some((0x41, false)), // F7
        (0x07, 0x41) => Some((0x42, false)), // F8
        (0x07, 0x42) => Some((0x43, false)), // F9
        (0x07, 0x43) => Some((0x44, false)), // F10
        (0x07, 0x44) => Some((0x57, false)), // F11
        (0x07, 0x45) => Some((0x58, false)), // F12
        (0x07, 0x49) => Some((0x52, true)), // Insert
        (0x07, 0x4A) => Some((0x47, true)), // Home
        (0x07, 0x4B) => Some((0x49, true)), // Page Up
        (0x07, 0x4C) => Some((0x53, true)), // Delete
        (0x07, 0x4D) => Some((0x4F, true)), // End
        (0x07, 0x4E) => Some((0x51, true)), // Page Down
        (0x07, 0x4F) => Some((0x4D, true)), // Right Arrow
        (0x07, 0x50) => Some((0x4B, true)), // Left Arrow
        (0x07, 0x51) => Some((0x50, true)), // Down Arrow
        (0x07, 0x52) => Some((0x48, true)), // Up Arrow
        (0x07, 0x46) => Some((0x37, true)), // Print Screen
        (0x07, 0x47) => Some((0x46, false)), // Scroll Lock
        (0x07, 0x53) => Some((0x45, false)), // Num Lock
        (0x07, 0x54) => Some((0x35, true)), // Keypad /
        (0x07, 0x55) => Some((0x37, false)), // Keypad *
        (0x07, 0x56) => Some((0x4A, false)), // Keypad -
        (0x07, 0x57) => Some((0x4E, false)), // Keypad +
        (0x07, 0x58) => Some((0x1C, true)), // Keypad Enter
        (0x07, 0x59) => Some((0x4F, false)), // Keypad 1
        (0x07, 0x5A) => Some((0x50, false)), // Keypad 2
        (0x07, 0x5B) => Some((0x51, false)), // Keypad 3
        (0x07, 0x5C) => Some((0x4B, false)), // Keypad 4
        (0x07, 0x5D) => Some((0x4C, false)), // Keypad 5
        (0x07, 0x5E) => Some((0x4D, false)), // Keypad 6
        (0x07, 0x5F) => Some((0x47, false)), // Keypad 7
        (0x07, 0x60) => Some((0x48, false)), // Keypad 8
        (0x07, 0x61) => Some((0x49, false)), // Keypad 9
        (0x07, 0x62) => Some((0x52, false)), // Keypad 0
        (0x07, 0x63) => Some((0x53, false)), // Keypad .
        (0x07, 0x65) => Some((0x5D, true)), // Application / context menu
        (0x07, 0xE0) => Some((0x1D, false)), // Left Control
        (0x07, 0xE1) => Some((0x2A, false)), // Left Shift
        (0x07, 0xE2) => Some((0x38, false)), // Left Alt
        (0x07, 0xE3) => Some((0x5B, true)), // Left Windows
        (0x07, 0xE4) => Some((0x1D, true)), // Right Control
        (0x07, 0xE5) => Some((0x36, false)), // Right Shift
        (0x07, 0xE6) => Some((0x38, true)), // Right Alt / AltGr
        (0x07, 0xE7) => Some((0x5C, true)), // Right Windows
        (0x0C, 0xB6) => Some((0x10, true)), // Previous track
        (0x0C, 0xB5) => Some((0x19, true)), // Next track
        (0x0C, 0xE2) => Some((0x20, true)), // Mute
        (0x0C, 0xCD) => Some((0x22, true)), // Play / pause
        (0x0C, 0xB7) => Some((0x24, true)), // Stop
        (0x0C, 0xEA) => Some((0x2E, true)), // Volume down
        (0x0C, 0xE9) => Some((0x30, true)), // Volume up
        _ => None,
    }
}

/// Converts a Windows scan code and extended flag to a HID key code.
pub fn to_hid(scan_code: u16, extended: bool) -> (r: Option<KeyCode>)
    ensures
        r == windows_key(scan_code, extended),
{
    match (scan_code, extended) {
        (0x1E, false) => Some(KeyCode { page: 0x07, usage: 0x04 }), // A
        (0x30, false) => Some(KeyCode { page: 0x07, usage: 0x05 }), // B
        (0x2E, false) => Some(KeyCode { page: 0x07, usage: 0x06 }), // C
        (0x20, false) => Some(KeyCode { page: 0x07, usage: 0x07 }), // D
        (0x12, false) => Some(KeyCode { page: 0x07, usage: 0x08 }), // E
        (0x21, false) => Some(KeyCode { page: 0x07, usage: 0x09 }), // F
        (0x22, false) => Some(KeyCode { page: 0x07, usage: 0x0A }), // G
        (0x23, false) => Some(KeyCode { page: 0x07, usage: 0x0B }), // H
        (0x17, false) => Some(KeyCode { page: 0x07, usage: 0x0C }), // I
        (0x24, false) => Some(KeyCode { page: 0x07, usage: 0x0D }), // J
        (0x25, false) => Some(KeyCode { page: 0x07, usage: 0x0E }), // K
        (0x26, false) => Some(KeyCode { page: 0x07, usage: 0x0F }), // L
        (0x32, false) => Some(KeyCode { page: 0x07, usage: 0x10 }), // M
        (0x31, false) => Some(KeyCode { page: 0x07, usage: 0x11 }), // N
        (0x18, false) => Some(KeyCode { page: 0x07, usage: 0x12 }), // O
        (0x19, false) => Some(KeyCode { page: 0x07, usage: 0x13 }), // P
        (0x10, false) => Some(KeyCode { page: 0x07, usage: 0x14 }), // Q
        (0x13, false) => Some(KeyCode { page: 0x07, usage: 0x15 }), // R
        (0x1F, false) => Some(KeyCode { page: 0x07, usage: 0x16 }), // S
        (0x14, false) => Some(KeyCode { page: 0x07, usage: 0x17 }), // T
        (0x16, false) => Some(KeyCode { page: 0x07, usage: 0x18 }), // U
        (0x2F, false) => Some(KeyCode { page: 0x07, usage: 0x19 }), // V
        (0x11, false) => Some(KeyCode { page: 0x07, usage: 0x1A }), // W
        (0x2D, false) => Some(KeyCode { page: 0x07, usage: 0x1B }), // X
        (0x15, false) => Some(KeyCode { page: 0x07, usage: 0x1C }), // Y
        (0x2C, false) => Some(KeyCode { page: 0x07, usage: 0x1D }), // Z
        (0x02, false) => Some(KeyCode { page: 0x07, usage: 0x1E }), // 1
        (0x03, false) => Some(KeyCode { page: 0x07, usage: 0x1F }), // 2
        (0x04, false) => Some(KeyCode { page: 0x07, usage: 0x20 }), // 3
        (0x05, false) => Some(KeyCode { page: 0x07, usage: 0x21 }), // 4
        (0x06, false) => Some(KeyCode { page: 0x07, usage: 0x22 }), // 5
        (0x07, false) => Some(KeyCode { page: 0x07, usage: 0x23 }), // 6
        (0x08, false) => Some(KeyCode { page: 0x07, usage: 0x24 }), // 7
        (0x09, false) => Some(KeyCode { page: 0x07, usage: 0x25 }), // 8
        (0x0A, false) => Some(KeyCode { page: 0x07, usage: 0x26 }), // 9
        (0x0B, false) => Some(KeyCode { page: 0x07, usage: 0x27 }), // 0
        (0x1C, false) => Some(KeyCode { page: 0x07, usage: 0x28 }), // Enter
        (0x01, false) => Some(KeyCode { page: 0x07, usage: 0x29 }), // Escape
        (0x0E, false) => Some(KeyCode { page: 0x07, usage: 0x2A }), // Backspace
        (0x0F, false) => Some(KeyCode { page: 0x07, usage: 0x2B }), // Tab
        (0x39, false) => Some(KeyCode { page: 0x07, usage: 0x2C }), // Space
        (0x0C, false) => Some(KeyCode { page: 0x07, usage: 0x2D }), // -
        (0x0D, false) => Some(KeyCode { page: 0x07, usage: 0x2E }), // =
        (0x1A, false) => Some(KeyCode { page: 0x07, usage: 0x2F }), // [
        (0x1B, false) => Some(KeyCode { page: 0x07, usage: 0x30 }), // ]
        (0x2B, false) => Some(KeyCode { page: 0x07, usage: 0x31 }), // backslash
        (0x27, false) => Some(KeyCode { page: 0x07, usage: 0x33 }), // ;
        (0x28, false) => Some(KeyCode { page: 0x07, usage: 0x34 }), // '
        (0x29, false) => Some(KeyCode { page: 0x07, usage: 0x35 }), // `
        (0x33, false) => Some(KeyCode { page: 0x07, usage: 0x36 }), // ,
        (0x34, false) => Some(KeyCode { page: 0x07, usage: 0x37 }), // .
        (0x35, false) => Some(KeyCode { page: 0x07, usage: 0x38 }), // /
        (0x3A, false) => Some(KeyCode { page: 0x07, usage: 0x39 }), // Caps Lock
        (0x56, false) => Some(KeyCode { page: 0x07, usage: 0x64 }), // Non-US backslash (ISO)
        (0x3B, false) => Some(KeyCode { page: 0x07, usage: 0x3A }), // F1
        (0x3C, false) => Some(KeyCode { page: 0x07, usage: 0x3B }), // F2
        (0x3D, false) => Some(KeyCode { page: 0x07, usage: 0x3C }), // F3
        (0x3E, false) => Some(KeyCode { page: 0x07, usage: 0x3D }), // F4
        (0x3F, false) => Some(KeyCode { page: 0x07, usage: 0x3E }), // F5
        (0x40, false) => Some(KeyCode { page: 0x07, usage: 0x3F }), // F6
        (0x41, false) => Some(KeyCode { page: 0x07, usage: 0x40 }), // F7
        (0x42, false) => Some(KeyCode { page: 0x07, usage: 0x41 }), // F8
        (0x43, false) => Some(KeyCode { page: 0x07, usage: 0x42 }), // F9
        (0x44, false) => Some(KeyCode { page: 0x07, usage: 0x43 }), // F10
        (0x57, false) => Some(KeyCode { page: 0x07, usage: 0x44 }), // F11
        (0x58, false) => Some(KeyCode { page: 0x07, usage: 0x45 }), // F12
        (0x52, true) => Some(KeyCode { page: 0x07, usage: 0x49 }), // Insert
        (0x47, true) => Some(KeyCode { page: 0x07, usage: 0x4A }), // Home
        (0x49, true) => Some(KeyCode { page: 0x07, usage: 0x4B }), // Page Up
        (0x53, true) => Some(KeyCode { page: 0x07, usage: 0x4C }), // Delete
        (0x4F, true) => Some(KeyCode { page: 0x07, usage: 0x4D }), // End
        (0x51, true) => Some(KeyCode { page: 0x07, usage: 0x4E }), // Page Down
        (0x4D, true) => Some(KeyCode { page: 0x07, usage: 0x4F }), // Right Arrow
        (0x4B, true) => Some(KeyCode { page: 0x07, usage: 0x50 }), // Left Arrow
        (0x50, true) => Some(KeyCode { page: 0x07, usage: 0x51 }), // Down Arrow
        (0x48, true) => Some(KeyCode { page: 0x07, usage: 0x52 }), // Up Arrow
        (0x37, true) => Some(KeyCode { page: 0x07, usage: 0x46 }), // Print Screen
        (0x46, false) => Some(KeyCode { page: 0x07, usage: 0x47 }), // Scroll Lock
        (0x45, false) => Some(KeyCode { page: 0x07, usage: 0x53 }), // Num Lock
        (0x35, true) => Some(KeyCode { page: 0x07, usage: 0x54 }), // Keypad /
        (0x37, false) => Some(KeyCode { page: 0x07, usage: 0x55 }), // Keypad *
        (0x4A, false) => Some(KeyCode { page: 0x07, usage: 0x56 }), // Keypad -
        (0x4E, false) => Some(KeyCode { page: 0x07, usage: 0x57 }), // Keypad +
        (0x1C, true) => Some(KeyCode { page: 0x07, usage: 0x58 }), // Keypad Enter
        (0x4F, false) => Some(KeyCode { page: 0x07, usage: 0x59 }), // Keypad 1
        (0x50, false) => Some(KeyCode { page: 0x07, usage: 0x5A }), // Keypad 2
        (0x51, false) => Some(KeyCode { page: 0x07, usage: 0x5B }), // Keypad 3
        (0x4B, false) => Some(KeyCode { page: 0x07, usage: 0x5C }), // Keypad 4
        (0x4C, false) => Some(KeyCode { page: 0x07, usage: 0x5D }), // Keypad 5
        (0x4D, false) => Some(KeyCode { page: 0x07, usage: 0x5E }), // Keypad 6
        (0x47, false) => Some(KeyCode { page: 0x07, usage: 0x5F }), // Keypad 7
        (0x48, false) => Some(KeyCode { page: 0x07, usage: 0x60 }), // Keypad 8
        (0x49, false) => Some(KeyCode { page: 0x07, usage: 0x61 }), // Keypad 9
        (0x52, false) => Some(KeyCode { page: 0x07, usage: 0x62 }), // Keypad 0
        (0x53, false) => Some(KeyCode { page: 0x07, usage: 0x63 }), // Keypad .
        (0x5D, true) => Some(KeyCode { page: 0x07, usage: 0x65 }), // Application / context menu
        (0x1D, false) => Some(KeyCode { page: 0x07, usage: 0xE0 }), // Left Control
        (0x2A, false) => Some(KeyCode { page: 0x07, usage: 0xE1 }), // Left Shift
        (0x38, false) => Some(KeyCode { page: 0x07, usage: 0xE2 }), // Left Alt
        (0x5B, true) => Some(KeyCode { page: 0x07, usage: 0xE3 }), // Left Windows
        (0x1D, true) => Some(KeyCode { page: 0x07, usage: 0xE4 }), // Right Control
        (0x36, false) => Some(KeyCode { page: 0x07, usage: 0xE5 }), // Right Shift
        (0x38, true) => Some(KeyCode { page: 0x07, usage: 0xE6 }), // Right Alt / AltGr
        (0x5C, true) => Some(KeyCode { page: 0x07, usage: 0xE7 }), // Right Windows
        (0x10, true) => Some(KeyCode { page: 0x0C, usage: 0xB6 }), // Previous track
        (0x19, true) => Some(KeyCode { page: 0x0C, usage: 0xB5 }), // Next track
        (0x20, true) => Some(KeyCode { page: 0x0C, usage: 0xE2 }), // Mute
        (0x22, true) => Some(KeyCode { page: 0x0C, usage: 0xCD }), // Play / pause
        (0x24, true) => Some(KeyCode { page: 0x0C, usage: 0xB7 }), // Stop
        (0x2E, true) => Some(KeyCode { page: 0x0C, usage: 0xEA }), // Volume down
        (0x30, true) => Some(KeyCode { page: 0x0C, usage: 0xE9 }), // Volume up
        _ => None,
    }
}

/// Converts a HID key code to a Windows scan code and extended flag.
pub fn from_hid(key: KeyCode) -> (r: Option<(u16, bool)>)
    ensures
        r == windows_scan_code(key),
{
    match (key.page, key.usage) {
        (0x07, 0x04) => Some((0x1E, false)), // A
        (0x07, 0x05) => Some((0x30, false)), // B
        (0x07, 0x06) => Some((0x2E, false)), // C
        (0x07, 0x07) => Some((0x20, false)), // D
        (0x07, 0x08) => Some((0x12, false)), // E
        (0x07, 0x09) => Some((0x21, false)), // F
        (0x07, 0x0A) => Some((0x22, false)), // G
        (0x07, 0x0B) => Some((0x23, false)), // H
        (0x07, 0x0C) => Some((0x17, false)), // I
        (0x07, 0x0D) => Some((0x24, false)), // J
        (0x07, 0x0E) => Some((0x25, false)), // K
        (0x07, 0x0F) => Some((0x26, false)), // L
        (0x07, 0x10) => Some((0x32, false)), // M
        (0x07, 0x11) => Some((0x31, false)), // N
        (0x07, 0x12) => Some((0x18, false)), // O
        (0x07, 0x13) => Some((0x19, false)), // P
        (0x07, 0x14) => Some((0x10, false)), // Q
        (0x07, 0x15) => Some((0x13, false)), // R
        (0x07, 0x16) => Some((0x1F, false)), // S
        (0x07, 0x17) => Some((0x14, false)), // T
        (0x07, 0x18) => Some((0x16, false)), // U
        (0x07, 0x19) => Some((0x2F, false)), // V
        (0x07, 0x1A) => Some((0x11, false)), // W
        (0x07, 0x1B) => Some((0x2D, false)), // X
        (0x07, 0x1C) => Some((0x15, false)), // Y
        (0x07, 0x1D) => Some((0x2C, false)), // Z
        (0x07, 0x1E) => Some((0x02, false)), // 1
        (0x07, 0x1F) => Some((0x03, false)), // 2
        (0x07, 0x20) => Some((0x04, false)), // 3
        (0x07, 0x21) => Some((0x05, false)), // 4
        (0x07, 0x22) => Some((0x06, false)), // 5
        (0x07, 0x23) => Some((0x07, false)), // 6
        (0x07, 0x24) => Some((0x08, false)), // 7
        (0x07, 0x25) => Some((0x09, false)), // 8
        (0x07, 0x26) => Some((0x0A, false)), // 9
        (0x07, 0x27) => Some((0x0B, false)), // 0
        (0x07, 0x28) => Some((0x1C, false)), // Enter
        (0x07, 0x29) => Some((0x01, false)), // Escape
        (0x07, 0x2A) => Some((0x0E, false)), // Backspace
        (0x07, 0x2B) => Some((0x0F, false)), // Tab
        (0x07, 0x2C) => Some((0x39, false)), // Space
        (0x07, 0x2D) => Some((0x0C, false)), // -
        (0x07, 0x2E) => Some((0x0D, false)), // =
        (0x07, 0x2F) => Some((0x1A, false)), // [
        (0x07, 0x30) => Some((0x1B, false)), // ]
        (0x07, 0x31) => Some((0x2B, false)), // backslash
        (0x07, 0x33) => Some((0x27, false)), // ;
        (0x07, 0x34) => Some((0x28, false)), // '
        (0x07, 0x35) => Some((0x29, false)), // `
        (0x07, 0x36) => Some((0x33, false)), // ,
        (0x07, 0x37) => Some((0x34, false)), // .
        (0x07, 0x38) => Some((0x35, false)), // /
        (0x07, 0x39) => Some((0x3A, false)), // Caps Lock
        (0x07, 0x64) => Some((0x56, false)), // Non-US backslash (ISO)
        (0x07, 0x3A) => Some((0x3B, false)), // F1
        (0x07, 0x3B) => Some((0x3C, false)), // F2
        (0x07, 0x3C) => Some((0x3D, false)), // F3
        (0x07, 0x3D) => Some((0x3E, false)), // F4
        (0x07, 0x3E) => Some((0x3F, false)), // F5
        (0x07, 0x3F) => Some((0x40, false)), // F6
        (0x07, 0x40) => Some((0x41, false)), // F7
        (0x07, 0x41) => Some((0x42, false)), // F8
        (0x07, 0x42) => Some((0x43, false)), // F9
        (0x07, 0x43) => Some((0x44, false)), // F10
        (0x07, 0x44) => Some((0x57, false)), // F11
        (0x07, 0x45) => Some((0x58, false)), // F12
        (0x07, 0x49) => Some((0x52, true)), // Insert
        (0x07, 0x4A) => Some((0x47, true)), // Home
        (0x07, 0x4B) => Some((0x49, true)), // Page Up
        (0x07, 0x4C) => Some((0x53, true)), // Delete
        (0x07, 0x4D) => Some((0x4F, true)), // End
        (0x07, 0x4E) => Some((0x51, true)), // Page Down
        (0x07, 0x4F) => Some((0x4D, true)), // Right Arrow
        (0x07, 0x50) => Some((0x4B, true)), // Left Arrow
        (0x07, 0x51) => Some((0x50, true)), // Down Arrow
        (0x07, 0x52) => Some((0x48, true)), // Up Arrow
        (0x07, 0x46) => Some((0x37, true)), // Print Screen
        (0x07, 0x47) => Some((0x46, false)), // Scroll Lock
        (0x07, 0x53) => Some((0x45, false)), // Num Lock
        (0x07, 0x54) => Some((0x35, true)), // Keypad /
        (0x07, 0x55) => Some((0x37, false)), // Keypad *
        (0x07, 0x56) => Some((0x4A, false)), // Keypad -
        (0x07, 0x57) => Some((0x4E, false)), // Keypad +
        (0x07, 0x58) => Some((0x1C, true)), // Keypad Enter
        (0x07, 0x59) => Some((0x4F, false)), // Keypad 1
        (0x07, 0x5A) => Some((0x50, false)), // Keypad 2
        (0x07, 0x5B) => Some((0x51, false)), // Keypad 3
        (0x07, 0x5C) => Some((0x4B, false)), // Keypad 4
        (0x07, 0x5D) => Some((0x4C, false)), // Keypad 5
        (0x07, 0x5E) => Some((0x4D, false)), // Keypad 6
        (0x07, 0x5F) => Some((0x47, false)), // Keypad 7
        (0x07, 0x60) => Some((0x48, false)), // Keypad 8
        (0x07, 0x61) => Some((0x49, false)), // Keypad 9
        (0x07, 0x62) => Some((0x52, false)), // Keypad 0
        (0x07, 0x63) => Some((0x53, false)), // Keypad .
        (0x07, 0x65) => Some((0x5D, true)), // Application / context menu
        (0x07, 0xE0) => Some((0x1D, false)), // Left Control
        (0x07, 0xE1) => Some((0x2A, false)), // Left Shift
        (0x07, 0xE2) => Some((0x38, false)), // Left Alt
        (0x07, 0xE3) => Some((0x5B, true)), // Left Windows
        (0x07, 0xE4) => Some((0x1D, true)), // Right Control
        (0x07, 0xE5) => Some((0x36, false)), // Right Shift
        (0x07, 0xE6) => Some((0x38, true)), // Right Alt / AltGr
        (0x07, 0xE7) => Some((0x5C, true)), // Right Windows
        (0x0C, 0xB6) => Some((0x10, true)), // Previous track
        (0x0C, 0xB5) => Some((0x19, true)), // Next track
        (0x0C, 0xE2) => Some((0x20, true)), // Mute
        (0x0C, 0xCD) => Some((0x22, true)), // Play / pause
        (0x0C, 0xB7) => Some((0x24, true)), // Stop
        (0x0C, 0xEA) => Some((0x2E, true)), // Volume down
        (0x0C, 0xE9) => Some((0x30, true)), // Volume up
        _ => None,
    }
}

/// Every mapped scan code maps back to itself: the table holds no
/// (scan code, extended) pair twice.
pub proof fn law_scan_codes_round_trip(scan_code: u16, extended: bool)
    ensures
        windows_key(scan_code, extended) matches Some(k) ==> windows_scan_code(k) == Some(
            (scan_code, extended),
        ),
{
}

/// Every mapped HID key maps back to itself: the table holds no HID usage
/// twice.
pub proof fn law_hid_keys_round_trip(key: KeyCode)
    ensures
        windows_scan_code(key) matches Some(p) ==> windows_key(p.0, p.1) == Some(key),
{
}

/// Every entry of the table as `(scan code, extended, HID key)`, by ascending
/// scan code, plain before extended.
pub fn table() -> (entries: Vec<(u16, bool, KeyCode)>)
    ensures
        forall|i: int| 0 <= i < entries@.len() ==> windows_key(#[trigger] entries@[i].0, entries@[i].1) == Some(entries@[i].2),
        forall|sc: u16, ext: bool| #[trigger] windows_key(sc, ext) is Some ==> exists|i: int| 0 <= i < entries@.len() && entries@[i].0 == sc && entries@[i].1 == ext,
{
    let mut entries: Vec<(u16, bool, KeyCode)> = Vec::new();
    let mut sc: u32 = 0;
    while sc <= 0xFFFF
        invariant
            sc <= 0x10000,
            forall|i: int| 0 <= i < entries@.len() ==> windows_key(#[trigger] entries@[i].0, entries@[i].1) == Some(entries@[i].2),
            forall|c: u16, e: bool| c < sc && #[trigger] windows_key(c, e) is Some ==> exists|i: int| 0 <= i < entries@.len() && entries@[i].0 == c && entries@[i].1 == e,
        decreases 0x10000 - sc,
    {
        let c = sc as u16;
        let ghost before = entries@;
        if let Some(key) = to_hid(c, false) {
            entries.push((c, false, key));
            assert(entries@[entries@.len() - 1].0 == c);
        }
        if let Some(key) = to_hid(c, true) {
            entries.push((c, true, key));
            assert(entries@[entries@.len() - 1].0 == c);
        }
        assert forall|d: u16, e: bool| d < sc + 1 && #[trigger] windows_key(d, e) is Some implies exists|i: int|
            0 <= i < entries@.len() && entries@[i].0 == d && entries@[i].1 == e by {
            if d < sc {
                let i = choose|i: int| 0 <= i < before.len() && before[i].0 == d && before[i].1 == e;
                assert(entries@[i] == before[i]);
            } else if e {
                assert(entries@[entries@.len() - 1].0 == d && entries@[entries@.len() - 1].1 == e);
            } else {
                let i = before.len() as int;
                assert(entries@[i].0 == d && entries@[i].1 == e);
            }
        }
        sc = sc + 1;
    }
    entries
}


/// The letters of the three letter rows of a keyboard, which set 1 numbers
/// left to right: the top row from 0x10, the home row from 0x1E, the bottom
/// row from 0x2C.
pub open spec fn top_row() -> Seq<char> {
    seq!['Q', 'W', 'E', 'R', 'T', 'Y', 'U', 'I', 'O', 'P']
}

/// The home row's letters.
pub open spec fn home_row() -> Seq<char> {
    seq!['A', 'S', 'D', 'F', 'G', 'H', 'J', 'K', 'L']
}

/// The bottom row's letters.
pub open spec fn bottom_row() -> Seq<char> {
    seq!['Z', 'X', 'C', 'V', 'B', 'N', 'M']
}

/// The letter key a plain set-1 scan code names, by its place in its row.
pub open spec fn set1_letter(scan_code: u16) -> Option<char> {
    if 0x10 <= scan_code < 0x10 + top_row().len() {
        Some(top_row()[scan_code - 0x10])
    } else if 0x1E <= scan_code < 0x1E + home_row().len() {
        Some(home_row()[scan_code - 0x1E])
    } else if 0x2C <= scan_code < 0x2C + bottom_row().len() {
        Some(bottom_row()[scan_code - 0x2C])
    } else {
        None
    }
}

/// The main-row digit a plain set-1 scan code names: 1 to 9 are 0x02 to
/// 0x0A, and 0 follows them at 0x0B.
pub open spec fn set1_digit(scan_code: u16) -> Option<nat> {
    if 0x02 <= scan_code <= 0x0A {
        Some((scan_code - 1) as nat)
    } else if scan_code == 0x0B {
        Some(0nat)
    } else {
        None
    }
}

/// The function key F`n` a plain set-1 scan code names: F1 to F10 are 0x3B
/// to 0x44, F11 and F12 are 0x57 and 0x58.
pub open spec fn set1_function_key(scan_code: u16) -> Option<nat> {
    if 0x3B <= scan_code <= 0x44 {
        Some((scan_code - 0x3A) as nat)
    } else if scan_code == 0x57 || scan_code == 0x58 {
        Some((scan_code - 0x4C) as nat)
    } else {
        None
    }
}

/// The keypad digit a plain set-1 scan code names: the rows 7 8 9, 4 5 6
/// and 1 2 3 start at 0x47, 0x4B and 0x4F, and 0 is 0x52. With the extended
/// flag the same codes are the navigation keys instead.
pub open spec fn set1_keypad_digit(scan_code: u16) -> Option<nat> {
    if 0x47 <= scan_code <= 0x49 {
        Some((scan_code - 0x40) as nat)
    } else if 0x4B <= scan_code <= 0x4D {
        Some((scan_code - 0x47) as nat)
    } else if 0x4F <= scan_code <= 0x51 {
        Some((scan_code - 0x4E) as nat)
    } else if scan_code == 0x52 {
        Some(0nat)
    } else {
        None
    }
}

/// The other keys of the set-1 table, with and without the `E0` prefix, by
/// the name the library gives the key.
pub open spec fn set1_named_key(scan_code: u16, extended: bool) -> Option<&'static str> {
    match (scan_code, extended) {
        (0x01, false) => Some("Escape"),
        (0x0C, false) => Some("Minus"),
        (0x0D, false) => Some("Equal"),
        (0x0E, false) => Some("Backspace"),
        (0x0F, false) => Some("Tab"),
        (0x1A, false) => Some("BracketLeft"),
        (0x1B, false) => Some("BracketRight"),
        (0x1C, false) => Some("Enter"),
        (0x1D, false) => Some("LeftControl"),
        (0x27, false) => Some("Semicolon"),
        (0x28, false) => Some("Quote"),
        (0x29, false) => Some("Backquote"),
        (0x2A, false) => Some("LeftShift"),
        (0x2B, false) => Some("Backslash"),
        (0x33, false) => Some("Comma"),
        (0x34, false) => Some("Period"),
        (0x35, false) => Some("Slash"),
        (0x36, false) => Some("RightShift"),
        (0x38, false) => Some("LeftAlt"),
        (0x39, false) => Some("Space"),
        (0x3A, false) => Some("CapsLock"),
        (0x46, false) => Some("ScrollLock"),
        (0x1D, true) => Some("RightControl"),
        (0x38, true) => Some("RightAlt"),
        (0x5B, true) => Some("LeftMeta"),
        (0x5C, true) => Some("RightMeta"),
        (0x37, true) => Some("PrintScreen"),
        (0x47, true) => Some("Home"),
        (0x48, true) => Some("ArrowUp"),
        (0x49, true) => Some("PageUp"),
        (0x4B, true) => Some("ArrowLeft"),
        (0x4D, true) => Some("ArrowRight"),
        (0x4F, true) => Some("End"),
        (0x50, true) => Some("ArrowDown"),
        (0x51, true) => Some("PageDown"),
        (0x52, true) => Some("Insert"),
        (0x53, true) => Some("Delete"),
        (0x10, true) => Some("MediaPrevious"),
        (0x19, true) => Some("MediaNext"),
        (0x20, true) => Some("Mute"),
        (0x22, true) => Some("MediaPlayPause"),
        (0x24, true) => Some("MediaStop"),
        (0x2E, true) => Some("VolumeDown"),
        (0x30, true) => Some("VolumeUp"),
        _ => None,
    }
}

/// The keypad symbol a set-1 scan code names, with `'\n'` for Keypad
/// Enter: the `E0` prefix tells Keypad `/` and Enter from `/` and Enter on the
/// main keys.
pub open spec fn set1_keypad_symbol(scan_code: u16, extended: bool) -> Option<char> {
    match (scan_code, extended) {
        (0x35, true) => Some('/'),
        (0x37, false) => Some('*'),
        (0x4A, false) => Some('-'),
        (0x4E, false) => Some('+'),
        (0x1C, true) => Some('\n'),
        (0x53, false) => Some('.'),
        _ => None,
    }
}

/// The HID key of the remaining set-1 keys: the ISO key beside the left
/// Shift, Num Lock and the context-menu key.
pub open spec fn set1_special_key(scan_code: u16, extended: bool) -> Option<KeyCode> {
    match (scan_code, extended) {
        (0x56, false) => Some(hid_non_us_backslash()),
        (0x45, false) => Some(hid_num_lock()),
        (0x5D, true) => Some(hid_application()),
        _ => None,
    }
}

/// Each set-1 scan code translates to the HID key it names, and that key
/// translates back to it: a letter key, by its place in its keyboard row, to
/// the HID letter; a digit to the same digit; F`n` to F`n`; a plain keypad
/// code to the same keypad digit; a keypad symbol to the same symbol; every
/// other key to the HID key of the same name or usage; and the table
/// translates no pair the scan-code set does not name.
pub proof fn law_scan_codes_are_the_documented_keys(scan_code: u16, extended: bool)
    ensures
        set1_letter(scan_code) matches Some(c) ==> windows_key(scan_code, false) == Some(
            hid_letter(c),
        ) && windows_scan_code(hid_letter(c)) == Some((scan_code, false)),
        set1_digit(scan_code) matches Some(d) ==> windows_key(scan_code, false) == Some(
            hid_digit(d),
        ) && windows_scan_code(hid_digit(d)) == Some((scan_code, false)),
        set1_function_key(scan_code) matches Some(n) ==> windows_key(scan_code, false) == Some(
            hid_function_key(n),
        ) && windows_scan_code(hid_function_key(n)) == Some((scan_code, false)),
        set1_keypad_digit(scan_code) matches Some(d) ==> windows_key(scan_code, false) == Some(
            hid_keypad_digit(d),
        ) && windows_scan_code(hid_keypad_digit(d)) == Some((scan_code, false)),
        set1_named_key(scan_code, extended) matches Some(name) ==> windows_key(
            scan_code,
            extended,
        ) matches Some(k) && key_name(k) == name && windows_scan_code(k) == Some(
            (scan_code, extended),
        ),
        set1_keypad_symbol(scan_code, extended) matches Some(c) ==> hid_keypad_symbol(c) matches Some(
            k,
        ) && windows_key(scan_code, extended) == Some(k) && windows_scan_code(k) == Some(
            (scan_code, extended),
        ),
        set1_special_key(scan_code, extended) matches Some(k) ==> windows_key(scan_code, extended)
            == Some(k) && windows_scan_code(k) == Some((scan_code, extended)),
        windows_key(scan_code, extended) is Some ==> (!extended && (set1_letter(scan_code) is Some
            || set1_digit(scan_code) is Some || set1_function_key(scan_code) is Some
            || set1_keypad_digit(scan_code) is Some)) || set1_named_key(scan_code, extended) is Some
            || set1_keypad_symbol(scan_code, extended) is Some || set1_special_key(
            scan_code,
            extended,
        ) is Some,
{
    if 0x10 <= scan_code < 0x1A {
        assert(top_row().len() == 10);
    }
    if 0x1E <= scan_code < 0x27 {
        assert(home_row().len() == 9);
    }
    if 0x2C <= scan_code < 0x33 {
        assert(bottom_row().len() == 7);
    }
}

} // verus!
