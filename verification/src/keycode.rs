//! Physical key identification by USB HID usage page and usage ID.
//!
//! A key is named by its physical position rather than by the platform's
//! virtual key code or by the character it produces: only the position survives
//! a trip between machines with different keyboard layouts.

use vstd::prelude::*;

pub mod keys;

verus! {

/// HID usage page for the Keyboard/Keypad page.
pub const PAGE_KEYBOARD: u16 = 0x07;

/// HID usage page for the Consumer page, used for media and volume keys.
pub const PAGE_CONSUMER: u16 = 0x0C;

/// A physical key, identified by HID usage page and usage ID.
#[derive(Debug, Clone, Copy, PartialEq, Eq, Structural, PartialOrd, Ord, Hash)]
pub struct KeyCode {
    /// HID usage page.
    pub page: u16,
    /// HID usage ID within the page.
    pub usage: u16,
}

/// True for the eight HID modifiers: keyboard-page usages `0xE0..=0xE7`.
pub open spec fn is_modifier_key(key: KeyCode) -> bool {
    key.page == PAGE_KEYBOARD && 0xE0 <= key.usage <= 0xE7
}

/// Position of a modifier key within the HID modifier byte.
pub open spec fn modifier_index(key: KeyCode) -> nat
    recommends
        is_modifier_key(key),
{
    (key.usage - 0xE0) as nat
}

/// The modifier byte bit of a modifier key: `1 << (usage - 0xE0)`.
pub open spec fn modifier_bit_of(key: KeyCode) -> u8
    recommends
        is_modifier_key(key),
{
    (1u8 << (modifier_index(key) as u8)) as u8
}

/// The HID key of letter `c` (`'A'` to `'Z'`): the Keyboard/Keypad page
/// numbers the letter keys 0x04 to 0x1D in alphabetical order.
pub open spec fn hid_letter(c: char) -> KeyCode {
    KeyCode { page: 0x07, usage: (0x04 + (c as u32 - 'A' as u32)) as u16 }
}

/// The HID key of digit `d` on the main row: 1 to 9 are 0x1E to 0x26, and 0,
/// which follows 9 on the keyboard, is 0x27.
pub open spec fn hid_digit(d: nat) -> KeyCode {
    KeyCode { page: 0x07, usage: if d == 0 { 0x27u16 } else { (0x1D + d) as u16 } }
}

/// The HID key of function key F`n`: F1 to F12 are 0x3A to 0x45, F13 to F24
/// are 0x68 to 0x73.
pub open spec fn hid_function_key(n: nat) -> KeyCode {
    KeyCode { page: 0x07, usage: if n <= 12 { (0x39 + n) as u16 } else { (0x5B + n) as u16 } }
}

/// The HID key of keypad digit `d`: 1 to 9 are 0x59 to 0x61, and 0 is 0x62.
pub open spec fn hid_keypad_digit(d: nat) -> KeyCode {
    KeyCode { page: 0x07, usage: if d == 0 { 0x62u16 } else { (0x58 + d) as u16 } }
}

/// The HID key of keypad symbol `c`, with `'\n'` standing for Keypad
/// Enter: `/` 0x54, `*` 0x55, `-` 0x56, `+` 0x57, Enter 0x58, `.` 0x63,
/// `=` 0x67 and `,` 0x85.
pub open spec fn hid_keypad_symbol(c: char) -> Option<KeyCode> {
    if c == '/' {
        Some(KeyCode { page: 0x07, usage: 0x54 })
    } else if c == '*' {
        Some(KeyCode { page: 0x07, usage: 0x55 })
    } else if c == '-' {
        Some(KeyCode { page: 0x07, usage: 0x56 })
    } else if c == '+' {
        Some(KeyCode { page: 0x07, usage: 0x57 })
    } else if c == '\n' {
        Some(KeyCode { page: 0x07, usage: 0x58 })
    } else if c == '.' {
        Some(KeyCode { page: 0x07, usage: 0x63 })
    } else if c == '=' {
        Some(KeyCode { page: 0x07, usage: 0x67 })
    } else if c == ',' {
        Some(KeyCode { page: 0x07, usage: 0x85 })
    } else {
        None
    }
}

/// HID Keyboard Non-US `\` and `|`, the ISO key beside the left Shift.
pub open spec fn hid_non_us_backslash() -> KeyCode {
    KeyCode { page: 0x07, usage: 0x64 }
}

/// HID Keyboard Application, the context-menu key.
pub open spec fn hid_application() -> KeyCode {
    KeyCode { page: 0x07, usage: 0x65 }
}

/// HID Keypad Num Lock and Clear.
pub open spec fn hid_num_lock() -> KeyCode {
    KeyCode { page: 0x07, usage: 0x53 }
}

/// HID Keyboard International`n`: 1 to 9 are 0x87 to 0x8F.
pub open spec fn hid_international(n: nat) -> KeyCode {
    KeyCode { page: 0x07, usage: (0x86 + n) as u16 }
}

/// HID Keyboard LANG`n`: 1 to 9 are 0x90 to 0x98.
pub open spec fn hid_lang(n: nat) -> KeyCode {
    KeyCode { page: 0x07, usage: (0x8F + n) as u16 }
}

/// Stable diagnostic name of a key; `"Unknown"` for usages without one.
pub open spec fn key_name(key: KeyCode) -> &'static str {
    match (key.page, key.usage) {
            (0x07, 0x04) => "A",
            (0x07, 0x05) => "B",
            (0x07, 0x06) => "C",
            (0x07, 0x07) => "D",
            (0x07, 0x08) => "E",
            (0x07, 0x09) => "F",
            (0x07, 0x0A) => "G",
            (0x07, 0x0B) => "H",
            (0x07, 0x0C) => "I",
            (0x07, 0x0D) => "J",
            (0x07, 0x0E) => "K",
            (0x07, 0x0F) => "L",
            (0x07, 0x10) => "M",
            (0x07, 0x11) => "N",
            (0x07, 0x12) => "O",
            (0x07, 0x13) => "P",
            (0x07, 0x14) => "Q",
            (0x07, 0x15) => "R",
            (0x07, 0x16) => "S",
            (0x07, 0x17) => "T",
            (0x07, 0x18) => "U",
            (0x07, 0x19) => "V",
            (0x07, 0x1A) => "W",
            (0x07, 0x1B) => "X",
            (0x07, 0x1C) => "Y",
            (0x07, 0x1D) => "Z",
            (0x07, 0x1E) => "1",
            (0x07, 0x1F) => "2",
            (0x07, 0x20) => "3",
            (0x07, 0x21) => "4",
            (0x07, 0x22) => "5",
            (0x07, 0x23) => "6",
            (0x07, 0x24) => "7",
            (0x07, 0x25) => "8",
            (0x07, 0x26) => "9",
            (0x07, 0x27) => "0",
            (0x07, 0x3A) => "F1",
            (0x07, 0x3B) => "F2",
            (0x07, 0x3C) => "F3",
            (0x07, 0x3D) => "F4",
            (0x07, 0x3E) => "F5",
            (0x07, 0x3F) => "F6",
            (0x07, 0x40) => "F7",
            (0x07, 0x41) => "F8",
            (0x07, 0x42) => "F9",
            (0x07, 0x43) => "F10",
            (0x07, 0x44) => "F11",
            (0x07, 0x45) => "F12",
            (0x07, 0x28) => "Enter",
            (0x07, 0x29) => "Escape",
            (0x07, 0x2A) => "Backspace",
            (0x07, 0x2B) => "Tab",
            (0x07, 0x2C) => "Space",
            (0x07, 0x2D) => "Minus",
            (0x07, 0x2E) => "Equal",
            (0x07, 0x2F) => "BracketLeft",
            (0x07, 0x30) => "BracketRight",
            (0x07, 0x31) => "Backslash",
            (0x07, 0x33) => "Semicolon",
            (0x07, 0x34) => "Quote",
            (0x07, 0x35) => "Backquote",
            (0x07, 0x36) => "Comma",
            (0x07, 0x37) => "Period",
            (0x07, 0x38) => "Slash",
            (0x07, 0x39) => "CapsLock",
            (0x07, 0x46) => "PrintScreen",
            (0x07, 0x47) => "ScrollLock",
            (0x07, 0x48) => "Pause",
            (0x07, 0x49) => "Insert",
            (0x07, 0x4A) => "Home",
            (0x07, 0x4B) => "PageUp",
            (0x07, 0x4C) => "Delete",
            (0x07, 0x4D) => "End",
            (0x07, 0x4E) => "PageDown",
            (0x07, 0x4F) => "ArrowRight",
            (0x07, 0x50) => "ArrowLeft",
            (0x07, 0x51) => "ArrowDown",
            (0x07, 0x52) => "ArrowUp",
            (0x07, 0xE0) => "LeftControl",
            (0x07, 0xE1) => "LeftShift",
            (0x07, 0xE2) => "LeftAlt",
            (0x07, 0xE3) => "LeftMeta",
            (0x07, 0xE4) => "RightControl",
            (0x07, 0xE5) => "RightShift",
            (0x07, 0xE6) => "RightAlt",
            (0x07, 0xE7) => "RightMeta",
            (0x0C, 0xB5) => "MediaNext",
            (0x0C, 0xB6) => "MediaPrevious",
            (0x0C, 0xB7) => "MediaStop",
            (0x0C, 0xCD) => "MediaPlayPause",
            (0x0C, 0xE2) => "Mute",
            (0x0C, 0xE9) => "VolumeUp",
            (0x0C, 0xEA) => "VolumeDown",
            _ => "Unknown",
    }
}

impl KeyCode {
    /// Builds a key code from an explicit page and usage.
    pub fn new(page: u16, usage: u16) -> (key: KeyCode)
        ensures
            key.page == page,
            key.usage == usage,
    {
        KeyCode { page, usage }
    }

    /// Builds a key on the keyboard page.
    pub fn keyboard(usage: u16) -> (key: KeyCode)
        ensures
            key == (KeyCode { page: PAGE_KEYBOARD, usage }),
    {
        KeyCode::new(PAGE_KEYBOARD, usage)
    }

    /// Builds a key on the consumer page.
    pub fn consumer(usage: u16) -> (key: KeyCode)
        ensures
            key == (KeyCode { page: PAGE_CONSUMER, usage }),
    {
        KeyCode::new(PAGE_CONSUMER, usage)
    }

    /// Returns true if this key is one of the eight HID modifiers.
    pub fn is_modifier(self) -> (r: bool)
        ensures
            r == is_modifier_key(self),
    {
        self.page == PAGE_KEYBOARD && self.usage >= 0xE0 && self.usage <= 0xE7
    }

    /// Returns the modifier bit this key corresponds to, if it is a modifier.
    ///
    /// Modifiers have usages `0xE0..=0xE7` in the order of the modifier byte's
    /// bits, so the bit is a shift by the usage's offset.
    pub fn modifier_bit(self) -> (r: Option<u8>)
        ensures
            r == (if is_modifier_key(self) { Some(modifier_bit_of(self)) } else { None }),
    {
        if self.is_modifier() {
            let shift: u8 = (self.usage - 0xE0) as u8;
            Some(1u8 << shift)
        } else {
            None
        }
    }

    /// Returns a stable name for diagnostics and tests.
    pub fn name(self) -> (r: &'static str)
        ensures
            r == key_name(self),
    {
        match (self.page, self.usage) {
            (0x07, 0x04) => "A",
            (0x07, 0x05) => "B",
            (0x07, 0x06) => "C",
            (0x07, 0x07) => "D",
            (0x07, 0x08) => "E",
            (0x07, 0x09) => "F",
            (0x07, 0x0A) => "G",
            (0x07, 0x0B) => "H",
            (0x07, 0x0C) => "I",
            (0x07, 0x0D) => "J",
            (0x07, 0x0E) => "K",
            (0x07, 0x0F) => "L",
            (0x07, 0x10) => "M",
            (0x07, 0x11) => "N",
            (0x07, 0x12) => "O",
            (0x07, 0x13) => "P",
            (0x07, 0x14) => "Q",
            (0x07, 0x15) => "R",
            (0x07, 0x16) => "S",
            (0x07, 0x17) => "T",
            (0x07, 0x18) => "U",
            (0x07, 0x19) => "V",
            (0x07, 0x1A) => "W",
            (0x07, 0x1B) => "X",
            (0x07, 0x1C) => "Y",
            (0x07, 0x1D) => "Z",
            (0x07, 0x1E) => "1",
            (0x07, 0x1F) => "2",
            (0x07, 0x20) => "3",
            (0x07, 0x21) => "4",
            (0x07, 0x22) => "5",
            (0x07, 0x23) => "6",
            (0x07, 0x24) => "7",
            (0x07, 0x25) => "8",
            (0x07, 0x26) => "9",
            (0x07, 0x27) => "0",
            (0x07, 0x3A) => "F1",
            (0x07, 0x3B) => "F2",
            (0x07, 0x3C) => "F3",
            (0x07, 0x3D) => "F4",
            (0x07, 0x3E) => "F5",
            (0x07, 0x3F) => "F6",
            (0x07, 0x40) => "F7",
            (0x07, 0x41) => "F8",
            (0x07, 0x42) => "F9",
            (0x07, 0x43) => "F10",
            (0x07, 0x44) => "F11",
            (0x07, 0x45) => "F12",
            (0x07, 0x28) => "Enter",
            (0x07, 0x29) => "Escape",
            (0x07, 0x2A) => "Backspace",
            (0x07, 0x2B) => "Tab",
            (0x07, 0x2C) => "Space",
            (0x07, 0x2D) => "Minus",
            (0x07, 0x2E) => "Equal",
            (0x07, 0x2F) => "BracketLeft",
            (0x07, 0x30) => "BracketRight",
            (0x07, 0x31) => "Backslash",
            (0x07, 0x33) => "Semicolon",
            (0x07, 0x34) => "Quote",
            (0x07, 0x35) => "Backquote",
            (0x07, 0x36) => "Comma",
            (0x07, 0x37) => "Period",
            (0x07, 0x38) => "Slash",
            (0x07, 0x39) => "CapsLock",
            (0x07, 0x46) => "PrintScreen",
            (0x07, 0x47) => "ScrollLock",
            (0x07, 0x48) => "Pause",
            (0x07, 0x49) => "Insert",
            (0x07, 0x4A) => "Home",
            (0x07, 0x4B) => "PageUp",
            (0x07, 0x4C) => "Delete",
            (0x07, 0x4D) => "End",
            (0x07, 0x4E) => "PageDown",
            (0x07, 0x4F) => "ArrowRight",
            (0x07, 0x50) => "ArrowLeft",
            (0x07, 0x51) => "ArrowDown",
            (0x07, 0x52) => "ArrowUp",
            (0x07, 0xE0) => "LeftControl",
            (0x07, 0xE1) => "LeftShift",
            (0x07, 0xE2) => "LeftAlt",
            (0x07, 0xE3) => "LeftMeta",
            (0x07, 0xE4) => "RightControl",
            (0x07, 0xE5) => "RightShift",
            (0x07, 0xE6) => "RightAlt",
            (0x07, 0xE7) => "RightMeta",
            (0x0C, 0xB5) => "MediaNext",
            (0x0C, 0xB6) => "MediaPrevious",
            (0x0C, 0xB7) => "MediaStop",
            (0x0C, 0xCD) => "MediaPlayPause",
            (0x0C, 0xE2) => "Mute",
            (0x0C, 0xE9) => "VolumeUp",
            (0x0C, 0xEA) => "VolumeDown",
            _ => "Unknown",
        }
    }

    /// Renders the key for diagnostics: its name, or `HID(0xPP:0xUUUU)` with
    /// the page as at least two and the usage as at least four lowercase hex
    /// digits when the key has no name.
    pub fn to_string(&self) -> (s: String)
        ensures
            s@ == key_display(*self),
    {
        let name = self.name();
        proof {
            reveal_strlit("Unknown");
        }
        if str_eq(name, "Unknown") {
            let mut out = String::from_str("HID(0x");
            push_hex(&mut out, self.page as u32, 2);
            out.append(":0x");
            push_hex(&mut out, self.usage as u32, 4);
            out.append(")");
            proof {
                reveal_strlit("HID(0x");
                reveal_strlit(":0x");
                reveal_strlit(")");
            }
            out
        } else {
            String::from_str(name)
        }
    }
}

/// The rendering of [`KeyCode::to_string`].
pub open spec fn key_display(key: KeyCode) -> Seq<char> {
    if key_name(key)@ == "Unknown"@ {
        "HID(0x"@ + hex_of(key.page as nat, 2) + ":0x"@ + hex_of(key.usage as nat, 4) + ")"@
    } else {
        key_name(key)@
    }
}

/// A lowercase hexadecimal digit.
pub open spec fn hex_digit(d: nat) -> char {
    if d < 10 {
        (48 + d) as char
    } else {
        (87 + d) as char
    }
}

/// Lowercase hexadecimal digits of `n`, zero-padded to at least `width` digits.
pub open spec fn hex_of(n: nat, width: nat) -> Seq<char>
    decreases n + width,
{
    if n < 16 && width <= 1 {
        seq![hex_digit(n)]
    } else {
        hex_of(n / 16, if width > 0 { (width - 1) as nat } else { 0 }) + seq![hex_digit(n % 16)]
    }
}

/// Appends `hex_of(n, width)` to `out`.
pub fn push_hex(out: &mut String, n: u32, width: u32)
    requires
        width <= 8,
    ensures
        final(out)@ == old(out)@ + hex_of(n as nat, width as nat),
    decreases n + width,
{
    let digits = "0123456789abcdef";
    proof {
        reveal_strlit("0123456789abcdef");
    }
    let d: usize = (n % 16) as usize;
    if !(n < 16 && width <= 1) {
        push_hex(out, n / 16, if width > 0 { width - 1 } else { 0 });
    }
    let digit = digits.substring_char(d, d + 1);
    assert(digit@ =~= seq![hex_digit(n as nat % 16)]);
    out.append(digit);
}

/// Character-wise string equality.
pub fn str_eq(a: &str, b: &str) -> (r: bool)
    ensures
        r == (a@ == b@),
{
    let n = a.unicode_len();
    if n != b.unicode_len() {
        return false;
    }
    let mut i: usize = 0;
    while i < n
        invariant
            n == a@.len(),
            n == b@.len(),
            i <= n,
            forall|j: int| 0 <= j < i ==> a@[j] == b@[j],
        decreases n - i,
    {
        if a.get_char(i) != b.get_char(i) {
            return false;
        }
        i = i + 1;
    }
    assert(a@ =~= b@);
    true
}

} // verus!
