//! How injected input is described to `SendInput`: the flags and data each
//! synthetic keyboard or mouse input carries.

use vstd::prelude::*;
use crate::keycode::KeyCode;
use crate::modifiers::{Modifiers, MouseButton};
use crate::windows::convert::{is_shell_shortcut_key, ShellShortcutGuard};
use crate::windows::keymap::{from_hid, windows_scan_code};

verus! {

/// `MOUSEEVENTF_MOVE`.
pub const MOUSEEVENTF_MOVE: u32 = 0x0001;
/// `MOUSEEVENTF_LEFTDOWN`.
pub const MOUSEEVENTF_LEFTDOWN: u32 = 0x0002;
/// `MOUSEEVENTF_LEFTUP`.
pub const MOUSEEVENTF_LEFTUP: u32 = 0x0004;
/// `MOUSEEVENTF_RIGHTDOWN`.
pub const MOUSEEVENTF_RIGHTDOWN: u32 = 0x0008;
/// `MOUSEEVENTF_RIGHTUP`.
pub const MOUSEEVENTF_RIGHTUP: u32 = 0x0010;
/// `MOUSEEVENTF_MIDDLEDOWN`.
pub const MOUSEEVENTF_MIDDLEDOWN: u32 = 0x0020;
/// `MOUSEEVENTF_MIDDLEUP`.
pub const MOUSEEVENTF_MIDDLEUP: u32 = 0x0040;
/// `MOUSEEVENTF_XDOWN`.
pub const MOUSEEVENTF_XDOWN: u32 = 0x0080;
/// `MOUSEEVENTF_XUP`.
pub const MOUSEEVENTF_XUP: u32 = 0x0100;
/// `MOUSEEVENTF_WHEEL`.
pub const MOUSEEVENTF_WHEEL: u32 = 0x0800;
/// `MOUSEEVENTF_HWHEEL`.
pub const MOUSEEVENTF_HWHEEL: u32 = 0x1000;
/// `MOUSEEVENTF_VIRTUALDESK`.
pub const MOUSEEVENTF_VIRTUALDESK: u32 = 0x4000;
/// `MOUSEEVENTF_ABSOLUTE`.
pub const MOUSEEVENTF_ABSOLUTE: u32 = 0x8000;
/// `KEYEVENTF_EXTENDEDKEY`.
pub const KEYEVENTF_EXTENDEDKEY: u32 = 0x0001;
/// `KEYEVENTF_KEYUP`.
pub const KEYEVENTF_KEYUP: u32 = 0x0002;
/// `KEYEVENTF_SCANCODE`.
pub const KEYEVENTF_SCANCODE: u32 = 0x0008;

/// The flags and mouse data of a synthetic button transition; the data
/// names the X button for Back and Forward.
pub open spec fn button_input_of(button: MouseButton, pressed: bool) -> (u32, u32) {
    match (button, pressed) {
        (MouseButton::Left, true) => (MOUSEEVENTF_LEFTDOWN, 0),
        (MouseButton::Left, false) => (MOUSEEVENTF_LEFTUP, 0),
        (MouseButton::Right, true) => (MOUSEEVENTF_RIGHTDOWN, 0),
        (MouseButton::Right, false) => (MOUSEEVENTF_RIGHTUP, 0),
        (MouseButton::Middle, true) => (MOUSEEVENTF_MIDDLEDOWN, 0),
        (MouseButton::Middle, false) => (MOUSEEVENTF_MIDDLEUP, 0),
        (MouseButton::Back, true) => (MOUSEEVENTF_XDOWN, 0x0001),
        (MouseButton::Back, false) => (MOUSEEVENTF_XUP, 0x0001),
        (MouseButton::Forward, true) => (MOUSEEVENTF_XDOWN, 0x0002),
        (MouseButton::Forward, false) => (MOUSEEVENTF_XUP, 0x0002),
    }
}

/// The flags and mouse data of a synthetic button transition.
pub fn button_input(button: MouseButton, pressed: bool) -> (r: (u32, u32))
    ensures
        r == button_input_of(button, pressed),
{
    match (button, pressed) {
        (MouseButton::Left, true) => (MOUSEEVENTF_LEFTDOWN, 0),
        (MouseButton::Left, false) => (MOUSEEVENTF_LEFTUP, 0),
        (MouseButton::Right, true) => (MOUSEEVENTF_RIGHTDOWN, 0),
        (MouseButton::Right, false) => (MOUSEEVENTF_RIGHTUP, 0),
        (MouseButton::Middle, true) => (MOUSEEVENTF_MIDDLEDOWN, 0),
        (MouseButton::Middle, false) => (MOUSEEVENTF_MIDDLEUP, 0),
        (MouseButton::Back, true) => (MOUSEEVENTF_XDOWN, 0x0001),
        (MouseButton::Back, false) => (MOUSEEVENTF_XUP, 0x0001),
        (MouseButton::Forward, true) => (MOUSEEVENTF_XDOWN, 0x0002),
        (MouseButton::Forward, false) => (MOUSEEVENTF_XUP, 0x0002),
    }
}

/// The flags of a synthetic key transition sent by scan code, which is what
/// makes it independent of the receiving machine's keyboard layout.
pub open spec fn key_flags_of(extended: bool, pressed: bool) -> u32 {
    KEYEVENTF_SCANCODE | (if extended { KEYEVENTF_EXTENDEDKEY } else { 0u32 }) | (if pressed {
        0u32
    } else {
        KEYEVENTF_KEYUP
    })
}

/// The flags of a synthetic key transition sent by scan code.
pub fn key_input_flags(extended: bool, pressed: bool) -> (f: u32)
    ensures
        f == key_flags_of(extended, pressed),
{
    let ext: u32 = if extended { KEYEVENTF_EXTENDEDKEY } else { 0 };
    let up: u32 = if pressed { 0 } else { KEYEVENTF_KEYUP };
    KEYEVENTF_SCANCODE | ext | up
}

/// The flags of the inert `VK_NONAME` keystroke used as a guard.
pub fn noname_input_flags(pressed: bool) -> (f: u32)
    ensures
        f == (if pressed { 0u32 } else { KEYEVENTF_KEYUP }),
{
    if pressed {
        0
    } else {
        KEYEVENTF_KEYUP
    }
}

/// How one key transition is injected.
#[derive(Debug, Clone, Copy, PartialEq, Eq, Structural)]
pub struct KeyInjection {
    /// The scan code sent.
    pub scan_code: u16,
    /// Whether it carries the `E0` prefix.
    pub extended: bool,
    /// The `KEYBDINPUT` flags.
    pub flags: u32,
    /// True when an inert `VK_NONAME` press and release must be sent first,
    /// so the shell does not act on a lone Windows or Alt release.
    pub guard_first: bool,
}

/// Plans the injection of a key transition, recording it with the shell
/// shortcut guard. `held` is the modifier set once the transition has been
/// applied. A key with no scan code on this layout is dropped: there is
/// nothing sensible to press instead, and the guard is left untouched.
pub fn plan_key_injection(
    guard: &mut ShellShortcutGuard,
    key: KeyCode,
    pressed: bool,
    held: Modifiers,
) -> (plan: Option<KeyInjection>)
    ensures
        match windows_scan_code(key) {
            None => plan is None && final(guard)@ == old(guard)@,
            Some((scan_code, extended)) => plan == Some(
                KeyInjection {
                    scan_code,
                    extended,
                    flags: key_flags_of(extended, pressed),
                    guard_first: !pressed && !old(guard)@ && is_shell_shortcut_key(key),
                },
            ) && final(guard)@ == (if !crate::keycode::is_modifier_key(key) {
                true
            } else if pressed && crate::windows::convert::single_modifier(held@) {
                false
            } else {
                old(guard)@
            }),
        },
{
    let (scan_code, extended) = match from_hid(key) {
        Some(found) => found,
        None => {
            return None;
        },
    };
    let guard_first = !pressed && guard.needs_guard(key);
    guard.on_key(key, pressed, held);
    Some(KeyInjection { scan_code, extended, flags: key_input_flags(extended, pressed), guard_first })
}

} // verus!
