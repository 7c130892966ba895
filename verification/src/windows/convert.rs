//! Turning Win32 hook parameters into input events, and back for injection.
//!
//! As on macOS, these functions take plain values rather than Win32
//! structures, so every decision is ordinary logic.

use vstd::prelude::*;

use crate::keycode::KeyCode;
use crate::modifiers::{Modifiers, MouseButton};

pub mod messages;

verus! {

/// `XBUTTON1`, reported in the high word of `mouseData`.
pub const XBUTTON1: u16 = 0x0001;
/// `XBUTTON2`.
pub const XBUTTON2: u16 = 0x0002;

/// Virtual key used as the inert keystroke by the shell-shortcut guard:
/// reserved by Microsoft and bound to no function.
pub const VK_NONAME: u16 = 0xFC;

/// The button and direction a mouse message reports. `mouse_data`'s high word
/// says which thumb button moved, and is consulted for the `X` buttons only.
pub open spec fn button_of_message(message: u32, mouse_data: u32) -> Option<(MouseButton, bool)> {
    let high = (mouse_data >> 16u32) as u16;
    if message == 0x0201 {
        Some((MouseButton::Left, true))
    } else if message == 0x0202 {
        Some((MouseButton::Left, false))
    } else if message == 0x0204 {
        Some((MouseButton::Right, true))
    } else if message == 0x0205 {
        Some((MouseButton::Right, false))
    } else if message == 0x0207 {
        Some((MouseButton::Middle, true))
    } else if message == 0x0208 {
        Some((MouseButton::Middle, false))
    } else if message == 0x020B || message == 0x020C {
        if high == 0x0001 {
            Some((MouseButton::Back, message == 0x020B))
        } else if high == 0x0002 {
            Some((MouseButton::Forward, message == 0x020B))
        } else {
            None
        }
    } else {
        None
    }
}

/// Maps a mouse message to a button and its direction.
pub fn button_from_message(message: u32, mouse_data: u32) -> (r: Option<(MouseButton, bool)>)
    ensures
        r == button_of_message(message, mouse_data),
{
    let high_word = (mouse_data >> 16u32) as u16;
    match message {
        messages::LBUTTONDOWN => Some((MouseButton::Left, true)),
        messages::LBUTTONUP => Some((MouseButton::Left, false)),
        messages::RBUTTONDOWN => Some((MouseButton::Right, true)),
        messages::RBUTTONUP => Some((MouseButton::Right, false)),
        messages::MBUTTONDOWN => Some((MouseButton::Middle, true)),
        messages::MBUTTONUP => Some((MouseButton::Middle, false)),
        messages::XBUTTONDOWN | messages::XBUTTONUP => {
            let pressed = message == messages::XBUTTONDOWN;
            if high_word == XBUTTON1 {
                Some((MouseButton::Back, pressed))
            } else if high_word == XBUTTON2 {
                Some((MouseButton::Forward, pressed))
            } else {
                None
            }
        },
        _ => None,
    }
}

/// The signed notch count, in units of 1/120 notch, that a wheel message
/// carries in the high word of its mouse data.
pub open spec fn wheel_units(mouse_data: u32) -> i16 {
    ((mouse_data >> 16u32) as u16) as i16
}

/// Reads a wheel message: whether it scrolls horizontally, and its signed
/// notch count in units of 1/120 notch. `None` for any other message.
pub fn wheel_notches(message: u32, mouse_data: u32) -> (r: Option<(bool, i16)>)
    ensures
        message == messages::MOUSEWHEEL ==> r == Some((false, wheel_units(mouse_data))),
        message == messages::MOUSEHWHEEL ==> r == Some((true, wheel_units(mouse_data))),
        message != messages::MOUSEWHEEL && message != messages::MOUSEHWHEEL ==> r is None,
{
    let raw = ((mouse_data >> 16u32) as u16) as i16;
    match message {
        messages::MOUSEWHEEL => Some((false, raw)),
        messages::MOUSEHWHEEL => Some((true, raw)),
        _ => None,
    }
}

/// The virtual desktop rectangle, in physical pixels. Its origin can be
/// negative: a display left of the primary one has a negative `left`.
#[derive(Debug, Clone, Copy, PartialEq, Eq, Structural)]
pub struct VirtualDesktop {
    /// Leftmost pixel, `SM_XVIRTUALSCREEN`.
    pub left: i32,
    /// Topmost pixel, `SM_YVIRTUALSCREEN`.
    pub top: i32,
    /// Width in pixels, `SM_CXVIRTUALSCREEN`.
    pub width: i32,
    /// Height in pixels, `SM_CYVIRTUALSCREEN`.
    pub height: i32,
}

/// True for the keys whose lone press-and-release the Windows shell acts on:
/// either Windows key (Start menu) or either Alt (menu bar).
pub open spec fn is_shell_shortcut_key(key: KeyCode) -> bool {
    key.page == 0x07 && (key.usage == 0xE3 || key.usage == 0xE7 || key.usage == 0xE2 || key.usage
        == 0xE6)
}

/// True when exactly one modifier is held.
pub open spec fn single_modifier(bits: u8) -> bool {
    bits == 1 || bits == 2 || bits == 4 || bits == 8 || bits == 16 || bits == 32 || bits == 64
        || bits == 128
}

/// Whether releasing this key alone would trigger a Windows shell shortcut.
///
/// The shell opens the Start menu on a lone Windows-key press-and-release and
/// focuses the menu bar on a lone Alt, both on the release. A boundary crossing
/// produces exactly that when the user held the key while moving to another
/// machine, so the injector brackets such a release with an inert keystroke.
pub fn needs_shell_shortcut_guard(key: KeyCode, saw_other_input: bool) -> (r: bool)
    ensures
        r == (!saw_other_input && is_shell_shortcut_key(key)),
{
    if saw_other_input {
        return false;
    }
    key.page == 0x07 && (key.usage == 0xE3 || key.usage == 0xE7 || key.usage == 0xE2 || key.usage
        == 0xE6)
}

/// Tracks whether a modifier release would look like a lone press to the
/// shell: a guard is needed when a Windows or Alt key is released and nothing
/// else was injected while it was held.
#[derive(Debug, Clone, Copy, PartialEq, Eq, Structural)]
pub struct ShellShortcutGuard {
    saw_other_input: bool,
}

impl View for ShellShortcutGuard {
    type V = bool;

    /// Whether other input was seen since the current chord started.
    closed spec fn view(&self) -> bool {
        self.saw_other_input
    }
}

impl ShellShortcutGuard {
    /// A guard with no history.
    pub fn new() -> (g: ShellShortcutGuard)
        ensures
            g@ == false,
    {
        ShellShortcutGuard { saw_other_input: false }
    }

    /// Records a key event; `modifiers_after` is the modifier set after the
    /// event was applied.
    ///
    /// Any ordinary key closes the window. A modifier press that leaves
    /// exactly one modifier held starts a chord, which opens it. Asking
    /// whether the set was empty before would always answer no, since the
    /// press is already recorded.
    pub fn on_key(&mut self, key: KeyCode, pressed: bool, modifiers_after: Modifiers)
        ensures
            final(self)@ == (if !crate::keycode::is_modifier_key(key) {
                true
            } else if pressed && single_modifier(modifiers_after@) {
                false
            } else {
                old(self)@
            }),
    {
        if !key.is_modifier() {
            self.saw_other_input = true;
            return;
        }
        let bits = modifiers_after.bits();
        let one = if bits == 0 {
            false
        } else {
            bits & (bits - 1) == 0
        };
        assert(bits != 0 ==> ((bits & ((bits - 1) as u8) == 0) == single_modifier(bits)))
            by (bit_vector);
        assert(bits == 0 ==> !single_modifier(bits));
        if pressed && one {
            self.saw_other_input = false;
        }
    }

    /// Records a mouse button, which also counts as intervening input.
    pub fn on_button(&mut self)
        ensures
            final(self)@ == true,
    {
        self.saw_other_input = true;
    }

    /// Whether releasing `key` now needs the inert-keystroke guard.
    pub fn needs_guard(&self, key: KeyCode) -> (r: bool)
        ensures
            r == (!self@ && is_shell_shortcut_key(key)),
    {
        needs_shell_shortcut_guard(key, self.saw_other_input)
    }

    /// Clears the history, after a full release.
    pub fn reset(&mut self)
        ensures
            final(self)@ == false,
    {
        self.saw_other_input = false;
    }
}


/// Each button message names its own button: `WM_LBUTTONDOWN`/`UP` the left
/// button, `WM_RBUTTONDOWN`/`UP` the right, `WM_MBUTTONDOWN`/`UP` the middle,
/// and `WM_XBUTTONDOWN`/`UP` the thumb button `XBUTTON1` (back) or `XBUTTON2`
/// (forward) that its data names; the `DOWN` message presses and the `UP`
/// message releases, whatever else the data holds.
pub proof fn law_button_messages_name_their_buttons(mouse_data: u32)
    ensures
        button_of_message(messages::LBUTTONDOWN, mouse_data) == Some((MouseButton::Left, true)),
        button_of_message(messages::LBUTTONUP, mouse_data) == Some((MouseButton::Left, false)),
        button_of_message(messages::RBUTTONDOWN, mouse_data) == Some((MouseButton::Right, true)),
        button_of_message(messages::RBUTTONUP, mouse_data) == Some((MouseButton::Right, false)),
        button_of_message(messages::MBUTTONDOWN, mouse_data) == Some((MouseButton::Middle, true)),
        button_of_message(messages::MBUTTONUP, mouse_data) == Some((MouseButton::Middle, false)),
        (mouse_data >> 16u32) as u16 == XBUTTON1 ==> button_of_message(
            messages::XBUTTONDOWN,
            mouse_data,
        ) == Some((MouseButton::Back, true)) && button_of_message(messages::XBUTTONUP, mouse_data)
            == Some((MouseButton::Back, false)),
        (mouse_data >> 16u32) as u16 == XBUTTON2 ==> button_of_message(
            messages::XBUTTONDOWN,
            mouse_data,
        ) == Some((MouseButton::Forward, true)) && button_of_message(messages::XBUTTONUP, mouse_data)
            == Some((MouseButton::Forward, false)),
{
}

/// A button's release is reported by the message after the one that reports
/// its press, and names the same button: a press read from any message is
/// undone by the release the next message reports, and every release is the
/// counterpart of a press.
pub proof fn law_releases_follow_their_presses(message: u32, mouse_data: u32)
    ensures
        button_of_message(message, mouse_data) matches Some((b, true)) ==> button_of_message(
            (message + 1) as u32,
            mouse_data,
        ) == Some((b, false)),
        button_of_message(message, mouse_data) matches Some((b, false)) ==> message >= 1
            && button_of_message((message - 1) as u32, mouse_data) == Some((b, true)),
{
}

} // verus!
