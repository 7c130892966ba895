//! What one event seen by the low-level Windows hooks means.
//!
//! The hook procedures read the event's structure and offer the resulting
//! input events to the sink; deciding what the event is, and whether it may
//! be forwarded at all, is done here on the plain values they read.

use vstd::prelude::*;
use crate::keycode::KeyCode;
use crate::modifiers::MouseButton;
use crate::windows::convert::{button_from_message, button_of_message, messages};
use crate::windows::keymap::{to_hid, windows_key};

verus! {

/// Marker placed in the extra-info field of every event this application
/// injects, so the hooks never capture it and send it back.
pub const INJECTION_MARKER: usize = 0x004D_4252;

/// `LLMHF_INJECTED`: a mouse event was synthesised rather than performed.
pub const LLMHF_INJECTED: u32 = 0x01;

/// `LLKHF_INJECTED`: a keyboard event was synthesised rather than typed.
pub const LLKHF_INJECTED: u32 = 0x10;

/// `LLKHF_EXTENDED`: the key carried an `E0` prefix.
pub const LLKHF_EXTENDED: u32 = 0x01;

/// Diagnostics from a running capture.
#[derive(Debug, Clone, Copy, PartialEq, Eq, Structural)]
pub struct CaptureDiagnostics {
    /// Key events whose scan code mapped to no HID usage.
    pub unmapped_keys: u64,
    /// Key events for which Windows reported no scan code.
    pub missing_scancodes: u64,
}

/// True if an event was synthesised rather than physically performed, by
/// this application or any other: what is forwarded is what the user did.
pub open spec fn synthetic(flags: u32, injected_flag: u32, extra_info: usize) -> bool {
    flags & injected_flag != 0 || extra_info == INJECTION_MARKER
}

/// Whether an event was synthesised rather than physically performed.
pub fn is_synthetic(flags: u32, injected_flag: u32, extra_info: usize) -> (r: bool)
    ensures
        r == synthetic(flags, injected_flag, extra_info),
{
    flags & injected_flag != 0 || extra_info == INJECTION_MARKER
}

/// What a keyboard hook event comes to.
#[derive(Debug, Clone, Copy, PartialEq, Eq, Structural)]
pub enum KeyHookOutcome {
    /// Not ours to handle: synthesised, or not a key message. Let it through.
    Pass,
    /// Windows reported no usable scan code, so there is no physical key to
    /// describe. Counted and let through.
    MissingScanCode,
    /// The scan code maps to no HID usage. Counted and let through.
    Unmapped,
    /// A key transition to offer the sink. The hook reports no repeat count;
    /// a held key's repeats arrive as further presses.
    Key {
        /// The physical key.
        key: KeyCode,
        /// True for a press.
        pressed: bool,
    },
}

/// What a keyboard hook event means.
pub open spec fn key_hook_meaning(message: u32, scan_code: u32, flags: u32, extra_info: usize) -> KeyHookOutcome {
    if synthetic(flags, LLKHF_INJECTED, extra_info) {
        KeyHookOutcome::Pass
    } else if !(message == messages::KEYDOWN || message == messages::SYSKEYDOWN
        || message == messages::KEYUP || message == messages::SYSKEYUP) {
        KeyHookOutcome::Pass
    } else if scan_code == 0 || scan_code > u16::MAX {
        KeyHookOutcome::MissingScanCode
    } else {
        match windows_key(scan_code as u16, flags & LLKHF_EXTENDED != 0) {
            Some(key) => KeyHookOutcome::Key {
                key,
                pressed: message == messages::KEYDOWN || message == messages::SYSKEYDOWN,
            },
            None => KeyHookOutcome::Unmapped,
        }
    }
}

/// Decides what a keyboard hook event means. `WM_SYSKEYDOWN` carries every
/// Alt combination, so both message families count.
pub fn interpret_key_hook(message: u32, scan_code: u32, flags: u32, extra_info: usize) -> (o:
    KeyHookOutcome)
    ensures
        o == key_hook_meaning(message, scan_code, flags, extra_info),
{
    if is_synthetic(flags, LLKHF_INJECTED, extra_info) {
        return KeyHookOutcome::Pass;
    }
    let pressed = message == messages::KEYDOWN || message == messages::SYSKEYDOWN;
    if !pressed && !(message == messages::KEYUP || message == messages::SYSKEYUP) {
        return KeyHookOutcome::Pass;
    }
    if scan_code == 0 || scan_code > 0xFFFF {
        return KeyHookOutcome::MissingScanCode;
    }
    match to_hid(scan_code as u16, flags & LLKHF_EXTENDED != 0) {
        Some(key) => KeyHookOutcome::Key { key, pressed },
        None => KeyHookOutcome::Unmapped,
    }
}

/// What a mouse hook event comes to.
#[derive(Debug, Clone, Copy, PartialEq, Eq, Structural)]
pub enum MouseHookOutcome {
    /// Synthesised, or a message of no interest: let it through.
    Pass,
    /// The first motion after starting: it only establishes the position
    /// later motion is measured from.
    Baseline,
    /// Motion by this many pixels since the previous position.
    Motion {
        /// Horizontal pixels.
        dx: i64,
        /// Vertical pixels.
        dy: i64,
    },
    /// A wheel message, converted with the user's lines-per-notch setting.
    Wheel,
    /// A button transition.
    Button {
        /// Which button.
        button: MouseButton,
        /// True for a press.
        pressed: bool,
    },
}

/// What a mouse hook event means, given the previous pointer position.
pub open spec fn mouse_hook_meaning(
    message: u32,
    mouse_data: u32,
    flags: u32,
    extra_info: usize,
    x: i32,
    y: i32,
    last: Option<(i32, i32)>,
) -> MouseHookOutcome {
    if synthetic(flags, LLMHF_INJECTED, extra_info) {
        MouseHookOutcome::Pass
    } else if message == messages::MOUSEMOVE {
        match last {
            None => MouseHookOutcome::Baseline,
            Some(p) => MouseHookOutcome::Motion { dx: (x - p.0) as i64, dy: (y - p.1) as i64 },
        }
    } else if message == messages::MOUSEWHEEL || message == messages::MOUSEHWHEEL {
        MouseHookOutcome::Wheel
    } else {
        match button_of_message(message, mouse_data) {
            Some(b) => MouseHookOutcome::Button { button: b.0, pressed: b.1 },
            None => MouseHookOutcome::Pass,
        }
    }
}

/// Decides what a mouse hook event means. Motion is measured against the
/// previous position, which the caller then replaces with `(x, y)`.
pub fn interpret_mouse_hook(
    message: u32,
    mouse_data: u32,
    flags: u32,
    extra_info: usize,
    x: i32,
    y: i32,
    last: Option<(i32, i32)>,
) -> (o: MouseHookOutcome)
    ensures
        o == mouse_hook_meaning(message, mouse_data, flags, extra_info, x, y, last),
{
    if is_synthetic(flags, LLMHF_INJECTED, extra_info) {
        return MouseHookOutcome::Pass;
    }
    if message == messages::MOUSEMOVE {
        return match last {
            None => MouseHookOutcome::Baseline,
            Some((lx, ly)) => MouseHookOutcome::Motion {
                dx: x as i64 - lx as i64,
                dy: y as i64 - ly as i64,
            },
        };
    }
    if message == messages::MOUSEWHEEL || message == messages::MOUSEHWHEEL {
        return MouseHookOutcome::Wheel;
    }
    match button_from_message(message, mouse_data) {
        Some((button, pressed)) => MouseHookOutcome::Button { button, pressed },
        None => MouseHookOutcome::Pass,
    }
}


/// Whether a mouse hook event is swallowed when it hands the sink no event,
/// while input is (`remote`) or is not going to another machine: `None` when
/// it does hand one over, and the sink decides.
///
/// A baseline or zero-distance move is swallowed exactly while input goes
/// elsewhere, or the local cursor would drift on sub-pixel motion; a passed
/// event is never swallowed.
pub fn quiet_event_suppressed(outcome: &MouseHookOutcome, remote: bool) -> (r: Option<bool>)
    ensures
        r == match *outcome {
            MouseHookOutcome::Pass => Some(false),
            MouseHookOutcome::Baseline => Some(remote),
            MouseHookOutcome::Motion { dx, dy } => if dx == 0 && dy == 0 {
                Some(remote)
            } else {
                None
            },
            _ => None,
        },
{
    match outcome {
        MouseHookOutcome::Pass => Some(false),
        MouseHookOutcome::Baseline => Some(remote),
        MouseHookOutcome::Motion { dx, dy } => if *dx == 0 && *dy == 0 {
            Some(remote)
        } else {
            None
        },
        _ => None,
    }
}

} // verus!
