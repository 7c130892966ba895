//! How injected input is described to CoreGraphics: which event type, and
//! which modifier flags, a synthetic event carries.

use vstd::prelude::*;
use crate::modifiers::{button_bit, Modifiers, MouseButton, MouseButtons};

verus! {

/// `kCGEventFlagMaskShift`.
pub const FLAG_SHIFT: u64 = 0x0002_0000;

/// `kCGEventFlagMaskControl`.
pub const FLAG_CONTROL: u64 = 0x0004_0000;

/// `kCGEventFlagMaskAlternate`.
pub const FLAG_ALTERNATE: u64 = 0x0008_0000;

/// `kCGEventFlagMaskCommand`.
pub const FLAG_COMMAND: u64 = 0x0010_0000;

/// The device-independent flags for a modifier set: each flag is set when
/// either side of its modifier is held.
pub open spec fn flags_of(m: u8) -> u64 {
    (if m & 0x11 != 0 { FLAG_CONTROL } else { 0u64 }) | (if m & 0x22 != 0 {
        FLAG_SHIFT
    } else {
        0u64
    }) | (if m & 0x44 != 0 { FLAG_ALTERNATE } else { 0u64 }) | (if m & 0x88 != 0 {
        FLAG_COMMAND
    } else {
        0u64
    })
}

/// The flags a synthetic event carries while `held` is down, so pressing
/// Command and then C produces a real chord.
pub fn event_flags(held: Modifiers) -> (flags: u64)
    ensures
        flags == flags_of(held@),
{
    let control: u64 = if held.ctrl() { FLAG_CONTROL } else { 0 };
    let shift: u64 = if held.shift() { FLAG_SHIFT } else { 0 };
    let alternate: u64 = if held.alt() { FLAG_ALTERNATE } else { 0 };
    let command: u64 = if held.meta() { FLAG_COMMAND } else { 0 };
    control | shift | alternate | command
}

/// The CoreGraphics event type and button a synthetic event uses.
#[derive(Debug, Clone, Copy, PartialEq, Eq, Structural)]
pub enum PostedEvent {
    /// `kCGEventMouseMoved`.
    MouseMoved,
    /// `kCGEventLeftMouseDragged`.
    LeftMouseDragged,
    /// `kCGEventRightMouseDragged`.
    RightMouseDragged,
    /// `kCGEventOtherMouseDragged`, with the centre button.
    OtherMouseDragged,
    /// `kCGEventLeftMouseDown`.
    LeftMouseDown,
    /// `kCGEventLeftMouseUp`.
    LeftMouseUp,
    /// `kCGEventRightMouseDown`.
    RightMouseDown,
    /// `kCGEventRightMouseUp`.
    RightMouseUp,
    /// `kCGEventOtherMouseDown`; the button number field says which button.
    OtherMouseDown,
    /// `kCGEventOtherMouseUp`; the button number field says which button.
    OtherMouseUp,
}

/// The event type pointer motion is posted as: a drag of the held button,
/// left taking precedence over right over the rest, or a plain move.
pub open spec fn motion_event_of(buttons: u8) -> PostedEvent {
    if buttons & button_bit(MouseButton::Left) != 0 {
        PostedEvent::LeftMouseDragged
    } else if buttons & button_bit(MouseButton::Right) != 0 {
        PostedEvent::RightMouseDragged
    } else if buttons != 0 {
        PostedEvent::OtherMouseDragged
    } else {
        PostedEvent::MouseMoved
    }
}

/// The event type pointer motion is posted as while `held` is down;
/// applications that track drags see nothing otherwise.
pub fn motion_event(held: MouseButtons) -> (e: PostedEvent)
    ensures
        e == motion_event_of(held@),
{
    if held.contains(MouseButton::Left) {
        PostedEvent::LeftMouseDragged
    } else if held.contains(MouseButton::Right) {
        PostedEvent::RightMouseDragged
    } else if !held.is_empty() {
        PostedEvent::OtherMouseDragged
    } else {
        PostedEvent::MouseMoved
    }
}

/// The event type a button transition is posted as. CoreGraphics has no
/// Back or Forward button: those are `Other` events told apart by number.
pub fn button_event(button: MouseButton, pressed: bool) -> (e: PostedEvent)
    ensures
        e == match (button, pressed) {
            (MouseButton::Left, true) => PostedEvent::LeftMouseDown,
            (MouseButton::Left, false) => PostedEvent::LeftMouseUp,
            (MouseButton::Right, true) => PostedEvent::RightMouseDown,
            (MouseButton::Right, false) => PostedEvent::RightMouseUp,
            (_, true) => PostedEvent::OtherMouseDown,
            (_, false) => PostedEvent::OtherMouseUp,
        },
{
    match (button, pressed) {
        (MouseButton::Left, true) => PostedEvent::LeftMouseDown,
        (MouseButton::Left, false) => PostedEvent::LeftMouseUp,
        (MouseButton::Right, true) => PostedEvent::RightMouseDown,
        (MouseButton::Right, false) => PostedEvent::RightMouseUp,
        (_, true) => PostedEvent::OtherMouseDown,
        (_, false) => PostedEvent::OtherMouseUp,
    }
}

} // verus!
