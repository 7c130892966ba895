//! The platform-independent input event model.
//!
//! Pointer coordinates and scroll amounts are carried as the IEEE-754 bit
//! patterns of the values the platform reported. Nothing in this library
//! computes with them; carrying the exact bits keeps every event lossless
//! between capture, transport and injection.

use vstd::prelude::*;

use crate::keycode::KeyCode;
use crate::modifiers::{button_name, MouseButton, MouseButtons, Modifiers};
use crate::error::{decimal_of, push_decimal};

verus! {

/// Input state carried across a screen boundary: the keys and buttons the
/// user is physically holding when control moves to another machine.
#[derive(Debug, Clone, PartialEq, Eq)]
pub struct HeldInput {
    /// Non-modifier keys physically held, in press order.
    pub keys: Vec<KeyCode>,
    /// Modifier keys physically held.
    pub modifiers: Modifiers,
    /// Mouse buttons physically held.
    pub buttons: MouseButtons,
}

impl HeldInput {
    /// Nothing held.
    pub fn empty() -> (h: HeldInput)
        ensures
            h.keys@.len() == 0,
            h.modifiers@ == 0,
            h.buttons@ == 0,
    {
        HeldInput { keys: Vec::new(), modifiers: Modifiers::none(), buttons: MouseButtons::none() }
    }

    /// True when nothing is held.
    pub fn is_empty(&self) -> (r: bool)
        ensures
            r == (self.keys@.len() == 0 && self.modifiers@ == 0 && self.buttons@ == 0),
    {
        self.keys.len() == 0 && self.modifiers.is_empty() && self.buttons.is_empty()
    }
}

impl Default for HeldInput {
    fn default() -> (h: HeldInput)
        ensures
            h.keys@.len() == 0,
            h.modifiers@ == 0,
            h.buttons@ == 0,
    {
        HeldInput::empty()
    }
}

/// Scroll wheel movement, in lines, as the bit patterns of two `f32` values.
#[derive(Debug, Clone, Copy, PartialEq, Eq, Structural)]
pub struct ScrollDelta {
    /// Horizontal lines: the bits of an `f32`.
    pub x_bits: u32,
    /// Vertical lines: the bits of an `f32`.
    pub y_bits: u32,
    /// True when the source reported a continuous, pixel-precise delta.
    pub precise: bool,
}

/// A single input event.
#[derive(Debug, Clone, PartialEq, Eq)]
pub enum InputEvent {
    /// Relative pointer motion; the bits of two `f64` deltas.
    MouseMove {
        /// Horizontal delta bits.
        dx_bits: u64,
        /// Vertical delta bits.
        dy_bits: u64,
    },
    /// Absolute pointer placement in the target's cursor space; the bits of
    /// two `f64` coordinates.
    MouseMoveTo {
        /// Horizontal position bits.
        x_bits: u64,
        /// Vertical position bits.
        y_bits: u64,
    },
    /// A mouse button changed state.
    MouseButton {
        /// Which button.
        button: MouseButton,
        /// True for press, false for release.
        pressed: bool,
    },
    /// The scroll wheel or trackpad scrolled.
    MouseWheel {
        /// Movement in lines.
        delta: ScrollDelta,
    },
    /// A key changed state.
    Key {
        /// The physical key.
        key: KeyCode,
        /// True for press, false for release.
        pressed: bool,
        /// True when the OS auto-repeat generated this press.
        repeat: bool,
    },
    /// Control arrived at this device.
    Enter {
        /// Which of the receiving device's screens the pointer entered.
        screen: u32,
        /// Where along that screen horizontally, normalised; the bits of an `f64`.
        x_bits: u64,
        /// Where along that screen vertically, normalised; the bits of an `f64`.
        y_bits: u64,
        /// Keys and buttons the user is physically holding.
        held: HeldInput,
    },
    /// Control left this device.
    Leave,
    /// Release everything currently held.
    ReleaseAll,
}

/// True if the `f64` with these bits is finite: its exponent is not all ones.
pub open spec fn f64_bits_finite(bits: u64) -> bool {
    bits & 0x7FF0_0000_0000_0000 != 0x7FF0_0000_0000_0000
}

/// True if the `f32` with these bits is finite: its exponent is not all ones.
pub open spec fn f32_bits_finite(bits: u32) -> bool {
    bits & 0x7F80_0000 != 0x7F80_0000
}

/// True if the `f64` with these bits is zero, of either sign.
pub open spec fn f64_bits_zero(bits: u64) -> bool {
    bits & 0x7FFF_FFFF_FFFF_FFFF == 0
}

/// True if the `f32` with these bits is zero, of either sign.
pub open spec fn f32_bits_zero(bits: u32) -> bool {
    bits & 0x7FFF_FFFF == 0
}

/// True if every number the event carries is finite. Events from the network
/// are untrusted, and a NaN coordinate reaching an OS injection call is
/// undefined behaviour in someone else's process.
pub open spec fn event_finite(event: InputEvent) -> bool {
    match event {
        InputEvent::MouseMove { dx_bits, dy_bits } => f64_bits_finite(dx_bits) && f64_bits_finite(
            dy_bits,
        ),
        InputEvent::MouseMoveTo { x_bits, y_bits } => f64_bits_finite(x_bits) && f64_bits_finite(
            y_bits,
        ),
        InputEvent::MouseWheel { delta } => f32_bits_finite(delta.x_bits) && f32_bits_finite(
            delta.y_bits,
        ),
        InputEvent::Enter { x_bits, y_bits, .. } => f64_bits_finite(x_bits) && f64_bits_finite(
            y_bits,
        ),
        _ => true,
    }
}

/// True if the event carries no information: motion or scrolling by zero.
/// An absolute move to the origin is meaningful and is not a no-op.
pub open spec fn event_noop(event: InputEvent) -> bool {
    match event {
        InputEvent::MouseMove { dx_bits, dy_bits } => f64_bits_zero(dx_bits) && f64_bits_zero(
            dy_bits,
        ),
        InputEvent::MouseWheel { delta } => f32_bits_zero(delta.x_bits) && f32_bits_zero(
            delta.y_bits,
        ),
        _ => false,
    }
}

impl ScrollDelta {
    /// True when the delta would move nothing. Zero-delta scroll events are
    /// emitted by both platforms and are not worth forwarding.
    pub fn is_zero(self) -> (r: bool)
        ensures
            r == (f32_bits_zero(self.x_bits) && f32_bits_zero(self.y_bits)),
    {
        self.x_bits & 0x7FFF_FFFF == 0 && self.y_bits & 0x7FFF_FFFF == 0
    }

    /// True if both axes are finite.
    pub fn is_finite(self) -> (r: bool)
        ensures
            r == (f32_bits_finite(self.x_bits) && f32_bits_finite(self.y_bits)),
    {
        self.x_bits & 0x7F80_0000 != 0x7F80_0000 && self.y_bits & 0x7F80_0000 != 0x7F80_0000
    }
}

fn finite64(bits: u64) -> (r: bool)
    ensures
        r == f64_bits_finite(bits),
{
    bits & 0x7FF0_0000_0000_0000 != 0x7FF0_0000_0000_0000
}

fn zero64(bits: u64) -> (r: bool)
    ensures
        r == f64_bits_zero(bits),
{
    bits & 0x7FFF_FFFF_FFFF_FFFF == 0
}

/// True for the high-frequency motion events that may be dropped under queue
/// pressure: the next position supersedes them, whereas losing a key or button
/// transition would strand the receiver holding something.
pub open spec fn droppable(event: InputEvent) -> bool {
    event is MouseMove || event is MouseMoveTo
}

impl InputEvent {
    /// True for events that may be coalesced or dropped under queue pressure.
    pub fn is_droppable(&self) -> (r: bool)
        ensures
            r == droppable(*self),
    {
        match self {
            InputEvent::MouseMove { .. } | InputEvent::MouseMoveTo { .. } => true,
            _ => false,
        }
    }

    /// True if this event carries no information and can be discarded.
    pub fn is_noop(&self) -> (r: bool)
        ensures
            r == event_noop(*self),
    {
        match self {
            InputEvent::MouseMove { dx_bits, dy_bits } => zero64(*dx_bits) && zero64(*dy_bits),
            InputEvent::MouseWheel { delta } => delta.is_zero(),
            _ => false,
        }
    }

    /// True if every numeric field is finite.
    pub fn is_finite(&self) -> (r: bool)
        ensures
            r == event_finite(*self),
    {
        match self {
            InputEvent::MouseMove { dx_bits, dy_bits } => finite64(*dx_bits) && finite64(*dy_bits),
            InputEvent::MouseMoveTo { x_bits, y_bits } => finite64(*x_bits) && finite64(*y_bits),
            InputEvent::MouseWheel { delta } => delta.is_finite(),
            InputEvent::Enter { x_bits, y_bits, .. } => finite64(*x_bits) && finite64(*y_bits),
            _ => true,
        }
    }
}


/// `Down` for a press, `Up` for a release.
pub open spec fn direction_text(pressed: bool) -> Seq<char> {
    if pressed {
        "Down"@
    } else {
        "Up"@
    }
}

/// The diagnostic text of an event that carries no floating-point number;
/// `None` for motion and wheel events, whose numbers are formatted by the
/// caller. A key event names its direction and whether it repeats, never the
/// key.
pub open spec fn event_text(e: InputEvent) -> Option<Seq<char>> {
    match e {
        InputEvent::MouseButton { button, pressed } => Some(
            "Mouse"@ + direction_text(pressed) + "("@ + button_name(button)@ + ")"@,
        ),
        InputEvent::Key { pressed, repeat, .. } => Some(
            "Key"@ + direction_text(pressed) + if repeat {
                "(repeat)"@
            } else {
                Seq::<char>::empty()
            },
        ),
        InputEvent::Enter { screen, .. } => Some("Enter("@ + decimal_of(screen as nat) + ")"@),
        InputEvent::Leave => Some("Leave"@),
        InputEvent::ReleaseAll => Some("ReleaseAll"@),
        _ => None,
    }
}

/// Appends the direction of a transition.
fn push_direction(out: &mut String, pressed: bool)
    ensures
        final(out)@ == old(out)@ + direction_text(pressed),
{
    proof {
        reveal_strlit("Down");
        reveal_strlit("Up");
    }
    if pressed {
        out.append("Down");
    } else {
        out.append("Up");
    }
}

impl InputEvent {
    /// Renders an event that carries no floating-point number for
    /// diagnostics; `None` for motion and wheel events.
    pub fn describe(&self) -> (s: Option<String>)
        ensures
            match s {
                Some(t) => event_text(*self) == Some(t@),
                None => event_text(*self) is None,
            },
    {
        proof {
            reveal_strlit("Mouse");
            reveal_strlit("(");
            reveal_strlit(")");
            reveal_strlit("Key");
            reveal_strlit("(repeat)");
            reveal_strlit("Enter(");
            reveal_strlit("Leave");
            reveal_strlit("ReleaseAll");
        }
        match self {
            InputEvent::MouseButton { button, pressed } => {
                let mut out = String::from_str("Mouse");
                push_direction(&mut out, *pressed);
                out.append("(");
                out.append(button.name());
                out.append(")");
                Some(out)
            },
            InputEvent::Key { pressed, repeat, .. } => {
                let mut out = String::from_str("Key");
                push_direction(&mut out, *pressed);
                if *repeat {
                    out.append("(repeat)");
                }
                proof {
                    if !*repeat {
                        assert(out@ =~= out@ + Seq::<char>::empty());
                    }
                }
                Some(out)
            },
            InputEvent::Enter { screen, .. } => {
                let mut out = String::from_str("Enter(");
                push_decimal(&mut out, *screen as u64);
                out.append(")");
                Some(out)
            },
            InputEvent::Leave => Some(String::from_str("Leave")),
            InputEvent::ReleaseAll => Some(String::from_str("ReleaseAll")),
            _ => None,
        }
    }
}

/// Rendering a key event never reveals which key it was: two key events
/// that differ only in their key read the same.
pub proof fn law_key_text_hides_the_key(a: KeyCode, b: KeyCode, pressed: bool, repeat: bool)
    ensures
        event_text(InputEvent::Key { key: a, pressed, repeat }) == event_text(
            InputEvent::Key { key: b, pressed, repeat },
        ),
{
}

} // verus!
