//! What one event seen by the CoreGraphics event tap means.
//!
//! The tap callback reads the event's fields and offers the resulting input
//! events to the sink; deciding which events those are is done here, on the
//! plain values it read.

use vstd::prelude::*;
use crate::event::{event_noop, f32_bits_zero, InputEvent, ScrollDelta};
use crate::keycode::KeyCode;
use crate::macos::convert::{
    button_from_number,
    button_of_number,
    modifier_bits_of_flags,
    modifier_transitions,
    modifiers_from_flags,
    transition_events,
    transitions,
};
use crate::macos::keymap::{mac_key, to_hid};
use crate::modifiers::Modifiers;

verus! {

/// Marker written into the user-data field of every event this application
/// posts, so the tap never captures its own synthetic input and echoes it
/// back to the sender.
pub const INJECTION_MARKER: i64 = 0x004D_4252_4944_4745;

/// Diagnostics from a running capture.
#[derive(Debug, Clone, Copy, PartialEq, Eq, Structural)]
pub struct CaptureDiagnostics {
    /// Times the operating system disabled the tap and it was re-armed.
    pub rearms: u64,
    /// Key events dropped because they have no HID equivalent.
    pub unmapped_keys: u64,
}

/// The fields of one tapped event that matter, by kind.
#[derive(Debug, Clone, Copy, PartialEq, Eq, Structural)]
pub enum TapEvent {
    /// Pointer motion or a drag; the bits of the two `f64` deltas.
    Motion {
        /// Horizontal delta bits.
        dx_bits: u64,
        /// Vertical delta bits.
        dy_bits: u64,
    },
    /// A mouse button went down or up.
    Button {
        /// The CoreGraphics button number.
        number: i64,
        /// True for a press.
        pressed: bool,
    },
    /// A scroll, already converted to lines.
    Scroll {
        /// Movement in lines.
        delta: ScrollDelta,
    },
    /// A key went down or up.
    Key {
        /// The macOS virtual key code.
        virtual_key: i64,
        /// True for a press.
        pressed: bool,
        /// True for an auto-repeat.
        repeat: bool,
    },
    /// The modifier flags changed.
    FlagsChanged {
        /// The new `CGEventFlags`.
        flags: u64,
    },
    /// Any other event type.
    Other,
}

/// What a tapped event comes to.
#[derive(Debug, Clone, PartialEq, Eq)]
pub struct TapOutcome {
    /// The input events to offer the sink, in order.
    pub events: Vec<InputEvent>,
    /// The modifier state to remember for the next `flagsChanged`.
    pub modifiers: Modifiers,
    /// True when a key had no HID equivalent and was dropped rather than
    /// forwarded under an invented encoding.
    pub unmapped_key: bool,
}

/// The key a virtual key code names, if it has a HID equivalent.
pub open spec fn key_of_virtual(virtual_key: i64) -> Option<KeyCode> {
    if 0 <= virtual_key <= u16::MAX {
        mac_key(virtual_key as u16)
    } else {
        None
    }
}

/// The events a tapped event stands for, the modifier state to remember,
/// and whether a key went unmapped.
pub open spec fn tap_meaning(user_data: i64, event: TapEvent, previous: u8) -> (
    Seq<InputEvent>,
    u8,
    bool,
) {
    if user_data == INJECTION_MARKER {
        (Seq::empty(), previous, false)
    } else {
        match event {
            TapEvent::Motion { dx_bits, dy_bits } => {
                let moved = InputEvent::MouseMove { dx_bits, dy_bits };
                (if event_noop(moved) {
                    Seq::empty()
                } else {
                    seq![moved]
                }, previous, false)
            },
            TapEvent::Button { number, pressed } => (match button_of_number(number) {
                Some(button) => seq![InputEvent::MouseButton { button, pressed }],
                None => Seq::empty(),
            }, previous, false),
            TapEvent::Scroll { delta } => (if f32_bits_zero(delta.x_bits) && f32_bits_zero(
                delta.y_bits,
            ) {
                Seq::empty()
            } else {
                seq![InputEvent::MouseWheel { delta }]
            }, previous, false),
            TapEvent::Key { virtual_key, pressed, repeat } => match key_of_virtual(virtual_key) {
                Some(key) => (seq![InputEvent::Key { key, pressed, repeat }], previous, false),
                None => (Seq::empty(), previous, true),
            },
            TapEvent::FlagsChanged { flags } => {
                let current = modifier_bits_of_flags(flags);
                (transition_events(transitions(previous, current)), current, false)
            },
            TapEvent::Other => (Seq::empty(), previous, false),
        }
    }
}

/// Decides what one tapped event means.
///
/// Events carrying [`INJECTION_MARKER`] are this application's own and mean
/// nothing. macOS reports no key-up for modifiers, only the new flag state,
/// so a `flagsChanged` is diffed against the remembered state.
pub fn interpret_tap_event(user_data: i64, event: &TapEvent, previous: Modifiers) -> (t:
    TapOutcome)
    ensures
        t.events@ == tap_meaning(user_data, *event, previous@).0,
        t.modifiers@ == tap_meaning(user_data, *event, previous@).1,
        t.unmapped_key == tap_meaning(user_data, *event, previous@).2,
{
    let mut events: Vec<InputEvent> = Vec::new();
    if user_data == INJECTION_MARKER {
        assert(events@ =~= Seq::<InputEvent>::empty());
        return TapOutcome { events, modifiers: previous, unmapped_key: false };
    }
    match event {
        TapEvent::Motion { dx_bits, dy_bits } => {
            let moved = InputEvent::MouseMove { dx_bits: *dx_bits, dy_bits: *dy_bits };
            if !moved.is_noop() {
                events.push(moved);
            }
            assert(events@ =~= tap_meaning(user_data, *event, previous@).0);
            TapOutcome { events, modifiers: previous, unmapped_key: false }
        },
        TapEvent::Button { number, pressed } => {
            if let Some(button) = button_from_number(*number) {
                events.push(InputEvent::MouseButton { button, pressed: *pressed });
            }
            assert(events@ =~= tap_meaning(user_data, *event, previous@).0);
            TapOutcome { events, modifiers: previous, unmapped_key: false }
        },
        TapEvent::Scroll { delta } => {
            if !delta.is_zero() {
                events.push(InputEvent::MouseWheel { delta: *delta });
            }
            assert(events@ =~= tap_meaning(user_data, *event, previous@).0);
            TapOutcome { events, modifiers: previous, unmapped_key: false }
        },
        TapEvent::Key { virtual_key, pressed, repeat } => {
            let key = if 0 <= *virtual_key && *virtual_key <= 0xFFFF {
                to_hid(*virtual_key as u16)
            } else {
                None
            };
            match key {
                Some(key) => {
                    events.push(InputEvent::Key { key, pressed: *pressed, repeat: *repeat });
                    assert(events@ =~= tap_meaning(user_data, *event, previous@).0);
                    TapOutcome { events, modifiers: previous, unmapped_key: false }
                },
                None => {
                    assert(events@ =~= tap_meaning(user_data, *event, previous@).0);
                    TapOutcome { events, modifiers: previous, unmapped_key: true }
                },
            }
        },
        TapEvent::FlagsChanged { flags } => {
            let current = modifiers_from_flags(*flags);
            let changes = modifier_transitions(previous, current).as_slice();
            let mut i: usize = 0;
            while i < changes.len()
                invariant
                    i <= changes@.len(),
                    events@ == transition_events(changes@.take(i as int)),
                decreases changes@.len() - i,
            {
                let (key, pressed) = changes[i];
                events.push(InputEvent::Key { key, pressed, repeat: false });
                assert(transition_events(changes@.take(i as int + 1)) =~= transition_events(
                    changes@.take(i as int),
                ).push(InputEvent::Key { key, pressed, repeat: false }));
                i = i + 1;
            }
            assert(changes@.take(changes@.len() as int) =~= changes@);
            TapOutcome { events, modifiers: current, unmapped_key: false }
        },
        TapEvent::Other => {
            assert(events@ =~= tap_meaning(user_data, *event, previous@).0);
            TapOutcome { events, modifiers: previous, unmapped_key: false }
        },
    }
}

} // verus!
