//! Modifier and mouse-button bit sets.
//!
//! [`Modifiers`] is laid out exactly as the HID keyboard report's modifier
//! byte: Left Control, Left Shift, Left Alt, Left Meta, then the same four on
//! the right. That is why a modifier key's bit follows from its usage ID.

use vstd::prelude::*;

use crate::keycode::{is_modifier_key, key_name, modifier_bit_of, KeyCode};

verus! {

/// True if bit `i` of `bits` is set.
pub open spec fn has_bit(bits: u8, i: nat) -> bool {
    bits & ((1u8 << (i as u8)) as u8) != 0
}

/// The modifier key whose bit is bit `i` of the modifier byte.
pub open spec fn modifier_key(i: nat) -> KeyCode {
    KeyCode { page: 0x07, usage: (0xE0 + i) as u16 }
}

/// The modifier keys whose bits are set in `bits`, from bit `i` upwards, in
/// bit order.
pub open spec fn held_modifiers_from(bits: u8, i: nat) -> Seq<KeyCode>
    decreases 8 - i,
{
    if i >= 8 {
        Seq::empty()
    } else {
        (if has_bit(bits, i) { seq![modifier_key(i)] } else { Seq::empty() })
            + held_modifiers_from(bits, i + 1)
    }
}

/// The modifier keys held in `bits`, in HID bit order.
pub open spec fn held_modifiers(bits: u8) -> Seq<KeyCode> {
    held_modifiers_from(bits, 0)
}

/// The modifier byte after pressing `key`; unchanged for a non-modifier.
pub open spec fn bits_with_key(bits: u8, key: KeyCode) -> u8 {
    if is_modifier_key(key) {
        bits | modifier_bit_of(key)
    } else {
        bits
    }
}

/// The modifier byte after releasing `key`; unchanged for a non-modifier.
pub open spec fn bits_without_key(bits: u8, key: KeyCode) -> u8 {
    if is_modifier_key(key) {
        bits & !modifier_bit_of(key)
    } else {
        bits
    }
}

/// The eight HID keyboard modifiers as a bit set.
#[derive(Debug, Clone, Copy, PartialEq, Eq, Structural, Hash)]
pub struct Modifiers(u8);

impl View for Modifiers {
    type V = u8;

    closed spec fn view(&self) -> u8 {
        self.0
    }
}

/// Two modifier sets with the same bits are the same set.
pub proof fn lemma_modifiers_view_injective(a: Modifiers, b: Modifiers)
    requires
        a@ == b@,
    ensures
        a == b,
{
}

impl Modifiers {
    /// No modifiers held.
    pub fn none() -> (m: Modifiers)
        ensures
            m@ == 0,
    {
        Modifiers(0)
    }

    /// Left Control.
    pub fn left_ctrl() -> (m: Modifiers)
        ensures
            m@ == 0x01,
    {
        Modifiers(0x01)
    }

    /// Left Shift.
    pub fn left_shift() -> (m: Modifiers)
        ensures
            m@ == 0x02,
    {
        Modifiers(0x02)
    }

    /// Left Alt / Option.
    pub fn left_alt() -> (m: Modifiers)
        ensures
            m@ == 0x04,
    {
        Modifiers(0x04)
    }

    /// Left Meta: Command on macOS, Windows key on Windows.
    pub fn left_meta() -> (m: Modifiers)
        ensures
            m@ == 0x08,
    {
        Modifiers(0x08)
    }

    /// Right Control.
    pub fn right_ctrl() -> (m: Modifiers)
        ensures
            m@ == 0x10,
    {
        Modifiers(0x10)
    }

    /// Right Shift.
    pub fn right_shift() -> (m: Modifiers)
        ensures
            m@ == 0x20,
    {
        Modifiers(0x20)
    }

    /// Right Alt / AltGr.
    pub fn right_alt() -> (m: Modifiers)
        ensures
            m@ == 0x40,
    {
        Modifiers(0x40)
    }

    /// Right Meta.
    pub fn right_meta() -> (m: Modifiers)
        ensures
            m@ == 0x80,
    {
        Modifiers(0x80)
    }

    /// Builds from a raw HID modifier byte.
    pub fn from_bits(bits: u8) -> (m: Modifiers)
        ensures
            m@ == bits,
    {
        Modifiers(bits)
    }

    /// Returns the raw HID modifier byte.
    pub fn bits(self) -> (b: u8)
        ensures
            b == self@,
    {
        self.0
    }

    /// Returns true if no modifier is held.
    pub fn is_empty(self) -> (r: bool)
        ensures
            r == (self@ == 0),
    {
        self.0 == 0
    }

    /// Returns true if every modifier in `other` is held.
    pub fn contains(self, other: Modifiers) -> (r: bool)
        ensures
            r == (self@ & other@ == other@),
    {
        self.0 & other.0 == other.0
    }

    /// Returns the union of two sets.
    pub fn union(self, other: Modifiers) -> (m: Modifiers)
        ensures
            m@ == self@ | other@,
    {
        Modifiers(self.0 | other.0)
    }

    /// Returns this set with `other` removed.
    pub fn without(self, other: Modifiers) -> (m: Modifiers)
        ensures
            m@ == self@ & !other@,
    {
        Modifiers(self.0 & !other.0)
    }

    /// Adds the bit for a modifier key. Non-modifier keys are ignored.
    pub fn with_key(self, key: KeyCode) -> (m: Modifiers)
        ensures
            m@ == bits_with_key(self@, key),
    {
        match key.modifier_bit() {
            Some(bit) => Modifiers(self.0 | bit),
            None => self,
        }
    }

    /// Removes the bit for a modifier key. Non-modifier keys are ignored.
    pub fn without_key(self, key: KeyCode) -> (m: Modifiers)
        ensures
            m@ == bits_without_key(self@, key),
    {
        match key.modifier_bit() {
            Some(bit) => Modifiers(self.0 & !bit),
            None => self,
        }
    }

    /// True if either Control is held.
    pub fn ctrl(self) -> (r: bool)
        ensures
            r == (self@ & 0x11 != 0),
    {
        self.0 & 0x11 != 0
    }

    /// True if either Shift is held.
    pub fn shift(self) -> (r: bool)
        ensures
            r == (self@ & 0x22 != 0),
    {
        self.0 & 0x22 != 0
    }

    /// True if either Alt is held.
    pub fn alt(self) -> (r: bool)
        ensures
            r == (self@ & 0x44 != 0),
    {
        self.0 & 0x44 != 0
    }

    /// True if either Meta — Command or Windows key — is held.
    pub fn meta(self) -> (r: bool)
        ensures
            r == (self@ & 0x88 != 0),
    {
        self.0 & 0x88 != 0
    }

    /// The modifier keys currently held, in HID bit order.
    pub fn held_keys(self) -> (keys: Vec<KeyCode>)
        ensures
            keys@ == held_modifiers(self@),
    {
        let all = crate::keycode::keys::modifiers();
        let mut out: Vec<KeyCode> = Vec::new();
        let mut i: usize = 8;
        let ghost bits = self.0;
        // Built from the highest bit down, prepending, so that the result
        // follows the recursive definition from its tail.
        let mut tail: Vec<KeyCode> = Vec::new();
        while i > 0
            invariant
                i <= 8,
                bits == self@,
                forall|j: int| 0 <= j < 8 ==> #[trigger] all[j] == modifier_key(j as nat),
                tail@ == held_modifiers_from(bits, i as nat),
            decreases i,
        {
            i = i - 1;
            let bit: u8 = 1u8 << (i as u8);
            if self.0 & bit != 0 {
                let mut next: Vec<KeyCode> = Vec::new();
                next.push(all[i]);
                next.append(&mut tail);
                tail = next;
            }
            assert(tail@ =~= held_modifiers_from(bits, i as nat));
        }
        out.append(&mut tail);
        assert(out@ =~= held_modifiers(bits));
        out
    }

    /// Renders the set for diagnostics: `none`, or the held modifiers' names
    /// joined by `+`, in HID bit order.
    pub fn to_string(&self) -> (s: String)
        ensures
            s@ == modifiers_display(self@),
    {
        proof {
            reveal_strlit("none");
            reveal_strlit("+");
        }
        if self.is_empty() {
            return String::from_str("none");
        }
        let keys = self.held_keys();
        let mut out = String::new();
        let mut i: usize = 0;
        while i < keys.len()
            invariant
                i <= keys@.len(),
                keys@ == held_modifiers(self@),
                out@ == join_names(keys@.take(i as int)),
            decreases keys@.len() - i,
        {
            if i > 0 {
                out.append("+");
            }
            out.append(keys[i].name());
            assert(keys@.take(i + 1).drop_last() =~= keys@.take(i as int));
            i = i + 1;
        }
        assert(keys@.take(keys@.len() as int) =~= keys@);
        out
    }
}

/// Names of `keys` joined by `+`.
pub open spec fn join_names(keys: Seq<KeyCode>) -> Seq<char>
    decreases keys.len(),
{
    if keys.len() == 0 {
        Seq::empty()
    } else if keys.len() == 1 {
        key_name(keys[0])@
    } else {
        join_names(keys.drop_last()) + "+"@ + key_name(keys.last())@
    }
}

/// The rendering of [`Modifiers::to_string`].
pub open spec fn modifiers_display(bits: u8) -> Seq<char> {
    if bits == 0 {
        "none"@
    } else {
        join_names(held_modifiers(bits))
    }
}

/// Mouse buttons: the five every operating system reports natively.
#[derive(Debug, Clone, Copy, PartialEq, Eq, Structural, PartialOrd, Ord, Hash)]
pub enum MouseButton {
    /// Primary button.
    Left,
    /// Secondary button.
    Right,
    /// Wheel click.
    Middle,
    /// Thumb button 1, conventionally "back".
    Back,
    /// Thumb button 2, conventionally "forward".
    Forward,
}

/// The bit of a button within a [`MouseButtons`] set.
pub open spec fn button_bit(b: MouseButton) -> u8 {
    match b {
        MouseButton::Left => 0x01,
        MouseButton::Right => 0x02,
        MouseButton::Middle => 0x04,
        MouseButton::Back => 0x08,
        MouseButton::Forward => 0x10,
    }
}

/// The button in position `i` of [`MouseButton::all`].
pub open spec fn button_at(i: nat) -> MouseButton {
    if i == 0 {
        MouseButton::Left
    } else if i == 1 {
        MouseButton::Right
    } else if i == 2 {
        MouseButton::Middle
    } else if i == 3 {
        MouseButton::Back
    } else {
        MouseButton::Forward
    }
}

/// The bits that name a real button.
pub open spec fn valid_button_bits(bits: u8) -> bool {
    bits & 0xE0 == 0
}

/// The buttons whose bits are set in `bits`, from position `i` on, in the
/// stable order of [`MouseButton::all`].
pub open spec fn held_buttons_from(bits: u8, i: nat) -> Seq<MouseButton>
    decreases 5 - i,
{
    if i >= 5 {
        Seq::empty()
    } else {
        (if bits & button_bit(button_at(i)) != 0 { seq![button_at(i)] } else { Seq::empty() })
            + held_buttons_from(bits, i + 1)
    }
}

/// A button's diagnostic name.
pub open spec fn button_name(button: MouseButton) -> &'static str {
    match button {
        MouseButton::Left => "Left",
        MouseButton::Right => "Right",
        MouseButton::Middle => "Middle",
        MouseButton::Back => "Back",
        MouseButton::Forward => "Forward",
    }
}

/// The buttons held in `bits`, in stable order.
pub open spec fn held_buttons(bits: u8) -> Seq<MouseButton> {
    held_buttons_from(bits, 0)
}

impl MouseButton {
    /// Every button, in a stable order.
    pub fn all() -> (all: [MouseButton; 5])
        ensures
            forall|i: int| 0 <= i < 5 ==> #[trigger] all[i] == button_at(i as nat),
    {
        [MouseButton::Left, MouseButton::Right, MouseButton::Middle, MouseButton::Back, MouseButton::Forward]
    }

    /// This button's bit within a [`MouseButtons`] set.
    pub fn bit(self) -> (b: u8)
        ensures
            b == button_bit(self),
    {
        match self {
            MouseButton::Left => 0x01,
            MouseButton::Right => 0x02,
            MouseButton::Middle => 0x04,
            MouseButton::Back => 0x08,
            MouseButton::Forward => 0x10,
        }
    }

    /// The button's name, for diagnostics.
    pub fn name(self) -> (r: &'static str)
        ensures
            r == button_name(self),
    {
        match self {
            MouseButton::Left => "Left",
            MouseButton::Right => "Right",
            MouseButton::Middle => "Middle",
            MouseButton::Back => "Back",
            MouseButton::Forward => "Forward",
        }
    }
}

/// A set of held mouse buttons.
///
/// Only five of the eight bits name a button, and the other three can never be
/// stored: a bit that [`MouseButtons::held`] cannot report is a button no
/// release sequence could ever clear.
#[derive(Debug, Clone, Copy, PartialEq, Eq, Structural, Hash)]
pub struct MouseButtons(u8);

impl View for MouseButtons {
    type V = u8;

    closed spec fn view(&self) -> u8 {
        self.0
    }
}

/// Two button sets with the same bits are the same set.
pub proof fn lemma_buttons_view_injective(a: MouseButtons, b: MouseButtons)
    requires
        a@ == b@,
    ensures
        a == b,
{
}

impl MouseButtons {
    #[verifier::type_invariant]
    spec fn only_real_buttons(self) -> bool {
        valid_button_bits(self.0)
    }

    /// No buttons held.
    pub fn none() -> (m: MouseButtons)
        ensures
            m@ == 0,
            valid_button_bits(m@),
    {
        assert(valid_button_bits(0u8)) by (bit_vector);
        MouseButtons(0)
    }

    /// Builds from a raw bit set, discarding bits that name no button.
    ///
    /// Masking rather than rejecting: the value arrives from the network, and
    /// dropping an unknown bit is both forward-compatible and safe.
    pub fn from_bits(bits: u8) -> (m: MouseButtons)
        ensures
            m@ == bits & 0x1F,
            valid_button_bits(m@),
    {
        assert(valid_button_bits(bits & 0x1F)) by (bit_vector);
        MouseButtons(bits & 0x1F)
    }

    /// Returns the raw bit set.
    pub fn bits(self) -> (b: u8)
        ensures
            b == self@,
            valid_button_bits(b),
    {
        proof {
            use_type_invariant(&self);
        }
        self.0
    }

    /// Returns true if no button is held.
    pub fn is_empty(self) -> (r: bool)
        ensures
            r == (self@ == 0),
    {
        self.0 == 0
    }

    /// Returns true if the button is held.
    pub fn contains(self, button: MouseButton) -> (r: bool)
        ensures
            r == (self@ & button_bit(button) != 0),
    {
        self.0 & button.bit() != 0
    }

    /// Returns this set with the button added.
    pub fn with(self, button: MouseButton) -> (m: MouseButtons)
        ensures
            m@ == self@ | button_bit(button),
            valid_button_bits(m@),
    {
        proof {
            use_type_invariant(&self);
        }
        let b = button.bit();
        let bits = self.0;
        assert(valid_button_bits(bits) && b < 0x20 ==> valid_button_bits(bits | b)) by (bit_vector);
        MouseButtons(bits | b)
    }

    /// Returns this set with the button removed.
    pub fn without(self, button: MouseButton) -> (m: MouseButtons)
        ensures
            m@ == self@ & !button_bit(button),
            valid_button_bits(m@),
    {
        proof {
            use_type_invariant(&self);
        }
        let b = button.bit();
        let bits = self.0;
        assert(valid_button_bits(bits) ==> valid_button_bits(bits & !b)) by (bit_vector);
        MouseButtons(bits & !b)
    }

    /// The held buttons, in stable order.
    pub fn held(self) -> (buttons: Vec<MouseButton>)
        ensures
            buttons@ == held_buttons(self@),
    {
        let all = MouseButton::all();
        let mut i: usize = 5;
        let mut tail: Vec<MouseButton> = Vec::new();
        while i > 0
            invariant
                i <= 5,
                forall|j: int| 0 <= j < 5 ==> #[trigger] all[j] == button_at(j as nat),
                tail@ == held_buttons_from(self@, i as nat),
            decreases i,
        {
            i = i - 1;
            let button = all[i];
            if self.contains(button) {
                let mut next: Vec<MouseButton> = Vec::new();
                next.push(button);
                next.append(&mut tail);
                tail = next;
            }
            assert(tail@ =~= held_buttons_from(self@, i as nat));
        }
        tail
    }
}

} // verus!
