//! Turning CoreGraphics event fields into input events.
//!
//! The functions take plain field values rather than a `CGEvent`, so every
//! decision — which button, whether a modifier went down or up — is ordinary
//! logic, leaving the FFI layer a thin extractor.

use vstd::prelude::*;

use crate::keycode::{is_modifier_key, modifier_bit_of, KeyCode};
use crate::macos::keymap::mac_key;
use crate::macos::post::{flags_of, FLAG_ALTERNATE, FLAG_COMMAND, FLAG_CONTROL, FLAG_SHIFT};
use crate::modifiers::{held_modifiers, held_modifiers_from, Modifiers, MouseButton};
use crate::state::{key_presses, key_releases, replay, HeldState};
use crate::state_laws::{
    lemma_full_masks, lemma_press_modifiers, lemma_release_modifiers, lemma_replay_append,
    lemma_transition_count, ones,
};

verus! {

/// The button with macOS button number `n`, if it is one of the five.
pub open spec fn button_of_number(n: i64) -> Option<MouseButton> {
    if n == 0 {
        Some(MouseButton::Left)
    } else if n == 1 {
        Some(MouseButton::Right)
    } else if n == 2 {
        Some(MouseButton::Middle)
    } else if n == 3 {
        Some(MouseButton::Back)
    } else if n == 4 {
        Some(MouseButton::Forward)
    } else {
        None
    }
}

/// The macOS button number of a button.
pub open spec fn number_of_button(b: MouseButton) -> i64 {
    match b {
        MouseButton::Left => 0,
        MouseButton::Right => 1,
        MouseButton::Middle => 2,
        MouseButton::Back => 3,
        MouseButton::Forward => 4,
    }
}

/// Maps a macOS mouse button number to a button; `None` for vendor-driver
/// buttons beyond the five the OS reports natively.
pub fn button_from_number(number: i64) -> (b: Option<MouseButton>)
    ensures
        b == button_of_number(number),
{
    match number {
        0 => Some(MouseButton::Left),
        1 => Some(MouseButton::Right),
        2 => Some(MouseButton::Middle),
        3 => Some(MouseButton::Back),
        4 => Some(MouseButton::Forward),
        _ => None,
    }
}

/// Maps a button back to its macOS button number, for injection.
pub fn button_to_number(button: MouseButton) -> (n: i64)
    ensures
        n == number_of_button(button),
{
    match button {
        MouseButton::Left => 0,
        MouseButton::Right => 1,
        MouseButton::Middle => 2,
        MouseButton::Back => 3,
        MouseButton::Forward => 4,
    }
}

/// Every button survives the trip to a button number and back.
pub proof fn law_button_numbers_round_trip(b: MouseButton)
    ensures
        button_of_number(number_of_button(b)) == Some(b),
{
}

/// The device-dependent modifier bits of `CGEventFlags`, which keep left and
/// right apart, mapped to the HID modifier byte. Every other flag bit — Caps
/// Lock, `fn`, the numeric-pad bit — is ignored.
pub open spec fn modifier_bits_of_flags(flags: u64) -> u8 {
    (if flags & 0x0001 != 0 { 0x01u8 } else { 0u8 }) | (if flags & 0x0002 != 0 {
        0x02u8
    } else {
        0u8
    }) | (if flags & 0x0020 != 0 { 0x04u8 } else { 0u8 }) | (if flags & 0x0008 != 0 {
        0x08u8
    } else {
        0u8
    }) | (if flags & 0x2000 != 0 { 0x10u8 } else { 0u8 }) | (if flags & 0x0004 != 0 {
        0x20u8
    } else {
        0u8
    }) | (if flags & 0x0040 != 0 { 0x40u8 } else { 0u8 }) | (if flags & 0x0010 != 0 {
        0x80u8
    } else {
        0u8
    })
}

/// Extracts the modifier set from a `CGEventFlags` value.
pub fn modifiers_from_flags(flags: u64) -> (m: Modifiers)
    ensures
        m@ == modifier_bits_of_flags(flags),
{
    let a: u8 = if flags & 0x0001 != 0 { 0x01 } else { 0 };
    let b: u8 = if flags & 0x0002 != 0 { 0x02 } else { 0 };
    let c: u8 = if flags & 0x0020 != 0 { 0x04 } else { 0 };
    let d: u8 = if flags & 0x0008 != 0 { 0x08 } else { 0 };
    let e: u8 = if flags & 0x2000 != 0 { 0x10 } else { 0 };
    let f: u8 = if flags & 0x0004 != 0 { 0x20 } else { 0 };
    let g: u8 = if flags & 0x0040 != 0 { 0x40 } else { 0 };
    let h: u8 = if flags & 0x0010 != 0 { 0x80 } else { 0 };
    Modifiers::from_bits(a | b | c | d | e | f | g | h)
}

/// The transitions implied by a modifier state change: releases of what was
/// let go, in HID bit order, then presses of what went down.
pub open spec fn transitions(previous: u8, current: u8) -> Seq<(KeyCode, bool)> {
    held_modifiers(previous & !current).map_values(|k: KeyCode| (k, false)) + held_modifiers(
        current & !previous,
    ).map_values(|k: KeyCode| (k, true))
}

/// The key events a transition list stands for.
pub open spec fn transition_events(t: Seq<(KeyCode, bool)>) -> Seq<crate::event::InputEvent> {
    t.map_values(
        |p: (KeyCode, bool)| crate::event::InputEvent::Key { key: p.0, pressed: p.1, repeat: false },
    )
}

/// The key transitions implied by one `flagsChanged` event: at most eight.
#[derive(Debug, Clone, Copy, PartialEq, Eq)]
pub struct ModifierTransitions {
    keys: [KeyCode; 8],
    pressed: [bool; 8],
    len: usize,
}

impl View for ModifierTransitions {
    type V = Seq<(KeyCode, bool)>;

    closed spec fn view(&self) -> Seq<(KeyCode, bool)> {
        Seq::new(self.len as nat, |i: int| (self.keys@[i], self.pressed@[i]))
    }
}

impl ModifierTransitions {
    #[verifier::type_invariant]
    spec fn inv(self) -> bool {
        self.len <= 8
    }

    fn empty() -> (t: ModifierTransitions)
        ensures
            t@ == Seq::<(KeyCode, bool)>::empty(),
    {
        let t = ModifierTransitions {
            keys: [KeyCode { page: 0, usage: 0 }; 8],
            pressed: [false; 8],
            len: 0,
        };
        assert(t@ =~= Seq::<(KeyCode, bool)>::empty());
        t
    }

    fn push(&mut self, key: KeyCode, pressed: bool)
        requires
            old(self)@.len() < 8,
        ensures
            final(self)@ == old(self)@.push((key, pressed)),
    {
        proof {
            use_type_invariant(&*self);
        }
        let ghost before = self@;
        let mut keys = self.keys;
        let mut flags = self.pressed;
        keys[self.len] = key;
        flags[self.len] = pressed;
        *self = ModifierTransitions { keys, pressed: flags, len: self.len + 1 };
        assert(self@ =~= before.push((key, pressed)));
    }

    /// The transitions, releases first.
    pub fn as_slice(&self) -> (v: Vec<(KeyCode, bool)>)
        ensures
            v@ == self@,
    {
        proof {
            use_type_invariant(self);
        }
        let mut v: Vec<(KeyCode, bool)> = Vec::new();
        let mut i: usize = 0;
        while i < self.len
            invariant
                self.len <= 8,
                i <= self.len,
                v@ =~= self@.take(i as int),
            decreases self.len - i,
        {
            v.push((self.keys[i], self.pressed[i]));
            i = i + 1;
        }
        v
    }

    /// Number of transitions.
    pub fn len(&self) -> (n: usize)
        ensures
            n == self@.len(),
    {
        self.len
    }

    /// True when nothing changed.
    pub fn is_empty(&self) -> (r: bool)
        ensures
            r == (self@.len() == 0),
    {
        self.len == 0
    }
}

/// Derives key press and release events from a modifier state change.
///
/// macOS reports modifiers through `flagsChanged`, carrying the new state
/// only. Diffing the whole set handles several modifiers changing at once, and
/// emitting releases first means a swap from Left Shift to Right Shift never
/// momentarily reports both.
pub fn modifier_transitions(previous: Modifiers, current: Modifiers) -> (t: ModifierTransitions)
    ensures
        t@ == transitions(previous@, current@),
{
    let released = previous.bits() & !current.bits();
    let pressed = current.bits() & !previous.bits();
    let up = Modifiers::from_bits(released).held_keys();
    let down = Modifiers::from_bits(pressed).held_keys();
    proof {
        let p = previous@;
        let c = current@;
        assert((p & !c) & (c & !p) == 0) by (bit_vector);
        lemma_held_disjoint_total(released, pressed);
    }
    let mut out = ModifierTransitions::empty();
    let mut i: usize = 0;
    while i < up.len()
        invariant
            i <= up@.len(),
            up@.len() + down@.len() <= 8,
            up@ == held_modifiers(released),
            out@ =~= up@.take(i as int).map_values(|k: KeyCode| (k, false)),
        decreases up@.len() - i,
    {
        out.push(up[i], false);
        i = i + 1;
    }
    assert(up@.take(up@.len() as int) =~= up@);
    let ghost first = out@;
    let mut j: usize = 0;
    while j < down.len()
        invariant
            j <= down@.len(),
            up@.len() + down@.len() <= 8,
            first.len() == up@.len(),
            down@ == held_modifiers(pressed),
            out@ =~= first + down@.take(j as int).map_values(|k: KeyCode| (k, true)),
        decreases down@.len() - j,
    {
        out.push(down[j], true);
        j = j + 1;
    }
    assert(down@.take(down@.len() as int) =~= down@);
    out
}

proof fn lemma_held_disjoint_total(a: u8, b: u8)
    requires
        a & b == 0,
    ensures
        held_modifiers(a).len() + held_modifiers(b).len() <= 8,
{
    lemma_held_disjoint_from(a, b, 0);
}

proof fn lemma_held_disjoint_from(a: u8, b: u8, i: nat)
    requires
        a & b == 0,
        i <= 8,
    ensures
        held_modifiers_from(a, i).len() + held_modifiers_from(b, i).len() <= 8 - i,
    decreases 8 - i,
{
    if i < 8 {
        let k = i as u8;
        assert(a & b == 0 && k < 8 ==> !(a & ((1u8 << k) as u8) != 0 && b & ((1u8 << k) as u8) != 0))
            by (bit_vector);
        lemma_held_disjoint_from(a, b, i + 1);
    }
}

/// Replaying the transitions on a state whose modifiers are `previous` lands
/// exactly on `current`, whatever the diff, and touches nothing else.
pub proof fn law_transitions_reproduce_target(s: HeldState, current: u8)
    ensures
        replay(s, transition_events(transitions(s.1, current))) == (s.0, current, s.2),
{
    let previous = s.1;
    let released = previous & !current;
    let pressed = current & !previous;
    let a = key_releases(held_modifiers(released));
    let b = key_presses(held_modifiers(pressed));
    assert(transition_events(transitions(previous, current)) =~= a + b);
    lemma_replay_append(s, a, b);
    lemma_full_masks();
    lemma_release_modifiers(s, released, 0);
    let s1 = replay(s, a);
    lemma_press_modifiers(s1, pressed, 0);
    assert((previous & !(released & 0xFF)) | (pressed & 0xFF) == current) by (bit_vector)
        requires
            released == previous & !current,
            pressed == current & !previous,
    ;
}


/// One transition per modifier bit that differs, and so at most eight;
/// every release comes before every press.
pub proof fn law_transition_count(previous: u8, current: u8)
    ensures
        transitions(previous, current).len() == ones(previous ^ current),
        ones(previous ^ current) <= 8,
        forall|a: int, b: int|
            0 <= a < b < transitions(previous, current).len() && (#[trigger] transitions(
                previous,
                current,
            )[a]).1 ==> (#[trigger] transitions(previous, current)[b]).1,
{
    lemma_transition_count(previous, current);
    let r = held_modifiers(previous & !current);
    let t = transitions(previous, current);
    assert forall|a: int, b: int| 0 <= a < b < t.len() && (#[trigger] t[a]).1 implies (
    #[trigger] t[b]).1 by {
        assert(a >= r.len());
    }
}


/// The device-dependent `CGEventFlags` bit that macOS sets while the modifier
/// key at virtual key code `vk` is held, as IOKit documents them
/// (`NX_DEVICE*KEYMASK`).
pub open spec fn device_mask_of_key(vk: u16) -> Option<u64> {
    match vk {
        0x3B => Some(0x0001u64),  // kVK_Control: NX_DEVICELCTLKEYMASK
        0x38 => Some(0x0002u64),  // kVK_Shift: NX_DEVICELSHIFTKEYMASK
        0x3C => Some(0x0004u64),  // kVK_RightShift: NX_DEVICERSHIFTKEYMASK
        0x37 => Some(0x0008u64),  // kVK_Command: NX_DEVICELCMDKEYMASK
        0x36 => Some(0x0010u64),  // kVK_RightCommand: NX_DEVICERCMDKEYMASK
        0x3A => Some(0x0020u64),  // kVK_Option: NX_DEVICELALTKEYMASK
        0x3D => Some(0x0040u64),  // kVK_RightOption: NX_DEVICERALTKEYMASK
        0x3E => Some(0x2000u64),  // kVK_RightControl: NX_DEVICERCTLKEYMASK
        _ => None,
    }
}

/// The device-independent flag macOS sets alongside a device-dependent
/// modifier bit: Control, Shift, Option (`Alternate`) or Command.
pub open spec fn class_flag_of_key(vk: u16) -> Option<u64> {
    match vk {
        0x3B | 0x3E => Some(FLAG_CONTROL),
        0x38 | 0x3C => Some(FLAG_SHIFT),
        0x3A | 0x3D => Some(FLAG_ALTERNATE),
        0x37 | 0x36 => Some(FLAG_COMMAND),
        _ => None,
    }
}

/// Holding a modifier key on the Mac reads as that same key: the flags the
/// key sets give exactly the modifier bit of the HID key the keyboard table
/// maps it to, so Option reads as Alt and Command as Meta, each on its own
/// side; and posting what was read sets the same device-independent flag
/// macOS set with it.
pub proof fn law_modifier_flags_name_their_keys(vk: u16)
    ensures
        device_mask_of_key(vk) matches Some(mask) ==> {
            &&& mac_key(vk) matches Some(k)
            &&& is_modifier_key(k)
            &&& modifier_bits_of_flags(mask) == modifier_bit_of(k)
            &&& class_flag_of_key(vk) == Some(flags_of(modifier_bits_of_flags(mask)))
        },
{
    assert({
        &&& (0x0001u64 & 0x0001 != 0 && 0x0001u64 & 0x0002 == 0 && 0x0001u64 & 0x0004 == 0
        && 0x0001u64 & 0x0008 == 0 && 0x0001u64 & 0x0010 == 0 && 0x0001u64 & 0x0020 == 0
        && 0x0001u64 & 0x0040 == 0 && 0x0001u64 & 0x2000 == 0)
        &&& (0x0002u64 & 0x0001 == 0 && 0x0002u64 & 0x0002 != 0 && 0x0002u64 & 0x0004 == 0
        && 0x0002u64 & 0x0008 == 0 && 0x0002u64 & 0x0010 == 0 && 0x0002u64 & 0x0020 == 0
        && 0x0002u64 & 0x0040 == 0 && 0x0002u64 & 0x2000 == 0)
        &&& (0x0004u64 & 0x0001 == 0 && 0x0004u64 & 0x0002 == 0 && 0x0004u64 & 0x0004 != 0
        && 0x0004u64 & 0x0008 == 0 && 0x0004u64 & 0x0010 == 0 && 0x0004u64 & 0x0020 == 0
        && 0x0004u64 & 0x0040 == 0 && 0x0004u64 & 0x2000 == 0)
        &&& (0x0008u64 & 0x0001 == 0 && 0x0008u64 & 0x0002 == 0 && 0x0008u64 & 0x0004 == 0
        && 0x0008u64 & 0x0008 != 0 && 0x0008u64 & 0x0010 == 0 && 0x0008u64 & 0x0020 == 0
        && 0x0008u64 & 0x0040 == 0 && 0x0008u64 & 0x2000 == 0)
        &&& (0x0010u64 & 0x0001 == 0 && 0x0010u64 & 0x0002 == 0 && 0x0010u64 & 0x0004 == 0
        && 0x0010u64 & 0x0008 == 0 && 0x0010u64 & 0x0010 != 0 && 0x0010u64 & 0x0020 == 0
        && 0x0010u64 & 0x0040 == 0 && 0x0010u64 & 0x2000 == 0)
        &&& (0x0020u64 & 0x0001 == 0 && 0x0020u64 & 0x0002 == 0 && 0x0020u64 & 0x0004 == 0
        && 0x0020u64 & 0x0008 == 0 && 0x0020u64 & 0x0010 == 0 && 0x0020u64 & 0x0020 != 0
        && 0x0020u64 & 0x0040 == 0 && 0x0020u64 & 0x2000 == 0)
        &&& (0x0040u64 & 0x0001 == 0 && 0x0040u64 & 0x0002 == 0 && 0x0040u64 & 0x0004 == 0
        && 0x0040u64 & 0x0008 == 0 && 0x0040u64 & 0x0010 == 0 && 0x0040u64 & 0x0020 == 0
        && 0x0040u64 & 0x0040 != 0 && 0x0040u64 & 0x2000 == 0)
        &&& (0x2000u64 & 0x0001 == 0 && 0x2000u64 & 0x0002 == 0 && 0x2000u64 & 0x0004 == 0
        && 0x2000u64 & 0x0008 == 0 && 0x2000u64 & 0x0010 == 0 && 0x2000u64 & 0x0020 == 0
        && 0x2000u64 & 0x0040 == 0 && 0x2000u64 & 0x2000 != 0)
        &&& (0x01u8 | 0u8 == 0x01 && 0u8 | 0x02u8 == 0x02 && 0u8 | 0x04u8 == 0x04)
        &&& ((1u8 << 0u8) == 1u8 && (1u8 << 1u8) == 2u8 && (1u8 << 2u8) == 4u8 && (1u8 << 3u8) == 8u8
        && (1u8 << 4u8) == 16u8 && (1u8 << 5u8) == 32u8 && (1u8 << 6u8) == 64u8 && (1u8 << 7u8)
        == 128u8)
        &&& (0u8 | 0u8 == 0u8 && 0x08u8 | 0u8 == 0x08 && 0x10u8 | 0u8 == 0x10 && 0x20u8 | 0u8 == 0x20
        && 0x40u8 | 0u8 == 0x40 && 0x80u8 | 0u8 == 0x80 && 0u8 | 0x08u8 == 0x08 && 0u8 | 0x10u8
        == 0x10 && 0u8 | 0x20u8 == 0x20 && 0u8 | 0x40u8 == 0x40 && 0u8 | 0x80u8 == 0x80 && 0x01u8
        | 0u8 == 0x01 && 0x02u8 | 0u8 == 0x02 && 0x04u8 | 0u8 == 0x04)
        &&& (0x01u8 & 0x11 != 0 && 0x01u8 & 0x22 == 0 && 0x01u8 & 0x44 == 0 && 0x01u8 & 0x88 == 0)
        &&& (0x02u8 & 0x11 == 0 && 0x02u8 & 0x22 != 0 && 0x02u8 & 0x44 == 0 && 0x02u8 & 0x88 == 0)
        &&& (0x04u8 & 0x11 == 0 && 0x04u8 & 0x22 == 0 && 0x04u8 & 0x44 != 0 && 0x04u8 & 0x88 == 0)
        &&& (0x08u8 & 0x11 == 0 && 0x08u8 & 0x22 == 0 && 0x08u8 & 0x44 == 0 && 0x08u8 & 0x88 != 0)
        &&& (0x10u8 & 0x11 != 0 && 0x10u8 & 0x22 == 0 && 0x10u8 & 0x44 == 0 && 0x10u8 & 0x88 == 0)
        &&& (0x20u8 & 0x11 == 0 && 0x20u8 & 0x22 != 0 && 0x20u8 & 0x44 == 0 && 0x20u8 & 0x88 == 0)
        &&& (0x40u8 & 0x11 == 0 && 0x40u8 & 0x22 == 0 && 0x40u8 & 0x44 != 0 && 0x40u8 & 0x88 == 0)
        &&& (0x80u8 & 0x11 == 0 && 0x80u8 & 0x22 == 0 && 0x80u8 & 0x44 == 0 && 0x80u8 & 0x88 != 0)
        &&& (FLAG_CONTROL | 0u64 | 0u64 | 0u64 == FLAG_CONTROL && 0u64 | FLAG_SHIFT | 0u64 | 0u64
        == FLAG_SHIFT && 0u64 | 0u64 | FLAG_ALTERNATE | 0u64 == FLAG_ALTERNATE && 0u64 | 0u64 | 0u64
        | FLAG_COMMAND == FLAG_COMMAND)
    }) by (bit_vector);
}


/// Whatever else the flags hold, a modifier reads as held exactly when the
/// device bit of its key is set: each key's bit is read on its own, and no
/// other flag (Caps Lock, `fn`, the device-independent masks) makes a
/// modifier appear.
pub proof fn law_each_modifier_reads_its_own_bit(flags: u64, vk: u16)
    ensures
        device_mask_of_key(vk) matches Some(mask) ==> (modifier_bits_of_flags(flags)
            & modifier_bit_of(mac_key(vk)->Some_0) != 0 <==> flags & mask != 0),
{
    let r = modifier_bits_of_flags(flags);
    assert((1u8 << 0u8) == 1u8 && (1u8 << 1u8) == 2u8 && (1u8 << 2u8) == 4u8 && (1u8 << 3u8) == 8u8
        && (1u8 << 4u8) == 16u8 && (1u8 << 5u8) == 32u8 && (1u8 << 6u8) == 64u8 && (1u8 << 7u8)
        == 128u8) by (bit_vector);
    assert({
        &&& (r & 0x01 != 0 <==> flags & 0x0001 != 0)
        &&& (r & 0x02 != 0 <==> flags & 0x0002 != 0)
        &&& (r & 0x04 != 0 <==> flags & 0x0020 != 0)
        &&& (r & 0x08 != 0 <==> flags & 0x0008 != 0)
        &&& (r & 0x10 != 0 <==> flags & 0x2000 != 0)
        &&& (r & 0x20 != 0 <==> flags & 0x0004 != 0)
        &&& (r & 0x40 != 0 <==> flags & 0x0040 != 0)
        &&& (r & 0x80 != 0 <==> flags & 0x0010 != 0)
    }) by (bit_vector)
        requires
            r == modifier_bits_of_flags(flags),
    ;
}

} // verus!
