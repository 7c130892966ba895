//! Tracking what is physically held, and getting back to a clean state.
//!
//! The requirement this module exists for: never leave the user's keyboard or
//! mouse stuck. If the network dies while `Ctrl` is held on a remote machine,
//! that machine must be able to recover on its own, which is only possible if
//! both ends know exactly what they are holding.

use vstd::prelude::*;

use crate::event::{HeldInput, InputEvent};
use crate::keycode::{is_modifier_key, KeyCode};
use crate::modifiers::{
    bits_with_key, bits_without_key, button_bit, held_buttons, held_modifiers, valid_button_bits,
    Modifiers, MouseButton, MouseButtons,
};

verus! {

/// Maximum simultaneously held non-modifier keys.
///
/// Far beyond any keyboard's rollover, so reaching it indicates
/// desynchronisation rather than a fast typist.
pub const MAX_HELD_KEYS: usize = 32;

/// What [`InputStateTracker::apply`] did with an event.
#[derive(Debug, Clone, Copy, PartialEq, Eq, Structural)]
pub enum ApplyOutcome {
    /// State changed: the key or button is now held, or is now released.
    Changed,
    /// The event carried no new information: a press of an already-held key,
    /// an auto-repeat, or a release of something that was not held.
    Redundant,
    /// The event does not affect tracked state, such as pointer motion.
    Irrelevant,
    /// More than [`MAX_HELD_KEYS`] keys were held at once, so this one is not
    /// being tracked. The caller must force a full release.
    CapacityExceeded,
}

/// The tracked state: non-modifier keys in press order, the modifier byte, and
/// the mouse-button bits.
pub type HeldState = (Seq<KeyCode>, u8, u8);

/// The state with nothing held.
pub open spec fn clean_state() -> HeldState {
    (Seq::empty(), 0u8, 0u8)
}

/// True when nothing is held.
pub open spec fn is_clean_state(s: HeldState) -> bool {
    s.0.len() == 0 && s.1 == 0 && s.2 == 0
}

/// What every tracker keeps true: at most [`MAX_HELD_KEYS`] keys, none held
/// twice, no modifier among them, and only real button bits.
pub open spec fn state_wf(s: HeldState) -> bool {
    &&& s.0.len() <= MAX_HELD_KEYS
    &&& s.0.no_duplicates()
    &&& forall|i: int| 0 <= i < s.0.len() ==> !is_modifier_key(#[trigger] s.0[i])
    &&& valid_button_bits(s.2)
}

/// The effect of a key transition.
pub open spec fn key_step(s: HeldState, key: KeyCode, pressed: bool) -> (HeldState, ApplyOutcome) {
    if is_modifier_key(key) {
        let already = bits_with_key(s.1, key) == s.1;
        if already == pressed {
            (s, ApplyOutcome::Redundant)
        } else if pressed {
            ((s.0, bits_with_key(s.1, key), s.2), ApplyOutcome::Changed)
        } else {
            ((s.0, bits_without_key(s.1, key), s.2), ApplyOutcome::Changed)
        }
    } else if pressed {
        if s.0.contains(key) {
            (s, ApplyOutcome::Redundant)
        } else if s.0.len() >= MAX_HELD_KEYS {
            (s, ApplyOutcome::CapacityExceeded)
        } else {
            ((s.0.push(key), s.1, s.2), ApplyOutcome::Changed)
        }
    } else if !s.0.contains(key) {
        (s, ApplyOutcome::Redundant)
    } else {
        ((s.0.remove_value(key), s.1, s.2), ApplyOutcome::Changed)
    }
}

/// The effect of a mouse-button transition.
pub open spec fn button_step(s: HeldState, button: MouseButton, pressed: bool) -> (HeldState, ApplyOutcome) {
    let held = s.2 & button_bit(button) != 0;
    if held == pressed {
        (s, ApplyOutcome::Redundant)
    } else if pressed {
        ((s.0, s.1, s.2 | button_bit(button)), ApplyOutcome::Changed)
    } else {
        ((s.0, s.1, s.2 & !button_bit(button)), ApplyOutcome::Changed)
    }
}

/// The keys and modifiers adopted from a peer's untrusted list: modifiers go
/// to the modifier byte, a key already taken or beyond capacity is skipped.
pub open spec fn adopt_keys(list: Seq<KeyCode>, modifiers: u8) -> (Seq<KeyCode>, u8)
    decreases list.len(),
{
    if list.len() == 0 {
        (Seq::empty(), modifiers)
    } else {
        let prev = adopt_keys(list.drop_last(), modifiers);
        let key = list.last();
        if is_modifier_key(key) {
            (prev.0, bits_with_key(prev.1, key))
        } else if prev.0.len() < MAX_HELD_KEYS && !prev.0.contains(key) {
            (prev.0.push(key), prev.1)
        } else {
            prev
        }
    }
}

/// The state adopted from what a peer says it is holding.
pub open spec fn adopted_state(held: HeldInput) -> HeldState {
    let k = adopt_keys(held.keys@, held.modifiers@);
    (k.0, k.1, held.buttons@)
}

/// The effect of one event on the tracked state.
pub open spec fn step(s: HeldState, event: InputEvent) -> (HeldState, ApplyOutcome) {
    match event {
        InputEvent::Key { key, pressed, .. } => key_step(s, key, pressed),
        InputEvent::MouseButton { button, pressed } => button_step(s, button, pressed),
        InputEvent::ReleaseAll | InputEvent::Leave => (
            clean_state(),
            if is_clean_state(s) { ApplyOutcome::Redundant } else { ApplyOutcome::Changed },
        ),
        InputEvent::Enter { held, .. } => (adopted_state(held), ApplyOutcome::Changed),
        _ => (s, ApplyOutcome::Irrelevant),
    }
}

/// The state after applying `events` in order.
pub open spec fn replay(s: HeldState, events: Seq<InputEvent>) -> HeldState
    decreases events.len(),
{
    if events.len() == 0 {
        s
    } else {
        replay(step(s, events[0]).0, events.drop_first())
    }
}

/// A key release event.
pub open spec fn key_release(key: KeyCode) -> InputEvent {
    InputEvent::Key { key, pressed: false, repeat: false }
}

/// A key press event.
pub open spec fn key_press(key: KeyCode) -> InputEvent {
    InputEvent::Key { key, pressed: true, repeat: false }
}

/// Releases of `keys`, in order.
pub open spec fn key_releases(keys: Seq<KeyCode>) -> Seq<InputEvent> {
    Seq::new(keys.len(), |i: int| key_release(keys[i]))
}

/// Presses of `keys`, in order.
pub open spec fn key_presses(keys: Seq<KeyCode>) -> Seq<InputEvent> {
    Seq::new(keys.len(), |i: int| key_press(keys[i]))
}

/// Button transitions of `buttons`, in order.
pub open spec fn button_events(buttons: Seq<MouseButton>, pressed: bool) -> Seq<InputEvent> {
    Seq::new(buttons.len(), |i: int| InputEvent::MouseButton { button: buttons[i], pressed })
}

/// The events that return state `s` to clean: buttons, then ordinary keys
/// newest first, then modifiers — the order a hand relaxes.
pub open spec fn release_sequence(s: HeldState) -> Seq<InputEvent> {
    button_events(held_buttons(s.2), false) + key_releases(s.0.reverse()) + key_releases(
        held_modifiers(s.1),
    )
}

/// The events that re-assert state `s` on another machine: modifiers, then
/// keys in press order, then buttons.
pub open spec fn press_sequence(s: HeldState) -> Seq<InputEvent> {
    key_presses(held_modifiers(s.1)) + key_presses(s.0) + button_events(held_buttons(s.2), true)
}

/// Tracks the keys and buttons currently held, on the sending side (what the
/// user physically holds) and on the receiving side (what was synthesised).
#[derive(Debug)]
pub struct InputStateTracker {
    keys: [KeyCode; 32],
    key_count: usize,
    modifiers: Modifiers,
    buttons: MouseButtons,
}

impl View for InputStateTracker {
    type V = HeldState;

    closed spec fn view(&self) -> HeldState {
        (self.keys@.subrange(0, self.key_count as int), self.modifiers@, self.buttons@)
    }
}

impl InputStateTracker {
    #[verifier::type_invariant]
    spec fn inv(self) -> bool {
        &&& self.key_count <= MAX_HELD_KEYS
        &&& state_wf(self@)
    }

    /// Builds an empty tracker.
    pub fn new() -> (t: InputStateTracker)
        ensures
            t@ == clean_state(),
    {
        let empty = KeyCode { page: 0, usage: 0 };
        let keys = [empty; 32];
        assert(keys@.subrange(0, 0) =~= Seq::<KeyCode>::empty());
        assert(valid_button_bits(0u8)) by (bit_vector);
        InputStateTracker {
            keys,
            key_count: 0,
            modifiers: Modifiers::none(),
            buttons: MouseButtons::none(),
        }
    }

    /// The tracked state satisfies [`state_wf`].
    pub fn well_formed(&self) -> (r: bool)
        ensures
            r,
            state_wf(self@),
    {
        proof {
            use_type_invariant(self);
        }
        true
    }

    /// Position of `key` among the held keys, if held.
    fn position(&self, key: KeyCode) -> (r: Option<usize>)
        ensures
            match r {
                Some(i) => i < self.key_count && self@.0[i as int] == key && forall|j: int|
                    0 <= j < i ==> self@.0[j] != key,
                None => !self@.0.contains(key),
            },
    {
        proof {
            use_type_invariant(self);
        }
        let mut i: usize = 0;
        while i < self.key_count
            invariant
                self.key_count <= 32,
                i <= self.key_count,
                forall|j: int| 0 <= j < i ==> self@.0[j] != key,
            decreases self.key_count - i,
        {
            if self.keys[i] == key {
                return Some(i);
            }
            i = i + 1;
        }
        None
    }

    /// Updates state from an event.
    ///
    /// Allocation-free: this runs on the capture thread.
    pub fn apply(&mut self, event: &InputEvent) -> (r: ApplyOutcome)
        ensures
            (final(self)@, r) == step(old(self)@, *event),
    {
        proof {
            use_type_invariant(&*self);
        }
        match event {
            InputEvent::Key { key, pressed, repeat } => self.apply_key(*key, *pressed, *repeat),
            InputEvent::MouseButton { button, pressed } => {
                let held = self.buttons.contains(*button);
                if held == *pressed {
                    return ApplyOutcome::Redundant;
                }
                let b = if *pressed {
                    self.buttons.with(*button)
                } else {
                    self.buttons.without(*button)
                };
                self.buttons = b;
                ApplyOutcome::Changed
            },
            InputEvent::ReleaseAll | InputEvent::Leave => {
                let was_clean = self.is_clean();
                self.clear();
                if was_clean {
                    ApplyOutcome::Redundant
                } else {
                    ApplyOutcome::Changed
                }
            },
            InputEvent::Enter { held, .. } => {
                self.adopt(held);
                ApplyOutcome::Changed
            },
            _ => ApplyOutcome::Irrelevant,
        }
    }

    /// Replaces tracked state with what a peer says it is holding.
    ///
    /// The peer's list is untrusted: it may repeat a key, exceed capacity, or
    /// mix modifiers into the key list. A key stored twice would need two
    /// releases but only one arrives, so duplicates are dropped.
    fn adopt(&mut self, held: &HeldInput)
        ensures
            final(self)@ == adopted_state(*held),
    {
        let empty = KeyCode { page: 0, usage: 0 };
        let mut keys = [empty; 32];
        let mut count: usize = 0;
        let mut modifiers = held.modifiers;
        let buttons = held.buttons;
        // Asking for the bits brings in the fact that only real buttons are set.
        let _ = buttons.bits();
        let n = held.keys.len();
        let mut i: usize = 0;
        while i < n
            invariant
                n == held.keys@.len(),
                i <= n,
                count <= MAX_HELD_KEYS,
                valid_button_bits(buttons@),
                buttons == held.buttons,
                (keys@.subrange(0, count as int), modifiers@) == adopt_keys(
                    held.keys@.take(i as int),
                    held.modifiers@,
                ),
                state_wf((keys@.subrange(0, count as int), modifiers@, buttons@)),
            decreases n - i,
        {
            let key = held.keys[i];
            assert(held.keys@.take(i + 1).drop_last() =~= held.keys@.take(i as int));
            if key.is_modifier() {
                modifiers = modifiers.with_key(key);
            } else if count < MAX_HELD_KEYS && !prefix_contains(&keys, count, key) {
                let ghost before = keys@.subrange(0, count as int);
                keys[count] = key;
                assert(keys@.subrange(0, count + 1) =~= before.push(key));
                count = count + 1;
            }
            i = i + 1;
        }
        assert(held.keys@.take(n as int) =~= held.keys@);
        *self = InputStateTracker { keys, key_count: count, modifiers, buttons };
    }

    /// Forgets everything without emitting events.
    pub fn clear(&mut self)
        ensures
            final(self)@ == clean_state(),
    {
        *self = InputStateTracker::new();
    }

    /// True when nothing is held.
    pub fn is_clean(&self) -> (r: bool)
        ensures
            r == is_clean_state(self@),
    {
        proof {
            use_type_invariant(self);
        }
        self.key_count == 0 && self.modifiers.is_empty() && self.buttons.is_empty()
    }

    /// Modifiers currently held.
    pub fn modifiers(&self) -> (m: Modifiers)
        ensures
            m@ == self@.1,
    {
        self.modifiers
    }

    /// Mouse buttons currently held.
    pub fn buttons(&self) -> (b: MouseButtons)
        ensures
            b@ == self@.2,
    {
        self.buttons
    }

    /// Non-modifier keys currently held, in press order.
    pub fn keys(&self) -> (k: Vec<KeyCode>)
        ensures
            k@ == self@.0,
    {
        proof {
            use_type_invariant(self);
        }
        let mut out: Vec<KeyCode> = Vec::new();
        let mut i: usize = 0;
        while i < self.key_count
            invariant
                self.key_count <= 32,
                i <= self.key_count,
                out@ =~= self@.0.take(i as int),
            decreases self.key_count - i,
        {
            out.push(self.keys[i]);
            i = i + 1;
        }
        out
    }

    /// Snapshot for handing state to another machine at a boundary crossing.
    pub fn held(&self) -> (h: HeldInput)
        ensures
            h.keys@ == self@.0,
            h.modifiers@ == self@.1,
            h.buttons@ == self@.2,
    {
        HeldInput { keys: self.keys(), modifiers: self.modifiers, buttons: self.buttons }
    }

    /// The events that return the system to a clean state: buttons, then
    /// ordinary keys newest first, then modifiers.
    ///
    /// Modifiers last matters: releasing `Shift` while a letter is still down
    /// briefly presents an unshifted chord to the focused application.
    pub fn release_events(&self) -> (events: Vec<InputEvent>)
        ensures
            events@ == release_sequence(self@),
    {
        proof {
            use_type_invariant(self);
        }
        let buttons = self.buttons.held();
        let mut events: Vec<InputEvent> = Vec::new();
        let mut i: usize = 0;
        while i < buttons.len()
            invariant
                i <= buttons@.len(),
                events@ =~= button_events(buttons@, false).take(i as int),
            decreases buttons@.len() - i,
        {
            events.push(InputEvent::MouseButton { button: buttons[i], pressed: false });
            i = i + 1;
        }
        let ghost first = events@;
        let mut k: usize = self.key_count;
        while k > 0
            invariant
                self.key_count <= 32,
                k <= self.key_count,
                first == button_events(buttons@, false),
                events@ =~= first + key_releases(self@.0.reverse()).take(self.key_count - k),
            decreases k,
        {
            k = k - 1;
            events.push(InputEvent::Key { key: self.keys[k], pressed: false, repeat: false });
        }
        let ghost second = events@;
        let mods = self.modifiers.held_keys();
        let mut j: usize = 0;
        while j < mods.len()
            invariant
                j <= mods@.len(),
                second =~= button_events(buttons@, false) + key_releases(self@.0.reverse()),
                events@ =~= second + key_releases(mods@).take(j as int),
            decreases mods@.len() - j,
        {
            events.push(InputEvent::Key { key: mods[j], pressed: false, repeat: false });
            j = j + 1;
        }
        events
    }

    /// The events that re-assert this state on another machine: modifiers
    /// first, so a chord is reconstructed the way the user formed it, then
    /// keys in press order, then buttons.
    pub fn press_events(&self) -> (events: Vec<InputEvent>)
        ensures
            events@ == press_sequence(self@),
    {
        proof {
            use_type_invariant(self);
        }
        let mods = self.modifiers.held_keys();
        let mut events: Vec<InputEvent> = Vec::new();
        let mut j: usize = 0;
        while j < mods.len()
            invariant
                j <= mods@.len(),
                events@ =~= key_presses(mods@).take(j as int),
            decreases mods@.len() - j,
        {
            events.push(InputEvent::Key { key: mods[j], pressed: true, repeat: false });
            j = j + 1;
        }
        let ghost first = events@;
        let mut k: usize = 0;
        while k < self.key_count
            invariant
                self.key_count <= 32,
                k <= self.key_count,
                first == key_presses(mods@),
                events@ =~= first + key_presses(self@.0).take(k as int),
            decreases self.key_count - k,
        {
            events.push(InputEvent::Key { key: self.keys[k], pressed: true, repeat: false });
            k = k + 1;
        }
        let ghost second = events@;
        let buttons = self.buttons.held();
        let mut i: usize = 0;
        while i < buttons.len()
            invariant
                i <= buttons@.len(),
                second =~= key_presses(mods@) + key_presses(self@.0),
                events@ =~= second + button_events(buttons@, true).take(i as int),
            decreases buttons@.len() - i,
        {
            events.push(InputEvent::MouseButton { button: buttons[i], pressed: true });
            i = i + 1;
        }
        events
    }

    /// Updates state from a key transition.
    fn apply_key(&mut self, key: KeyCode, pressed: bool, repeat: bool) -> (r: ApplyOutcome)
        ensures
            (final(self)@, r) == key_step(old(self)@, key, pressed),
    {
        proof {
            use_type_invariant(&*self);
        }
        let ghost old_state = self@;
        if key.is_modifier() {
            let already = self.modifiers.with_key(key).bits() == self.modifiers.bits();
            if already == pressed {
                return ApplyOutcome::Redundant;
            }
            let m = if pressed {
                self.modifiers.with_key(key)
            } else {
                self.modifiers.without_key(key)
            };
            self.modifiers = m;
            return ApplyOutcome::Changed;
        }
        let position = self.position(key);
        let count = self.key_count;
        if pressed {
            if position.is_some() {
                // An auto-repeat, or a duplicate press from a desynchronised
                // peer: counting it twice would make the release arithmetic
                // wrong. A repeat of a key never seen pressed is tracked, since
                // capture may have started mid-hold.
                return ApplyOutcome::Redundant;
            }
            if count >= MAX_HELD_KEYS {
                return ApplyOutcome::CapacityExceeded;
            }
            let mut keys = self.keys;
            keys[count] = key;
            assert(keys@.subrange(0, count + 1) =~= old_state.0.push(key));
            *self = InputStateTracker {
                keys,
                key_count: count + 1,
                modifiers: self.modifiers,
                buttons: self.buttons,
            };
            ApplyOutcome::Changed
        } else {
            match position {
                None => ApplyOutcome::Redundant,
                Some(index) => {
                    proof {
                        old_state.0.index_of_first_ensures(key);
                        assert(old_state.0.index_of_first(key) == Some(index as int));
                    }
                    // Order-preserving removal, so presses replay in the order
                    // they happened.
                    let mut keys = self.keys;
                    let mut j: usize = index;
                    while j + 1 < count
                        invariant
                            count == old_state.0.len(),
                            count <= 32,
                            index < count,
                            index <= j < count,
                            old_state.0 == self@.0,
                            self.key_count == count,
                            forall|t: int| 0 <= t < index ==> keys[t] == old_state.0[t],
                            forall|t: int| index <= t < j ==> keys[t] == old_state.0[t + 1],
                        decreases count - j,
                    {
                        keys[j] = self.keys[j + 1];
                        j = j + 1;
                    }
                    keys[count - 1] = KeyCode { page: 0, usage: 0 };
                    assert(keys@.subrange(0, count - 1) =~= old_state.0.remove(index as int));
                    *self = InputStateTracker {
                        keys,
                        key_count: count - 1,
                        modifiers: self.modifiers,
                        buttons: self.buttons,
                    };
                    ApplyOutcome::Changed
                }
            }
        }
    }
}

/// True if `key` is among the first `count` entries of `keys`.
fn prefix_contains(keys: &[KeyCode; 32], count: usize, key: KeyCode) -> (r: bool)
    requires
        count <= 32,
    ensures
        r == keys@.subrange(0, count as int).contains(key),
{
    let mut i: usize = 0;
    while i < count
        invariant
            count <= 32,
            i <= count,
            forall|j: int| 0 <= j < i ==> keys[j] != key,
        decreases count - i,
    {
        if keys[i] == key {
            assert(keys@.subrange(0, count as int)[i as int] == key);
            return true;
        }
        i = i + 1;
    }
    false
}

impl Clone for InputStateTracker {
    fn clone(&self) -> (t: InputStateTracker)
        ensures
            t@ == self@,
    {
        proof {
            use_type_invariant(self);
        }
        InputStateTracker {
            keys: self.keys,
            key_count: self.key_count,
            modifiers: self.modifiers,
            buttons: self.buttons,
        }
    }
}

} // verus!
