//! What the held-input tracker guarantees across sequences of events.
//!
//! The tracker exists so that neither machine is ever left holding a key or
//! button the user has let go of. These laws are the precise form of that
//! promise: the release sequence always reaches a clean state, the press
//! sequence rebuilds exactly what was held, and so on.

use vstd::prelude::*;

use crate::event::InputEvent;
use crate::keycode::{is_modifier_key, modifier_bit_of, KeyCode};
use crate::modifiers::{
    bits_with_key, button_at, button_bit, has_bit, held_buttons, held_buttons_from, held_modifiers,
    held_modifiers_from, modifier_key, valid_button_bits, MouseButton,
};
use crate::state::{
    button_events, clean_state, is_clean_state, key_presses, key_releases, key_step,
    press_sequence, release_sequence, replay, state_wf, step, ApplyOutcome, HeldState,
};

verus! {

/// Bits of the buttons from position `i` of the stable order onwards.
pub open spec fn button_mask_from(i: nat) -> u8
    decreases 5 - i,
{
    if i >= 5 {
        0
    } else {
        button_bit(button_at(i)) | button_mask_from(i + 1)
    }
}

/// Bits of the modifier byte from bit `i` onwards.
pub open spec fn modifier_mask_from(i: nat) -> u8
    decreases 8 - i,
{
    if i >= 8 {
        0
    } else {
        ((1u8 << (i as u8)) as u8) | modifier_mask_from(i + 1)
    }
}

/// Replaying two sequences one after the other is replaying their
/// concatenation.
pub proof fn lemma_replay_append(s: HeldState, a: Seq<InputEvent>, b: Seq<InputEvent>)
    ensures
        replay(s, a + b) == replay(replay(s, a), b),
    decreases a.len(),
{
    if a.len() == 0 {
        assert(a + b =~= b);
    } else {
        assert((a + b).drop_first() =~= a.drop_first() + b);
        assert((a + b)[0] == a[0]);
        lemma_replay_append(step(s, a[0]).0, a.drop_first(), b);
    }
}

proof fn lemma_clear_bit(c: u8, b: u8, x: u8, m: u8)
    requires
        x == 1 || x == 2 || x == 4 || x == 8 || x == 16 || x == 32 || x == 64 || x == 128,
    ensures
        b & x != 0 ==> (c & !x) & !(b & m) == c & !(b & (x | m)),
        b & x == 0 ==> c & !(b & m) == c & !(b & (x | m)),
        b & x != 0 ==> (c | x) | (b & m) == c | (b & (x | m)),
        b & x == 0 ==> c | (b & m) == c | (b & (x | m)),
        c & x == 0 ==> c & !x == c,
        c & x != 0 ==> c | x == c,
        (c | x == c) == (c & x != 0),
{
    assert({
        &&& b & x != 0 ==> (c & !x) & !(b & m) == c & !(b & (x | m))
        &&& b & x == 0 ==> c & !(b & m) == c & !(b & (x | m))
        &&& b & x != 0 ==> (c | x) | (b & m) == c | (b & (x | m))
        &&& b & x == 0 ==> c | (b & m) == c | (b & (x | m))
        &&& c & x == 0 ==> c & !x == c
        &&& c & x != 0 ==> c | x == c
        &&& (c | x == c) == (c & x != 0)
    }) by (bit_vector)
        requires
            x == 1 || x == 2 || x == 4 || x == 8 || x == 16 || x == 32 || x == 64 || x == 128,
    ;
}

proof fn lemma_single_bit(i: nat)
    requires
        i < 8,
    ensures
        ({
            let x = (1u8 << (i as u8)) as u8;
            x == 1 || x == 2 || x == 4 || x == 8 || x == 16 || x == 32 || x == 64 || x == 128
        }),
{
    let k = i as u8;
    assert(k < 8 ==> ({
        let x = (1u8 << k) as u8;
        x == 1 || x == 2 || x == 4 || x == 8 || x == 16 || x == 32 || x == 64 || x == 128
    })) by (bit_vector);
}

proof fn lemma_modifier_key_bit(i: nat)
    requires
        i < 8,
    ensures
        is_modifier_key(modifier_key(i)),
        modifier_bit_of(modifier_key(i)) == (1u8 << (i as u8)) as u8,
{
}

pub proof fn lemma_full_masks()
    ensures
        button_mask_from(0) == 0x1F,
        modifier_mask_from(0) == 0xFF,
{
    assert((0x10u8 | 0u8 == 0x10u8) && (0x08u8 | 0x10u8 == 0x18u8) && (0x04u8 | 0x18u8 == 0x1Cu8) && (0x02u8 | 0x1Cu8 == 0x1Eu8) && (0x01u8 | 0x1Eu8 == 0x1Fu8) && (0x80u8 | 0u8 == 0x80u8) && (0x40u8 | 0x80u8 == 0xC0u8) && (0x20u8 | 0xC0u8 == 0xE0u8) && (0x10u8 | 0xE0u8 == 0xF0u8) && (0x08u8 | 0xF0u8 == 0xF8u8) && (0x04u8 | 0xF8u8 == 0xFCu8) && (0x02u8 | 0xFCu8 == 0xFEu8) && (0x01u8 | 0xFEu8 == 0xFFu8)) by (bit_vector);
    assert((1u8 << 0u8) == 1u8 && (1u8 << 1u8) == 2u8 && (1u8 << 2u8) == 4u8 && (1u8 << 3u8) == 8u8
        && (1u8 << 4u8) == 16u8 && (1u8 << 5u8) == 32u8 && (1u8 << 6u8) == 64u8 && (1u8 << 7u8)
        == 128u8) by (bit_vector);
    assert(button_mask_from(5) == 0);
    assert(button_mask_from(4) == 0x10);
    assert(button_mask_from(3) == 0x18);
    assert(button_mask_from(2) == 0x1C);
    assert(button_mask_from(1) == 0x1E);
    assert(button_mask_from(0) == 0x1F);
    assert(modifier_mask_from(8) == 0);
    assert(modifier_mask_from(7) == 0x80);
    assert(modifier_mask_from(6) == 0xC0);
    assert(modifier_mask_from(5) == 0xE0);
    assert(modifier_mask_from(4) == 0xF0);
    assert(modifier_mask_from(3) == 0xF8);
    assert(modifier_mask_from(2) == 0xFC);
    assert(modifier_mask_from(1) == 0xFE);
    assert(modifier_mask_from(0) == 0xFF);
}

/// Releasing the held buttons from position `i` on clears exactly their bits.
proof fn lemma_release_buttons(s: HeldState, b: u8, i: nat)
    requires
        i <= 5,
    ensures
        replay(s, button_events(held_buttons_from(b, i), false)) == (s.0, s.1, s.2 & !(b
            & button_mask_from(i))),
    decreases 5 - i,
{
    let events = button_events(held_buttons_from(b, i), false);
    if i >= 5 {
        assert(events =~= Seq::empty());
        let c = s.2;
        assert(c & !(b & 0) == c) by (bit_vector);
    } else {
        let btn = button_at(i);
        let x = button_bit(btn);
        lemma_clear_bit(s.2, b, x, button_mask_from(i + 1));
        let rest = button_events(held_buttons_from(b, i + 1), false);
        if b & x != 0 {
            assert(events[0] == InputEvent::MouseButton { button: btn, pressed: false });
            assert(events.drop_first() =~= rest);
            let s1 = step(s, events[0]).0;
            assert(s1 == (s.0, s.1, s.2 & !x));
            lemma_release_buttons(s1, b, i + 1);
        } else {
            assert(events =~= rest);
            lemma_release_buttons(s, b, i + 1);
        }
    }
}

/// Pressing the held buttons from position `i` on sets exactly their bits.
proof fn lemma_press_buttons(s: HeldState, b: u8, i: nat)
    requires
        i <= 5,
    ensures
        replay(s, button_events(held_buttons_from(b, i), true)) == (s.0, s.1, s.2 | (b
            & button_mask_from(i))),
    decreases 5 - i,
{
    let events = button_events(held_buttons_from(b, i), true);
    if i >= 5 {
        assert(events =~= Seq::empty());
        let c = s.2;
        assert(c | (b & 0) == c) by (bit_vector);
    } else {
        let btn = button_at(i);
        let x = button_bit(btn);
        lemma_clear_bit(s.2, b, x, button_mask_from(i + 1));
        let rest = button_events(held_buttons_from(b, i + 1), true);
        if b & x != 0 {
            assert(events[0] == InputEvent::MouseButton { button: btn, pressed: true });
            assert(events.drop_first() =~= rest);
            let s1 = step(s, events[0]).0;
            assert(s1 == (s.0, s.1, s.2 | x));
            lemma_press_buttons(s1, b, i + 1);
        } else {
            assert(events =~= rest);
            lemma_press_buttons(s, b, i + 1);
        }
    }
}

/// Releasing the held modifiers from bit `i` on clears exactly their bits.
pub proof fn lemma_release_modifiers(s: HeldState, m: u8, i: nat)
    requires
        i <= 8,
    ensures
        replay(s, key_releases(held_modifiers_from(m, i))) == (s.0, s.1 & !(m
            & modifier_mask_from(i)), s.2),
    decreases 8 - i,
{
    let events = key_releases(held_modifiers_from(m, i));
    if i >= 8 {
        assert(events =~= Seq::empty());
        let c = s.1;
        assert(c & !(m & 0) == c) by (bit_vector);
    } else {
        let key = modifier_key(i);
        let x = (1u8 << (i as u8)) as u8;
        lemma_single_bit(i);
        lemma_modifier_key_bit(i);
        lemma_clear_bit(s.1, m, x, modifier_mask_from(i + 1));
        let rest = key_releases(held_modifiers_from(m, i + 1));
        if has_bit(m, i) {
            assert(events[0] == InputEvent::Key { key, pressed: false, repeat: false });
            assert(events.drop_first() =~= rest);
            let s1 = step(s, events[0]).0;
            assert(s1 == (s.0, s.1 & !x, s.2));
            lemma_release_modifiers(s1, m, i + 1);
        } else {
            assert(events =~= rest);
            lemma_release_modifiers(s, m, i + 1);
        }
    }
}

/// Pressing the held modifiers from bit `i` on sets exactly their bits.
pub proof fn lemma_press_modifiers(s: HeldState, m: u8, i: nat)
    requires
        i <= 8,
    ensures
        replay(s, key_presses(held_modifiers_from(m, i))) == (s.0, s.1 | (m & modifier_mask_from(
            i,
        )), s.2),
    decreases 8 - i,
{
    let events = key_presses(held_modifiers_from(m, i));
    if i >= 8 {
        assert(events =~= Seq::empty());
        let c = s.1;
        assert(c | (m & 0) == c) by (bit_vector);
    } else {
        let key = modifier_key(i);
        let x = (1u8 << (i as u8)) as u8;
        lemma_single_bit(i);
        lemma_modifier_key_bit(i);
        lemma_clear_bit(s.1, m, x, modifier_mask_from(i + 1));
        let rest = key_presses(held_modifiers_from(m, i + 1));
        if has_bit(m, i) {
            assert(events[0] == InputEvent::Key { key, pressed: true, repeat: false });
            assert(events.drop_first() =~= rest);
            let s1 = step(s, events[0]).0;
            assert(s1 == (s.0, s.1 | x, s.2));
            lemma_press_modifiers(s1, m, i + 1);
        } else {
            assert(events =~= rest);
            lemma_press_modifiers(s, m, i + 1);
        }
    }
}

/// Releasing `k` newest first, from a state holding `p` followed by `k`,
/// leaves exactly `p` held.
proof fn lemma_release_keys(p: Seq<KeyCode>, k: Seq<KeyCode>, m: u8, bt: u8)
    requires
        (p + k).no_duplicates(),
        forall|i: int| 0 <= i < k.len() ==> !is_modifier_key(#[trigger] k[i]),
    ensures
        replay((p + k, m, bt), key_releases(k.reverse())) == (p, m, bt),
    decreases k.len(),
{
    let events = key_releases(k.reverse());
    if k.len() == 0 {
        assert(events =~= Seq::empty());
        assert(p + k =~= p);
    } else {
        let all = p + k;
        let n = all.len();
        let last = k.last();
        assert(all[n - 1] == last);
        all.index_of_first_ensures(last);
        assert(all.index_of_first(last) == Some(n - 1));
        assert(all.remove(n - 1) =~= p + k.drop_last());
        assert(events[0] == InputEvent::Key { key: last, pressed: false, repeat: false });
        assert(!is_modifier_key(last));
        assert(all.contains(last));
        let s1 = step((all, m, bt), events[0]).0;
        assert(s1 == (p + k.drop_last(), m, bt));
        assert(events.drop_first() =~= key_releases(k.drop_last().reverse()));
        assert((p + k.drop_last()).no_duplicates()) by {
            assert forall|a: int, b: int|
                0 <= a < n - 1 && 0 <= b < n - 1 && a != b implies (p + k.drop_last())[a] != (p
                + k.drop_last())[b] by {
                assert((p + k.drop_last())[a] == all[a]);
                assert((p + k.drop_last())[b] == all[b]);
            }
        }
        lemma_release_keys(p, k.drop_last(), m, bt);
    }
}

/// Pressing `k` in order, from a state holding `p`, leaves `p` followed by
/// `k` held, when the result fits and holds nothing twice.
proof fn lemma_press_keys(p: Seq<KeyCode>, k: Seq<KeyCode>, m: u8, bt: u8)
    requires
        (p + k).no_duplicates(),
        (p + k).len() <= 32,
        forall|i: int| 0 <= i < k.len() ==> !is_modifier_key(#[trigger] k[i]),
    ensures
        replay((p, m, bt), key_presses(k)) == (p + k, m, bt),
    decreases k.len(),
{
    let events = key_presses(k);
    if k.len() == 0 {
        assert(events =~= Seq::empty());
        assert(p + k =~= p);
    } else {
        let first = k[0];
        assert(events[0] == InputEvent::Key { key: first, pressed: true, repeat: false });
        assert(!is_modifier_key(first));
        assert(!p.contains(first)) by {
            if p.contains(first) {
                let j = choose|j: int| 0 <= j < p.len() && p[j] == first;
                assert((p + k)[j] == (p + k)[p.len() as int]);
            }
        }
        let s1 = step((p, m, bt), events[0]).0;
        assert(s1 == (p.push(first), m, bt));
        assert(events.drop_first() =~= key_presses(k.drop_first()));
        assert(p.push(first) + k.drop_first() =~= p + k);
        lemma_press_keys(p.push(first), k.drop_first(), m, bt);
    }
}

/// The release sequence returns any well-formed state to clean: whatever is
/// held, applying what [`crate::state::InputStateTracker::release_events`]
/// reports leaves nothing held.
pub proof fn law_release_sequence_reaches_clean(s: HeldState)
    requires
        state_wf(s),
    ensures
        is_clean_state(replay(s, release_sequence(s))),
{
    let a = button_events(held_buttons(s.2), false);
    let b = key_releases(s.0.reverse());
    let c = key_releases(held_modifiers(s.1));
    lemma_replay_append(s, a + b, c);
    lemma_replay_append(s, a, b);
    lemma_release_buttons(s, s.2, 0);
    lemma_full_masks();
    let c2 = s.2;
    assert(valid_button_bits(c2) ==> c2 & !(c2 & 0x1F) == 0) by (bit_vector);
    let s1 = replay(s, a);
    assert(s1 == (s.0, s.1, 0u8));
    lemma_release_keys(Seq::empty(), s.0, s.1, 0u8);
    assert(Seq::<KeyCode>::empty() + s.0 =~= s.0);
    let s2 = replay(s1, b);
    assert(s2 == (Seq::<KeyCode>::empty(), s.1, 0u8));
    lemma_release_modifiers(s2, s.1, 0);
    let m = s.1;
    assert(m & !(m & 0xFF) == 0) by (bit_vector);
}

/// The press sequence rebuilds the state it was taken from: a fresh machine
/// that applies what [`crate::state::InputStateTracker::press_events`] reports
/// ends up holding exactly the same keys, modifiers and buttons.
pub proof fn law_press_sequence_reconstructs(s: HeldState)
    requires
        state_wf(s),
    ensures
        replay(clean_state(), press_sequence(s)) == s,
{
    let a = key_presses(held_modifiers(s.1));
    let b = key_presses(s.0);
    let c = button_events(held_buttons(s.2), true);
    let s0 = clean_state();
    lemma_full_masks();
    lemma_replay_append(s0, a + b, c);
    lemma_replay_append(s0, a, b);
    lemma_press_modifiers(s0, s.1, 0);
    let m = s.1;
    assert(0u8 | (m & 0xFF) == m) by (bit_vector);
    let s1 = replay(s0, a);
    assert(s1 == (Seq::<KeyCode>::empty(), s.1, 0u8));
    assert(Seq::<KeyCode>::empty() + s.0 =~= s.0);
    lemma_press_keys(Seq::empty(), s.0, s.1, 0u8);
    let s2 = replay(s1, b);
    assert(s2 == (s.0, s.1, 0u8));
    lemma_press_buttons(s2, s.2, 0);
    lemma_full_masks();
    let c2 = s.2;
    assert(valid_button_bits(c2) ==> 0u8 | (c2 & 0x1F) == c2) by (bit_vector);
}

/// Releasing everything is idempotent: a second `ReleaseAll` finds nothing
/// held and changes nothing, so one more is always safe to send.
pub proof fn law_release_all_is_idempotent(s: HeldState)
    ensures
        is_clean_state(step(s, InputEvent::ReleaseAll).0),
        step(step(s, InputEvent::ReleaseAll).0, InputEvent::ReleaseAll) == (
            clean_state(),
            ApplyOutcome::Redundant,
        ),
{
}

/// An auto-repeat or duplicate press never counts a held key twice, and one
/// release always suffices to let go of it.
pub proof fn law_one_release_suffices(s: HeldState, key: KeyCode)
    requires
        state_wf(s),
        s.0.contains(key),
    ensures
        key_step(s, key, true) == (s, ApplyOutcome::Redundant),
        !key_step(s, key, false).0.0.contains(key),
{
    let i = choose|i: int| 0 <= i < s.0.len() && s.0[i] == key;
    assert(!is_modifier_key(s.0[i]));
    s.0.index_of_first_ensures(key);
    let j = s.0.index_of_first(key)->0;
    assert(j == i);
    let r = s.0.remove(i);
    assert forall|t: int| 0 <= t < r.len() implies r[t] != key by {
        if t < i {
            assert(r[t] == s.0[t]);
        } else {
            assert(r[t] == s.0[t + 1]);
        }
    }
}


/// No modifier bit set from position `i` on lists no modifier.
proof fn lemma_no_modifiers_from(i: nat)
    ensures
        held_modifiers_from(0u8, i) == Seq::<KeyCode>::empty(),
    decreases 8 - i,
{
    if i < 8 {
        let sh = i as u8;
        assert(0u8 & ((1u8 << sh) as u8) == 0) by (bit_vector);
        lemma_no_modifiers_from(i + 1);
        assert(held_modifiers_from(0u8, i) =~= Seq::<KeyCode>::empty());
    }
}

/// No button bit set from position `i` on lists no button.
proof fn lemma_no_buttons_from(i: nat)
    ensures
        held_buttons_from(0u8, i) == Seq::<MouseButton>::empty(),
    decreases 5 - i,
{
    if i < 5 {
        let b = button_bit(button_at(i));
        assert(0u8 & b == 0) by (bit_vector);
        lemma_no_buttons_from(i + 1);
        assert(held_buttons_from(0u8, i) =~= Seq::<MouseButton>::empty());
    }
}

/// A clean state has nothing to release.
pub proof fn lemma_clean_releases_nothing()
    ensures
        release_sequence(clean_state()) == Seq::<InputEvent>::empty(),
{
    lemma_no_modifiers_from(0);
    lemma_no_buttons_from(0);
    assert(release_sequence(clean_state()) =~= Seq::<InputEvent>::empty());
}


/// The number of bits set in `bits` from bit `i` upwards.
pub open spec fn ones_from(bits: u8, i: nat) -> nat
    decreases 8 - i,
{
    if i >= 8 {
        0
    } else {
        (if has_bit(bits, i) { 1nat } else { 0nat }) + ones_from(bits, i + 1)
    }
}

/// The number of bits set in `bits`.
pub open spec fn ones(bits: u8) -> nat {
    ones_from(bits, 0)
}

/// The modifier byte after adding each of `keys` in turn to `bits`, as
/// `Modifiers::with_key` does.
pub open spec fn with_keys(bits: u8, keys: Seq<KeyCode>) -> u8
    decreases keys.len(),
{
    if keys.len() == 0 {
        bits
    } else {
        with_keys(bits_with_key(bits, keys[0]), keys.drop_first())
    }
}

/// The modifiers listed from bit `i` on are as many as the set bits there,
/// each the key of a set bit at or above `i`, each once, and every such key
/// is listed.
proof fn lemma_modifiers_listed(m: u8, i: nat)
    requires
        i <= 8,
    ensures
        held_modifiers_from(m, i).len() == ones_from(m, i),
        held_modifiers_from(m, i).no_duplicates(),
        forall|n: int|
            #![trigger held_modifiers_from(m, i)[n]]
            0 <= n < held_modifiers_from(m, i).len() ==> {
                let k = held_modifiers_from(m, i)[n];
                &&& k.page == 0x07
                &&& 0xE0 + i <= k.usage < 0xE8
                &&& k == modifier_key((k.usage - 0xE0) as nat)
                &&& has_bit(m, (k.usage - 0xE0) as nat)
            },
        forall|j: nat|
            i <= j < 8 && has_bit(m, j) ==> #[trigger] held_modifiers_from(m, i).contains(
                modifier_key(j),
            ),
    decreases 8 - i,
{
    let all = held_modifiers_from(m, i);
    if i >= 8 {
        assert(all =~= Seq::<KeyCode>::empty());
    } else {
        lemma_modifiers_listed(m, i + 1);
        let rest = held_modifiers_from(m, i + 1);
        if has_bit(m, i) {
            let head = modifier_key(i);
            assert(all =~= seq![head] + rest);
            assert forall|a: int, b: int| 0 <= a < b < all.len() implies all[a] != all[b] by {
                assert(all[b] == rest[b - 1]);
                if a > 0 {
                    assert(all[a] == rest[a - 1]);
                }
            }
            assert forall|n: int| 0 <= n < all.len() implies {
                let k = #[trigger] all[n];
                &&& k.page == 0x07
                &&& 0xE0 + i <= k.usage < 0xE8
                &&& k == modifier_key((k.usage - 0xE0) as nat)
                &&& has_bit(m, (k.usage - 0xE0) as nat)
            } by {
                if n > 0 {
                    assert(all[n] == rest[n - 1]);
                }
            }
            assert forall|j: nat| i <= j < 8 && has_bit(m, j) implies #[trigger] all.contains(
                modifier_key(j),
            ) by {
                if j == i {
                    assert(all[0] == head);
                } else {
                    assert(rest.contains(modifier_key(j)));
                    let n = choose|n: int| 0 <= n < rest.len() && rest[n] == modifier_key(j);
                    assert(all[n + 1] == rest[n]);
                }
            }
        } else {
            assert(all =~= rest);
        }
    }
}

/// Adding the modifiers listed from bit `i` on to `c` sets exactly their
/// bits.
proof fn lemma_with_held_keys(c: u8, m: u8, i: nat)
    requires
        i <= 8,
    ensures
        with_keys(c, held_modifiers_from(m, i)) == c | (m & modifier_mask_from(i)),
    decreases 8 - i,
{
    let l = held_modifiers_from(m, i);
    if i >= 8 {
        assert(l =~= Seq::<KeyCode>::empty());
        assert(c | (m & 0) == c) by (bit_vector);
    } else {
        let x = (1u8 << (i as u8)) as u8;
        lemma_single_bit(i);
        lemma_modifier_key_bit(i);
        lemma_clear_bit(c, m, x, modifier_mask_from(i + 1));
        let rest = held_modifiers_from(m, i + 1);
        if has_bit(m, i) {
            assert(l[0] == modifier_key(i));
            assert(l.drop_first() =~= rest);
            lemma_with_held_keys(c | x, m, i + 1);
        } else {
            assert(l =~= rest);
            lemma_with_held_keys(c, m, i + 1);
        }
    }
}

/// The held modifier keys name each set bit once, in bit order: as many keys
/// as bits set, no key twice, only modifier keys, exactly the keys of the set
/// bits; and adding them in turn to an empty set gives the set back.
pub proof fn law_held_keys_round_trip(m: u8)
    ensures
        held_modifiers(m).len() == ones(m),
        held_modifiers(m).no_duplicates(),
        forall|k: KeyCode| #[trigger] held_modifiers(m).contains(k) ==> is_modifier_key(k),
        forall|j: nat|
            j < 8 ==> (#[trigger] held_modifiers(m).contains(modifier_key(j)) <==> has_bit(m, j)),
        with_keys(0u8, held_modifiers(m)) == m,
{
    lemma_modifiers_listed(m, 0);
    lemma_with_held_keys(0u8, m, 0);
    lemma_full_masks();
    assert(0u8 | (m & 0xFF) == m) by (bit_vector);
    let l = held_modifiers(m);
    assert forall|j: nat| j < 8 && #[trigger] l.contains(modifier_key(j)) implies has_bit(m, j) by {
        let n = choose|n: int| 0 <= n < l.len() && l[n] == modifier_key(j);
        assert(l[n] == modifier_key(j));
    }
}

/// Two bit sets with no bit in common have as many bits together as apart.
proof fn lemma_ones_of_disjoint(a: u8, b: u8, i: nat)
    requires
        a & b == 0,
        i <= 8,
    ensures
        ones_from(a | b, i) == ones_from(a, i) + ones_from(b, i),
        ones_from(a, i) <= 8 - i,
    decreases 8 - i,
{
    if i < 8 {
        let x = (1u8 << (i as u8)) as u8;
        lemma_single_bit(i);
        assert((a | b) & x != 0 <==> (a & x != 0 || b & x != 0)) by (bit_vector);
        assert(a & b == 0 ==> !(a & x != 0 && b & x != 0)) by (bit_vector)
            requires
                x == 1 || x == 2 || x == 4 || x == 8 || x == 16 || x == 32 || x == 64 || x == 128,
        ;
        lemma_ones_of_disjoint(a, b, i + 1);
    }
}

/// A modifier change from `previous` to `current` lists one transition per
/// bit that differs, and so at most eight.
pub proof fn lemma_transition_count(previous: u8, current: u8)
    ensures
        held_modifiers(previous & !current).len() + held_modifiers(current & !previous).len()
            == ones(previous ^ current),
        ones(previous ^ current) <= 8,
{
    let a = previous & !current;
    let b = current & !previous;
    lemma_modifiers_listed(a, 0);
    lemma_modifiers_listed(b, 0);
    assert(a & b == 0 && a | b == previous ^ current) by (bit_vector)
        requires
            a == previous & !current,
            b == current & !previous,
    ;
    lemma_ones_of_disjoint(a, b, 0);
    let d = previous ^ current;
    assert(d & 0 == 0 && d | 0 == d) by (bit_vector);
    lemma_ones_of_disjoint(d, 0, 0);
}


/// The position of a button in the stable order of `MouseButton::all`.
pub open spec fn button_position(b: MouseButton) -> nat {
    match b {
        MouseButton::Left => 0,
        MouseButton::Right => 1,
        MouseButton::Middle => 2,
        MouseButton::Back => 3,
        MouseButton::Forward => 4,
    }
}

/// The buttons listed from position `i` on are each a held button at or
/// after `i`, each once, and every such button is listed; there are as many
/// as bits set from bit `i` to bit 4.
proof fn lemma_buttons_listed(b: u8, i: nat)
    requires
        i <= 5,
    ensures
        held_buttons_from(b, i).no_duplicates(),
        forall|n: int|
            #![trigger held_buttons_from(b, i)[n]]
            0 <= n < held_buttons_from(b, i).len() ==> {
                let x = held_buttons_from(b, i)[n];
                &&& i <= button_position(x) < 5
                &&& b & button_bit(x) != 0
            },
        forall|j: nat|
            i <= j < 5 && b & button_bit(button_at(j)) != 0 ==> #[trigger] held_buttons_from(
                b,
                i,
            ).contains(button_at(j)),
        held_buttons_from(b, i).len() + ones_from(b, 5) == ones_from(b, i),
    decreases 5 - i,
{
    let all = held_buttons_from(b, i);
    if i >= 5 {
        assert(all =~= Seq::<MouseButton>::empty());
    } else {
        lemma_buttons_listed(b, i + 1);
        let rest = held_buttons_from(b, i + 1);
        let k = i as u8;
        assert(k < 5 ==> (1u8 << k) as u8 == (if k == 0 { 1u8 } else if k == 1 { 2u8 } else if k
            == 2 { 4u8 } else if k == 3 { 8u8 } else { 16u8 })) by (bit_vector);
        assert(has_bit(b, i) == (b & button_bit(button_at(i)) != 0));
        if b & button_bit(button_at(i)) != 0 {
            let head = button_at(i);
            assert(all =~= seq![head] + rest);
            assert forall|p: int, q: int| 0 <= p < q < all.len() implies all[p] != all[q] by {
                assert(all[q] == rest[q - 1]);
                if p > 0 {
                    assert(all[p] == rest[p - 1]);
                }
            }
            assert forall|n: int| 0 <= n < all.len() implies {
                let x = #[trigger] all[n];
                &&& i <= button_position(x) < 5
                &&& b & button_bit(x) != 0
            } by {
                if n > 0 {
                    assert(all[n] == rest[n - 1]);
                }
            }
            assert forall|j: nat|
                i <= j < 5 && b & button_bit(button_at(j)) != 0 implies #[trigger] all.contains(
                button_at(j),
            ) by {
                if j == i {
                    assert(all[0] == head);
                } else {
                    assert(rest.contains(button_at(j)));
                    let n = choose|n: int| 0 <= n < rest.len() && rest[n] == button_at(j);
                    assert(all[n + 1] == rest[n]);
                }
            }
        } else {
            assert(all =~= rest);
        }
    }
}

/// The held buttons are exactly the buttons whose bits are set, each once,
/// as many as the bits set; so a set is empty exactly when it lists no
/// button, and no stored bit is one a release could not reach.
pub proof fn law_held_buttons_listed(b: u8)
    requires
        valid_button_bits(b),
    ensures
        held_buttons(b).len() == ones(b),
        held_buttons(b).no_duplicates(),
        forall|x: MouseButton| #[trigger] held_buttons(b).contains(x) <==> b & button_bit(x) != 0,
        held_buttons(b).len() == 0 <==> b == 0,
{
    lemma_buttons_listed(b, 0);
    let l = held_buttons(b);
    assert(b & 0xE0 == 0 ==> b & (1u8 << 5u8) as u8 == 0 && b & (1u8 << 6u8) as u8 == 0 && b & (1u8
        << 7u8) as u8 == 0) by (bit_vector);
    assert(!has_bit(b, 5) && !has_bit(b, 6) && !has_bit(b, 7));
    assert(ones_from(b, 8) == 0);
    assert(ones_from(b, 7) == 0);
    assert(ones_from(b, 6) == 0);
    assert(ones_from(b, 5) == 0);
    assert forall|x: MouseButton| #[trigger] l.contains(x) <==> b & button_bit(x) != 0 by {
        if l.contains(x) {
            let n = choose|n: int| 0 <= n < l.len() && l[n] == x;
            assert(l[n] == x);
        }
        if b & button_bit(x) != 0 {
            assert(button_at(button_position(x)) == x);
        }
    }
    assert(b & 0xE0 == 0 && b != 0 ==> b & 1 != 0 || b & 2 != 0 || b & 4 != 0 || b & 8 != 0 || b
        & 16 != 0) by (bit_vector);
    if b != 0 {
        if b & 1 != 0 {
            assert(l.contains(MouseButton::Left));
        } else if b & 2 != 0 {
            assert(l.contains(MouseButton::Right));
        } else if b & 4 != 0 {
            assert(l.contains(MouseButton::Middle));
        } else if b & 8 != 0 {
            assert(l.contains(MouseButton::Back));
        } else {
            assert(l.contains(MouseButton::Forward));
        }
    }
    if b == 0 {
        assert(0u8 & 1 == 0 && 0u8 & 2 == 0 && 0u8 & 4 == 0 && 0u8 & 8 == 0 && 0u8 & 16 == 0) by (bit_vector);
        if l.len() > 0 {
            assert(l.contains(l[0]));
        }
    }
}

} // verus!
