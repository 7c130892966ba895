//! Named keys the rest of the system refers to directly.
//!
//! Not exhaustive: an arbitrary key is a [`KeyCode::keyboard`] call. These are
//! the keys with behavioural meaning — the modifiers — and the ones used in
//! tests.

use vstd::prelude::*;

use super::KeyCode;

verus! {

/// `A`.
pub fn a() -> (k: KeyCode)
    ensures
        k.page == 0x07 && k.usage == 0x04,
{
    KeyCode { page: 0x07, usage: 0x04 }
}

/// `C`.
pub fn c() -> (k: KeyCode)
    ensures
        k.page == 0x07 && k.usage == 0x06,
{
    KeyCode { page: 0x07, usage: 0x06 }
}

/// `Q`.
pub fn q() -> (k: KeyCode)
    ensures
        k.page == 0x07 && k.usage == 0x14,
{
    KeyCode { page: 0x07, usage: 0x14 }
}

/// `V`.
pub fn v() -> (k: KeyCode)
    ensures
        k.page == 0x07 && k.usage == 0x19,
{
    KeyCode { page: 0x07, usage: 0x19 }
}

/// `Z`.
pub fn z() -> (k: KeyCode)
    ensures
        k.page == 0x07 && k.usage == 0x1D,
{
    KeyCode { page: 0x07, usage: 0x1D }
}

/// Return / Enter.
pub fn enter() -> (k: KeyCode)
    ensures
        k.page == 0x07 && k.usage == 0x28,
{
    KeyCode { page: 0x07, usage: 0x28 }
}

/// Escape.
pub fn escape() -> (k: KeyCode)
    ensures
        k.page == 0x07 && k.usage == 0x29,
{
    KeyCode { page: 0x07, usage: 0x29 }
}

/// Tab.
pub fn tab() -> (k: KeyCode)
    ensures
        k.page == 0x07 && k.usage == 0x2B,
{
    KeyCode { page: 0x07, usage: 0x2B }
}

/// Space.
pub fn space() -> (k: KeyCode)
    ensures
        k.page == 0x07 && k.usage == 0x2C,
{
    KeyCode { page: 0x07, usage: 0x2C }
}

/// Caps Lock, a locking key rather than a modifier.
pub fn caps_lock() -> (k: KeyCode)
    ensures
        k.page == 0x07 && k.usage == 0x39,
{
    KeyCode { page: 0x07, usage: 0x39 }
}

/// F1.
pub fn f1() -> (k: KeyCode)
    ensures
        k.page == 0x07 && k.usage == 0x3A,
{
    KeyCode { page: 0x07, usage: 0x3A }
}

/// Left Control.
pub fn left_ctrl() -> (k: KeyCode)
    ensures
        k.page == 0x07 && k.usage == 0xE0,
{
    KeyCode { page: 0x07, usage: 0xE0 }
}

/// Left Shift.
pub fn left_shift() -> (k: KeyCode)
    ensures
        k.page == 0x07 && k.usage == 0xE1,
{
    KeyCode { page: 0x07, usage: 0xE1 }
}

/// Left Alt / Option.
pub fn left_alt() -> (k: KeyCode)
    ensures
        k.page == 0x07 && k.usage == 0xE2,
{
    KeyCode { page: 0x07, usage: 0xE2 }
}

/// Left Meta: Command on macOS, Windows key on Windows.
pub fn left_meta() -> (k: KeyCode)
    ensures
        k.page == 0x07 && k.usage == 0xE3,
{
    KeyCode { page: 0x07, usage: 0xE3 }
}

/// Right Control.
pub fn right_ctrl() -> (k: KeyCode)
    ensures
        k.page == 0x07 && k.usage == 0xE4,
{
    KeyCode { page: 0x07, usage: 0xE4 }
}

/// Right Shift.
pub fn right_shift() -> (k: KeyCode)
    ensures
        k.page == 0x07 && k.usage == 0xE5,
{
    KeyCode { page: 0x07, usage: 0xE5 }
}

/// Right Alt / AltGr.
pub fn right_alt() -> (k: KeyCode)
    ensures
        k.page == 0x07 && k.usage == 0xE6,
{
    KeyCode { page: 0x07, usage: 0xE6 }
}

/// Right Meta.
pub fn right_meta() -> (k: KeyCode)
    ensures
        k.page == 0x07 && k.usage == 0xE7,
{
    KeyCode { page: 0x07, usage: 0xE7 }
}

/// Play/pause.
pub fn media_play_pause() -> (k: KeyCode)
    ensures
        k.page == 0x0C && k.usage == 0xCD,
{
    KeyCode { page: 0x0C, usage: 0xCD }
}

/// Volume up.
pub fn volume_up() -> (k: KeyCode)
    ensures
        k.page == 0x0C && k.usage == 0xE9,
{
    KeyCode { page: 0x0C, usage: 0xE9 }
}

/// Mute.
pub fn mute() -> (k: KeyCode)
    ensures
        k.page == 0x0C && k.usage == 0xE2,
{
    KeyCode { page: 0x0C, usage: 0xE2 }
}

/// Every modifier, in HID bit order: modifier `i` has usage `0xE0 + i`.
pub fn modifiers() -> (m: [KeyCode; 8])
    ensures
        forall|i: int| 0 <= i < 8 ==> #[trigger] m[i] == (KeyCode { page: 0x07, usage: (0xE0 + i) as u16 }),
{
    [left_ctrl(), left_shift(), left_alt(), left_meta(), right_ctrl(), right_shift(), right_alt(), right_meta()]
}

} // verus!
