//! Windows mouse and keyboard messages seen by a low-level hook.

use vstd::prelude::*;

verus! {

/// `WM_MOUSEMOVE`
pub const MOUSEMOVE: u32 = 0x0200;
/// `WM_LBUTTONDOWN`
pub const LBUTTONDOWN: u32 = 0x0201;
/// `WM_LBUTTONUP`
pub const LBUTTONUP: u32 = 0x0202;
/// `WM_RBUTTONDOWN`
pub const RBUTTONDOWN: u32 = 0x0204;
/// `WM_RBUTTONUP`
pub const RBUTTONUP: u32 = 0x0205;
/// `WM_MBUTTONDOWN`
pub const MBUTTONDOWN: u32 = 0x0207;
/// `WM_MBUTTONUP`
pub const MBUTTONUP: u32 = 0x0208;
/// `WM_MOUSEWHEEL`
pub const MOUSEWHEEL: u32 = 0x020A;
/// `WM_XBUTTONDOWN`
pub const XBUTTONDOWN: u32 = 0x020B;
/// `WM_XBUTTONUP`
pub const XBUTTONUP: u32 = 0x020C;
/// `WM_MOUSEHWHEEL`
pub const MOUSEHWHEEL: u32 = 0x020E;
/// `WM_KEYDOWN`
pub const KEYDOWN: u32 = 0x0100;
/// `WM_KEYUP`
pub const KEYUP: u32 = 0x0101;
/// `WM_SYSKEYDOWN` — a key pressed while Alt is held, or F10. Handled
/// alongside `WM_KEYDOWN`, or every Alt combination is invisible to capture.
pub const SYSKEYDOWN: u32 = 0x0104;
/// `WM_SYSKEYUP`
pub const SYSKEYUP: u32 = 0x0105;

} // verus!
