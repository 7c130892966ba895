//! Windows input conversion: pure logic over plain Win32 hook values.

pub mod convert;
pub mod keymap;
pub mod hook;
pub mod send;
