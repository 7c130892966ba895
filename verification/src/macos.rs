//! macOS input conversion: pure logic over plain CoreGraphics field values.

pub mod convert;
pub mod keymap;
pub mod tap;
pub mod post;
