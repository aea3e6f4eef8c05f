//! Output devices: the text-mode screen and the serial line.

pub mod serial;
pub mod vga;
