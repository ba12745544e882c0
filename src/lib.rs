//! Hardware-facing core of a small x86-64 kernel: geometry and colour types, a
//! bitmap font decoder, a framebuffer driver, a text terminal drawn on it, and the
//! policy of the exception dispatch table.

pub mod num_traits;
pub mod linalg;
pub mod colour;
pub mod screen_font;
pub mod video;
pub mod terminal_video;
pub mod gdt;
pub mod interrupts;
pub mod human_units;
