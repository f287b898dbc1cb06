//! A verified text-mode display writer for a fixed character grid.
//!
//! The writer renders a stream of bytes into a row/column grid of
//! glyph/attribute cells, wrapping at the right padding boundary and
//! scrolling the writable region once it has filled. Every grid access
//! goes through a volatile cell so stores are never elided or reordered.

pub mod color;
pub mod screen;
pub mod vga_buffer;
pub mod laws;

pub use color::Color;
pub use color::ColorCode;
pub use vga_buffer::ScreenChar;
pub use vga_buffer::Writer;
