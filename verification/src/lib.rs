//! Draw targets for a handheld console's video memory.
//!
//! Two surfaces are modelled: the linear 240x160 bitmap of sixteen-bit
//! colours, and the 8x8 tile of palette indices packed four to a word. Every
//! function is verified against a contract over a mathematical view of the
//! surface it writes.

pub mod color;
pub mod cursor;
pub mod display;
pub mod geometry;
pub mod hud;
pub mod palette;
pub mod render;
pub mod sprite;
pub mod sync;
pub mod tile;
