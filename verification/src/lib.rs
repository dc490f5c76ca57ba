//! Pixel graphics for character terminals: a canvas of colors with raster
//! primitives, a frame renderer that maps pairs of pixel rows onto half-block
//! glyphs, and a decoder for terminal keyboard and mouse input.
//!
//! The library computes and decides; it touches no terminal. What it is
//! handed are plain values, such as the bytes that were read and the size
//! that the screen has, and what it hands back are the bytes to write and the
//! events to publish.

pub mod math;
pub mod line;
pub mod ellipse;
pub mod img;
pub mod palette;
pub mod cursor;
pub mod numeric;
pub mod input;
pub mod rds;
pub mod terminal;
