//! Tile picking for a hex map, and the GPU resource planning it rests on.
//!
//! The library decides *what* is sent to the graphics context and *how* a
//! read-back pixel is understood; it never talks to the context itself.
//! Every operation that would touch the GPU is returned as a [`gl_helpers::GlCall`]
//! value, in the order in which the calls have to be issued.

pub mod context;
pub mod gl_helpers;
pub mod mesh;
pub mod number;
pub mod obj;
pub mod text;
pub mod tile_picker;
pub mod types;
