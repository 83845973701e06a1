//! Rendering of a binary pixel matrix, such as a QR code, as terminal text.
//!
//! Terminal character cells are about twice as tall as they are wide, so each
//! output character stands for two vertically stacked pixels, drawn with the
//! Unicode half-block glyphs.

use vstd::prelude::*;

pub mod image;
pub mod shape;

verus! {

} // verus!
