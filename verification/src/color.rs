//! Flat colors for the segmentation pass.
//!
//! Every object class is painted with a unique opaque color, so a
//! flat-shaded render doubles as an exact per-pixel class mask. Index 0 of
//! the registry is reserved for the fully transparent background color.

use vstd::prelude::*;

verus! {

/// An 8-bit RGBA color.
#[derive(Clone, Copy, PartialEq, Eq, Structural, Debug, Hash)]
pub struct Rgba {
    pub r: u8,
    pub g: u8,
    pub b: u8,
    pub a: u8,
}

/// The reserved background color: fully transparent black.
pub open spec fn background_color() -> Rgba {
    Rgba { r: 0, g: 0, b: 0, a: 0 }
}

impl Rgba {
    /// The color reserved for the "unlabeled" entry of the registry.
    pub fn background() -> (c: Rgba)
        ensures
            c == background_color(),
    {
        Rgba { r: 0, g: 0, b: 0, a: 0 }
    }
}

/// Relies on rand::random::<u8>: draws one byte from the thread-local
/// generator; nothing is promised of the value.
#[verifier::external_body]
fn random_byte() -> u8 {
    rand::random()
}

/// Draws a random fully opaque color.
pub fn random_color() -> (c: Rgba)
    ensures
        c.a == 255,
{
    Rgba { r: random_byte(), g: random_byte(), b: random_byte(), a: 255 }
}

} // verus!
