//! Small unit-bearing wrappers for quantities the simulation passes around.

use vstd::prelude::*;

verus! {

/// A span of time in milliseconds.  Frame times handed to the simulation are
/// carried in this type; a negative span is treated by the simulation as
/// zero elapsed time.
#[derive(Clone, Copy, Debug, PartialEq, Eq, Structural)]
pub struct Millis(pub i64);

/// A whole-pixel quantity as it appears on screen.
#[derive(Clone, Copy, Debug, PartialEq, Eq, Structural)]
pub struct Pixel(pub i32);

/// Conversion of a unit-bearing quantity to whole screen pixels.
pub trait AsPixel {
    fn to_pixel(&self) -> Pixel;
}

impl AsPixel for Pixel {
    fn to_pixel(&self) -> (p: Pixel)
        ensures
            p == *self,
    {
        *self
    }
}

} // verus!
