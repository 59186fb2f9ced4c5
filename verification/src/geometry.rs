//! Fixed-point scalar and vector types shared by the whole gizmo.

use vstd::prelude::*;

verus! {

/// One whole unit — a world unit, a second, a pixel, a full colour channel —
/// counted in thousandths.
pub const MILLI: i64 = 1000;

/// The finer scale of emitted world-space points: millionths of a unit.
pub const MICRO: i64 = 1000000;

/// A two-component fixed-point vector (screen positions, mouse deltas).
#[derive(Clone, Copy, PartialEq, Eq, Structural, Debug)]
pub struct Vec2Fix {
    pub x: i64,
    pub y: i64,
}

/// A three-component fixed-point vector (world points and directions).
#[derive(Clone, Copy, PartialEq, Eq, Structural, Debug)]
pub struct Vec3Fix {
    pub x: i64,
    pub y: i64,
    pub z: i64,
}

/// A colour with each channel in thousandths of full intensity.
#[derive(Clone, Copy, PartialEq, Eq, Structural, Debug)]
pub struct Rgba {
    pub red: i64,
    pub green: i64,
    pub blue: i64,
    pub alpha: i64,
}

impl Rgba {
    /// The same colour with the alpha channel replaced.
    pub fn with_alpha(self, alpha: i64) -> (r: Rgba)
        ensures
            r == (Rgba { alpha, ..self }),
    {
        Rgba { alpha, ..self }
    }
}

} // verus!
