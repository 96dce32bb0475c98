//! Geometry the quadrature engine is phrased over.
//!
//! Coordinates are IEEE-754 double-precision values. The verifier does not
//! reason about such values, so this module carries each coordinate as the
//! raw 64-bit pattern of the double (`f64::to_bits` on the numeric side) and
//! never interprets it: the verified code only moves the words around. The
//! embedding binary converts at the boundary with `f64::from_bits`.

use vstd::prelude::*;

verus! {

/// A 2-D point or displacement, held as the raw bit patterns of its two
/// double-precision coordinates.
#[derive(Clone, Copy)]
pub struct Vector2 {
    pub x_bits: u64,
    pub y_bits: u64,
}

impl Vector2 {
    /// A point from the raw bits of its two coordinates.
    pub fn new(x_bits: u64, y_bits: u64) -> (v: Vector2)
        ensures
            v.x_bits == x_bits,
            v.y_bits == y_bits,
    {
        Vector2 { x_bits, y_bits }
    }

    /// The origin. The all-zero word is the bit pattern of +0.0, so both
    /// coordinates read back as exactly +0.0.
    pub fn zero() -> (v: Vector2)
        ensures
            v.x_bits == 0,
            v.y_bits == 0,
    {
        Vector2 { x_bits: 0, y_bits: 0 }
    }
}

/// The axis-aligned rectangle `[x, x + w] x [y, y + h]`, held as the raw bit
/// patterns of its origin and of its extents. Extents are expected to be
/// non-negative; the quadrature engine's division counts come from them on
/// the numeric side.
#[derive(Clone, Copy)]
pub struct AxisAlignedRect {
    pub x_bits: u64,
    pub y_bits: u64,
    pub w_bits: u64,
    pub h_bits: u64,
}

impl AxisAlignedRect {
    /// A rectangle from the raw bits of its origin and extents.
    pub fn new(x_bits: u64, y_bits: u64, w_bits: u64, h_bits: u64) -> (r: AxisAlignedRect)
        ensures
            r.x_bits == x_bits,
            r.y_bits == y_bits,
            r.w_bits == w_bits,
            r.h_bits == h_bits,
    {
        AxisAlignedRect { x_bits, y_bits, w_bits, h_bits }
    }

    /// Containment query. In this revision it reports `false` for every
    /// point, whatever the rectangle; the contract pins that behavior, and
    /// callers that want a real point-in-rectangle test must not rely on
    /// this one.
    pub fn contains(&self, _point: Vector2) -> (b: bool)
        ensures
            !b,
    {
        false
    }
}

} // verus!
