use vstd::prelude::*;

verus! {

/// A binary64 number, carried as its IEEE 754 bit pattern.
///
/// The library moves coordinates around and never computes with them, so a
/// `Float` is compared bit for bit: `0.0` and `-0.0` are different values here,
/// and a NaN equals itself.
#[derive(Clone, Copy, Debug, PartialEq, Eq, Structural)]
pub struct Float {
    pub bits: u64,
}

/// The bit pattern of `1.0`.
pub const ONE_BITS: u64 = 0x3FF0_0000_0000_0000;

/// The bit pattern of `-1.0`.
pub const MINUS_ONE_BITS: u64 = 0xBFF0_0000_0000_0000;

impl Float {
    /// The number whose bit pattern is `bits`.
    pub fn from_bits(bits: u64) -> (value: Float)
        ensures
            value == (Float { bits }),
    {
        Float { bits }
    }

    /// The bit pattern of this number.
    pub fn to_bits(self) -> (bits: u64)
        ensures
            bits == self.bits,
    {
        self.bits
    }
}

/// A position or a displacement in the plane.
#[derive(Clone, Copy, Debug, PartialEq, Eq, Structural)]
pub struct Vec2 {
    pub x: Float,
    pub y: Float,
}

impl Vec2 {
    /// The vector whose components have the given bit patterns.
    pub open spec fn of_bits(x: u64, y: u64) -> Vec2 {
        Vec2 { x: Float { bits: x }, y: Float { bits: y } }
    }

    pub fn new(x: Float, y: Float) -> (v: Vec2)
        ensures
            v == (Vec2 { x, y }),
    {
        Vec2 { x, y }
    }

    /// The unit vector along the positive x axis, `(1, 0)`.
    pub fn right() -> (v: Vec2)
        ensures
            v == Vec2::of_bits(ONE_BITS, 0),
    {
        Vec2 { x: Float { bits: ONE_BITS }, y: Float { bits: 0 } }
    }

    /// The unit vector along the positive y axis, `(0, 1)`.
    pub fn up() -> (v: Vec2)
        ensures
            v == Vec2::of_bits(0, ONE_BITS),
    {
        Vec2 { x: Float { bits: 0 }, y: Float { bits: ONE_BITS } }
    }

    /// The unit vector along the negative x axis, `(-1, 0)`.
    pub fn left() -> (v: Vec2)
        ensures
            v == Vec2::of_bits(MINUS_ONE_BITS, 0),
    {
        Vec2 { x: Float { bits: MINUS_ONE_BITS }, y: Float { bits: 0 } }
    }

    /// The unit vector along the negative y axis, `(0, -1)`.
    pub fn down() -> (v: Vec2)
        ensures
            v == Vec2::of_bits(0, MINUS_ONE_BITS),
    {
        Vec2 { x: Float { bits: 0 }, y: Float { bits: MINUS_ONE_BITS } }
    }

    /// The origin, `(0, 0)`.
    pub fn zero() -> (v: Vec2)
        ensures
            v == Vec2::of_bits(0, 0),
    {
        Vec2 { x: Float { bits: 0 }, y: Float { bits: 0 } }
    }
}

} // verus!
