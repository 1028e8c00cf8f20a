//! Small integer vectors and the raw 32-bit float pattern carried by the
//! packets.

use vstd::prelude::*;

verus! {

/// A point or displacement on the field, in field units.
#[derive(Debug, Clone, Copy, Default, PartialEq, Eq, Hash, Structural)]
pub struct I16Vec2 {
    pub x: i16,
    pub y: i16,
}

/// A three-axis reading.
#[derive(Debug, Clone, Copy, Default, PartialEq, Eq, Hash, Structural)]
pub struct I16Vec3 {
    pub x: i16,
    pub y: i16,
    pub z: i16,
}

/// A quaternion reading, `x, y, z, w` in memory.
#[derive(Debug, Clone, Copy, Default, PartialEq, Eq, Hash, Structural)]
pub struct I16Vec4 {
    pub x: i16,
    pub y: i16,
    pub z: i16,
    pub w: i16,
}

/// The IEEE-754 bit pattern of a 32-bit float. The packets carry floats
/// untouched, so the pattern is all the codec needs.
#[derive(Debug, Clone, Copy, Default, PartialEq, Eq, Hash, Structural)]
pub struct F32Bits {
    pub bits: u32,
}

impl I16Vec2 {
    pub fn new(x: i16, y: i16) -> (v: Self)
        ensures
            v == (I16Vec2 { x, y }),
    {
        I16Vec2 { x, y }
    }
}

impl I16Vec3 {
    pub fn new(x: i16, y: i16, z: i16) -> (v: Self)
        ensures
            v == (I16Vec3 { x, y, z }),
    {
        I16Vec3 { x, y, z }
    }
}

impl I16Vec4 {
    pub fn new(x: i16, y: i16, z: i16, w: i16) -> (v: Self)
        ensures
            v == (I16Vec4 { x, y, z, w }),
    {
        I16Vec4 { x, y, z, w }
    }
}

impl F32Bits {
    pub fn from_bits(bits: u32) -> (v: Self)
        ensures
            v.bits == bits,
    {
        F32Bits { bits }
    }

    pub fn to_bits(self) -> (bits: u32)
        ensures
            bits == self.bits,
    {
        self.bits
    }
}

} // verus!
