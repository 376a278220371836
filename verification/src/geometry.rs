//! Points, colours and triangular faces.
//!
//! A `Point` holds one IEEE-754 single-precision bit pattern per axis.
//! The same representation serves positions and displacement vectors.
//! The library never interprets the patterns numerically; it moves them
//! between faces, meshes and serialized bytes unchanged.

use vstd::prelude::*;

verus! {

/// Bit pattern of single-precision `1.0`, used for the placeholder normal.
pub const ONE_BITS: u32 = 0x3F80_0000;

/// Bit pattern of single-precision `0.0`.
pub const ZERO_BITS: u32 = 0;

/// A point (or displacement vector) in 3-D space; each axis is the bit
/// pattern of a single-precision number.
#[derive(Clone, Copy, Debug, PartialEq, Eq, Structural)]
pub struct Point {
    pub x: u32,
    pub y: u32,
    pub z: u32,
}

impl Point {
    /// Create a new point with the given per-axis bit patterns.
    pub fn new(x: u32, y: u32, z: u32) -> (r: Point)
        ensures
            r == (Point { x, y, z }),
    {
        Point { x, y, z }
    }
}

/// One colour channel per byte; the default "unset" colour is all zero.
#[derive(Clone, Copy, Debug, PartialEq, Eq, Structural)]
pub struct Colour {
    pub r: u8,
    pub g: u8,
    pub b: u8,
    pub alpha: u8,
}

impl Colour {
    /// The "unset" colour carried by every newly built face.
    pub open spec fn spec_unset() -> Colour {
        Colour { r: 0, g: 0, b: 0, alpha: 0 }
    }

    /// The "unset" colour carried by every newly built face.
    pub fn unset() -> (r: Colour)
        ensures
            r == Colour::spec_unset(),
    {
        Colour { r: 0, g: 0, b: 0, alpha: 0 }
    }
}

/// One triangle: three vertices, a normal and a colour. The vertex order
/// defines the winding, and with it which side of the triangle faces
/// outward.
#[derive(Clone, Copy, Debug, PartialEq, Eq, Structural)]
pub struct Face {
    pub normal: Point,
    pub v0: Point,
    pub v1: Point,
    pub v2: Point,
    pub colour: Colour,
}

impl Face {
    /// The placeholder normal given to every face: the upward unit vector,
    /// regardless of the actual triangle orientation.
    pub open spec fn spec_placeholder_normal() -> Point {
        Point { x: ZERO_BITS, y: ZERO_BITS, z: ONE_BITS }
    }

    /// The face built from three vertices: placeholder normal, unset colour.
    pub open spec fn spec_new(p1: Point, p2: Point, p3: Point) -> Face {
        Face {
            normal: Face::spec_placeholder_normal(),
            v0: p1,
            v1: p2,
            v2: p3,
            colour: Colour::spec_unset(),
        }
    }

    /// The same face with the second and third vertices swapped, which
    /// reverses the winding.
    pub open spec fn spec_invert(self) -> Face {
        Face { normal: self.normal, v0: self.v0, v1: self.v2, v2: self.v1, colour: self.colour }
    }

    /// Build a face from three vertices. The normal is the constant
    /// placeholder, not derived from the vertices; the colour is unset.
    pub fn new(p1: Point, p2: Point, p3: Point) -> (r: Face)
        ensures
            r == Face::spec_new(p1, p2, p3),
    {
        Face {
            normal: Point { x: ZERO_BITS, y: ZERO_BITS, z: ONE_BITS },
            v0: p1,
            v1: p2,
            v2: p3,
            colour: Colour::unset(),
        }
    }

    /// Swap the second and third vertices so the winding (and with it the
    /// outward side) is reversed. The stored normal is left untouched.
    pub fn invert(&mut self)
        ensures
            *final(self) == old(self).spec_invert(),
    {
        let swapped = self.v1;
        self.v1 = self.v2;
        self.v2 = swapped;
    }

    /// Whether the face touches `p`, that is, has `p` among its vertices.
    pub open spec fn touches(self, p: Point) -> bool {
        self.v0 == p || self.v1 == p || self.v2 == p
    }
}

} // verus!
