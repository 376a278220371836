//! Procedural generation of triangulated 3-D meshes (prisms, cylinders,
//! icosahedra, spheres) and their serialization to the STL interchange
//! format.
//!
//! Coordinates are carried as IEEE-754 single-precision bit patterns
//! (`u32`), so every coordinate travels through the library and into the
//! byte-exact STL output unchanged. Numeric work on coordinates
//! (vector arithmetic, trigonometry, rounding to text) is the caller's:
//! the library owns the mesh structure and the file layout.

pub mod geometry;
pub mod mesh;
pub mod solids;
pub mod stl;

use vstd::prelude::*;

verus! {

/// Number of segments used when a circle outline is sampled.
pub const FRAGMENTS: u32 = 32;

/// Failure kinds reported by mesh operations.
///
/// Operations that are declared by the interface but have no behaviour
/// yet report `NotImplemented` rather than silently doing nothing.
#[derive(Clone, Copy, Debug, PartialEq, Eq, Structural)]
pub enum CadError {
    NotImplemented,
}

} // verus!
