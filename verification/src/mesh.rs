//! The data model shared by every tiling generator.
//!
//! A lattice point of a uniform tiling always lies at a coordinate of the
//! form `(a + b * sqrt(2) + c * sqrt(3)) / 2` with integer `a`, `b`, `c`:
//! the unit cells combine rational offsets with edges of length `sqrt(2)`
//! and `sqrt(3)`. A [`Coord`] stores those three numerators exactly, so
//! point positions are plain integer data and generation is exact and
//! reproducible. Rendering to floating point is a consumer's concern.

use vstd::prelude::*;

verus! {

/// One coordinate, held exactly as the value
/// `(units + rt2 * sqrt(2) + rt3 * sqrt(3)) / 2`.
#[derive(Clone, Copy, PartialEq, Eq, Structural, Debug)]
pub struct Coord {
    /// Numerator of the rational part, in half units.
    pub units: i64,
    /// Numerator of the `sqrt(2)` part, in half units.
    pub rt2: i64,
    /// Numerator of the `sqrt(3)` part, in half units.
    pub rt3: i64,
}

/// A 2D lattice point with exact coordinates.
#[derive(Clone, Copy, PartialEq, Eq, Structural, Debug)]
pub struct Point {
    pub x: Coord,
    pub y: Coord,
}

/// An ordered polygon: three or more distinct flat vertex keys, wound
/// counter-clockwise in the tiling's native orientation.
pub type Face = Vec<u32>;

/// The ordered list of faces of one generated patch.
pub type FaceIndex = Vec<Face>;

/// The flat vertex list of one generated patch; the point of lattice cell
/// `(x, y)` sits at index `x + y * cols`.
pub type Points = Vec<Point>;

/// The one failure a generator can report: the requested lattice has more
/// vertices than a vertex key can index.
#[derive(Clone, Copy, PartialEq, Eq, Structural, Debug)]
pub enum TilingError {
    Overflow,
}

/// A face is well formed for a lattice of `n` vertices when every key is
/// in bounds and no key repeats.
pub open spec fn face_ok(f: Seq<u32>, n: int) -> bool {
    &&& forall|i: int| 0 <= i < f.len() ==> (#[trigger] f[i]) < n
    &&& forall|i: int, j: int| 0 <= i < j < f.len() ==> f[i] != f[j]
}

} // verus!
