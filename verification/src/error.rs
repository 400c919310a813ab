//! The ways in which a geometric input can be unusable.

use vstd::prelude::*;

verus! {

/// Why a bounding box, a size or a value derived from them was rejected.
#[derive(Clone, Copy, Debug, PartialEq, Eq, Structural)]
pub enum InvalidGeometry {
    /// A list of numbers does not have the number of entries that its meaning asks for.
    WrongCardinality,
    /// A bounding box is empty on some axis, or a raster or a tile has a side of zero pixels.
    ZeroExtent,
    /// A size that was computed for a canvas or for a channel has a side of zero pixels.
    ZeroTarget,
    /// A computed size or position does not fit the 32-bit coordinates of a raster.
    TooLarge,
}

impl InvalidGeometry {
    /// A one-line description for diagnostics.
    pub fn message(&self) -> (text: &'static str)
        ensures
            text@ == (match *self {
                InvalidGeometry::WrongCardinality => "wrong number of values"@,
                InvalidGeometry::ZeroExtent => "empty extent"@,
                InvalidGeometry::ZeroTarget => "computed size is empty"@,
                InvalidGeometry::TooLarge => "computed size is too large"@,
            }),
    {
        match self {
            InvalidGeometry::WrongCardinality => "wrong number of values",
            InvalidGeometry::ZeroExtent => "empty extent",
            InvalidGeometry::ZeroTarget => "computed size is empty",
            InvalidGeometry::TooLarge => "computed size is too large",
        }
    }
}

} // verus!
