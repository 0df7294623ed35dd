//! Verified core of a small offline ray tracer.
//!
//! The renderer's floating-point front end (vector algebra, camera rays,
//! sphere intersection arithmetic, shading) lives outside this crate; what
//! is verified here is the discrete heart of the pipeline: the acceptance
//! window and nearest-hit selection of the scene-intersection protocol,
//! carried out over order-preserving integer encodings of the ray
//! parameters, and the raster of 8-bit RGB pixels that the renderer fills
//! and hands to the image sink.

use vstd::prelude::*;

pub mod frame;
pub mod intersect;

verus! {

/// One of the three components of a 3-vector.
#[derive(Clone, Copy, Debug, PartialEq, Eq, Structural)]
pub enum Axis {
    X,
    Y,
    Z,
}

impl Axis {
    /// Position of this component inside a 3-vector.
    pub open spec fn index_spec(self) -> int {
        match self {
            Axis::X => 0,
            Axis::Y => 1,
            Axis::Z => 2,
        }
    }

    /// Position of this component inside a 3-vector.
    pub fn index(self) -> (i: usize)
        ensures
            i == self.index_spec(),
    {
        match self {
            Axis::X => 0,
            Axis::Y => 1,
            Axis::Z => 2,
        }
    }
}

} // verus!
