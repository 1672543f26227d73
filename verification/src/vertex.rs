//! The drawable vertex: a position and a color, in fixed-point scalars.
//! A renderer converts these to its own vertex layout at upload time.

use crate::point::Point3;
use vstd::prelude::*;

verus! {

/// An RGB color with fixed-point channels; one is full intensity.
#[derive(Clone, Copy, Debug, PartialEq, Eq, Structural)]
pub struct Color3 {
    /// Red channel.
    pub r: i64,
    /// Green channel.
    pub g: i64,
    /// Blue channel.
    pub b: i64,
}

/// A drawable vertex: position and color.
#[derive(Clone, Copy, Debug, PartialEq, Eq, Structural)]
pub struct Vertex {
    /// The vertex position.
    pub position: Point3,
    /// The vertex color.
    pub color: Color3,
}

} // verus!
