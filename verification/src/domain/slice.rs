//! The slice extension: stacks of 2D layers.

use vstd::prelude::*;

use crate::types::{Double, OptionalResourceId, OptionalResourceIndex};

verus! {

/// Which geometry of an object is authoritative when slices are present.
#[derive(Debug, Clone, Copy, PartialEq, Eq, Structural)]
pub enum MeshResolution {
    FullRes,
    LowRes,
}

/// A stack of slices, or of references to slice stacks in other model files.
#[derive(Debug, Clone, PartialEq, Eq)]
pub struct SliceStack {
    pub id: u32,
    pub zbottom: Option<Double>,
    pub slice: Vec<Slice>,
    pub sliceref: Vec<SliceRef>,
}

impl SliceStack {
    /// True if the stack holds slices of its own.
    pub open spec fn spec_has_owned_slices(&self) -> bool {
        self.slice.len() > 0
    }

    /// True if the stack holds slices of its own.
    pub fn has_owned_slices(&self) -> (r: bool)
        ensures
            r == self.spec_has_owned_slices(),
    {
        self.slice.len() > 0
    }
}

/// A reference to a slice stack in another model file.
#[derive(Debug, Clone, PartialEq, Eq)]
pub struct SliceRef {
    pub slicestackid: u32,
    pub slicepath: String,
}

/// A 2D layer at height `ztop`.
#[derive(Debug, Clone, PartialEq, Eq)]
pub struct Slice {
    pub ztop: Double,
    pub vertices: Option<Vertices>,
    pub polygon: Vec<Polygon>,
}

/// The vertices of a slice.
#[derive(Debug, Clone, PartialEq, Eq)]
pub struct Vertices {
    pub vertex: Vec<Vertex>,
}

/// A 2D vertex.
#[derive(Debug, Clone, Copy, PartialEq, Eq)]
pub struct Vertex {
    pub x: Double,
    pub y: Double,
}

/// A contour starting at vertex `startv`, continued by its segments.
#[derive(Debug, Clone, PartialEq, Eq)]
pub struct Polygon {
    pub startv: u32,
    pub segment: Vec<Segment>,
}

/// A segment from the previous vertex of the polygon to `v2`.
#[derive(Debug, Clone, Copy, PartialEq, Eq)]
pub struct Segment {
    pub v2: u32,
    pub p1: OptionalResourceIndex,
    pub p2: OptionalResourceIndex,
    pub pid: OptionalResourceId,
}

} // verus!
