//! Triangle sets: named groups of the triangles of a mesh.

use vstd::prelude::*;

verus! {

/// All triangle sets of a mesh.
#[derive(Debug, Clone, PartialEq, Eq)]
pub struct TriangleSets {
    pub trianglesets: Vec<TriangleSet>,
}

/// A named group of triangles, given by single references and inclusive ranges.
#[derive(Debug, Clone, PartialEq, Eq)]
pub struct TriangleSet {
    pub name: String,
    pub identifier: String,
    pub triangle_ref: Vec<TriangleRef>,
    pub triangle_refrange: Vec<TriangleRefRange>,
}

/// A reference to one triangle by index.
#[derive(Debug, Clone, Copy, PartialEq, Eq)]
pub struct TriangleRef {
    pub index: u32,
}

/// A reference to the triangles `startindex..=endindex`.
#[derive(Debug, Clone, Copy, PartialEq, Eq)]
pub struct TriangleRefRange {
    pub startindex: u32,
    pub endindex: u32,
}

} // verus!
