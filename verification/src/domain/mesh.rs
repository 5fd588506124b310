//! Triangle meshes.

use vstd::prelude::*;

use crate::domain::beamlattice::BeamLattice;
use crate::domain::triangle_set::TriangleSets;
use crate::types::{Double, OptionalResourceId, OptionalResourceIndex};

verus! {

/// A triangle mesh with optional triangle sets and beam lattice.
#[derive(Debug, Clone, PartialEq, Eq)]
pub struct Mesh {
    pub vertices: Vertices,
    pub triangles: Triangles,
    pub trianglesets: Option<TriangleSets>,
    pub beamlattice: Option<BeamLattice>,
}

/// The vertices of a mesh.
#[derive(Debug, Clone, PartialEq, Eq)]
pub struct Vertices {
    pub vertex: Vec<Vertex>,
}

/// A vertex position.
#[derive(Debug, Clone, Copy, PartialEq, Eq)]
pub struct Vertex {
    pub x: Double,
    pub y: Double,
    pub z: Double,
}

/// The triangles of a mesh.
#[derive(Debug, Clone, PartialEq, Eq)]
pub struct Triangles {
    pub triangle: Vec<Triangle>,
}

/// A triangle given by three vertex indices, with optional property references.
#[derive(Debug, Clone, Copy, PartialEq, Eq)]
pub struct Triangle {
    pub v1: u32,
    pub v2: u32,
    pub v3: u32,
    pub p1: OptionalResourceIndex,
    pub p2: OptionalResourceIndex,
    pub p3: OptionalResourceIndex,
    pub pid: OptionalResourceId,
}

} // verus!
