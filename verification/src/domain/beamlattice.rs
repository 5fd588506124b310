//! The beam lattice extension: beams and balls between mesh vertices.

use vstd::prelude::*;

use crate::types::{Double, OptionalResourceId, OptionalResourceIndex};

verus! {

/// How balls are placed at the vertices of a lattice.
#[derive(Debug, Clone, Copy, PartialEq, Eq, Structural)]
pub enum BallMode {
    NoBalls,
    Mixed,
    All,
}

/// How the lattice is clipped by the clipping mesh.
#[derive(Debug, Clone, Copy, PartialEq, Eq, Structural)]
pub enum ClippingMode {
    NoClipping,
    Inside,
    Outside,
}

/// The shape of a beam end.
#[derive(Debug, Clone, Copy, PartialEq, Eq, Structural)]
pub enum CapMode {
    Sphere,
    Hemisphere,
    Butt,
}

/// A beam lattice attached to a mesh.
#[derive(Debug, Clone, PartialEq, Eq)]
pub struct BeamLattice {
    pub minlength: Double,
    pub radius: Double,
    pub ballmode: Option<BallMode>,
    pub ballradius: Option<Double>,
    pub clippingmode: Option<ClippingMode>,
    pub clippingmesh: OptionalResourceId,
    pub representationmesh: OptionalResourceId,
    pub pid: OptionalResourceId,
    pub pindex: OptionalResourceIndex,
    pub cap: Option<CapMode>,
    pub beams: Beams,
    pub balls: Option<Balls>,
    pub beamsets: Option<BeamSets>,
}

/// The beams of a lattice.
#[derive(Debug, Clone, PartialEq, Eq)]
pub struct Beams {
    pub beam: Vec<Beam>,
}

/// A beam between two vertices.
#[derive(Debug, Clone, Copy, PartialEq, Eq)]
pub struct Beam {
    pub v1: u32,
    pub v2: u32,
    pub r1: Option<Double>,
    pub r2: Option<Double>,
    pub p1: OptionalResourceIndex,
    pub p2: OptionalResourceIndex,
    pub pid: OptionalResourceId,
    pub cap1: Option<CapMode>,
    pub cap2: Option<CapMode>,
}

/// The balls of a lattice.
#[derive(Debug, Clone, PartialEq, Eq)]
pub struct Balls {
    pub ball: Vec<Ball>,
}

/// A ball centered at a vertex.
#[derive(Debug, Clone, Copy, PartialEq, Eq)]
pub struct Ball {
    pub vindex: u32,
    pub r: Option<Double>,
    pub p: OptionalResourceIndex,
    pub pid: OptionalResourceId,
}

/// The beam sets of a lattice.
#[derive(Debug, Clone, PartialEq, Eq)]
pub struct BeamSets {
    pub beamset: Vec<BeamSet>,
}

/// A named group of beams and balls.
#[derive(Debug, Clone, PartialEq, Eq)]
pub struct BeamSet {
    pub name: Option<String>,
    pub identifier: Option<String>,
    pub refs: Vec<BeamRef>,
    pub ballref: Vec<BallRef>,
}

/// A reference to a beam by index.
#[derive(Debug, Clone, Copy, PartialEq, Eq)]
pub struct BeamRef {
    pub index: u32,
}

/// A reference to a ball by index.
#[derive(Debug, Clone, Copy, PartialEq, Eq)]
pub struct BallRef {
    pub index: u32,
}

} // verus!
