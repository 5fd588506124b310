//! Builders of geometry: meshes, displacement meshes and beam lattices.

use vstd::prelude::*;

use crate::builder::ids::ObjectId;
use crate::builder::leaf_builders::{
    default_ball, default_beam, plain_displacement_triangle, plain_triangle, BallBuilder, BeamBuilder, BeamSetBuilder, DisplacementTriangleBuilder, TriangleBuilder,
    TriangleSetsBuilder,
};
use crate::domain::beamlattice::{
    Ball, BallMode, Balls, Beam, BeamLattice, BeamSet, BeamSets, Beams, CapMode, ClippingMode,
};
use crate::domain::displacement;
use crate::domain::mesh::{Mesh, Triangle, Triangles, Vertex, Vertices};
use crate::domain::triangle_set::TriangleSet;
use crate::types::{Double, OptionalResourceId, OptionalResourceIndex, ResourceId, ResourceIndex};

verus! {

/// The bits of the double 0.0001, the default minimum length and radius of beams.
pub const DEFAULT_BEAM_LENGTH_BITS: u64 = 0x3F1A36E2EB1C432D;

// ---------------------------------------------------------------------------------------
// Beam lattices
// ---------------------------------------------------------------------------------------

/// The balls of a lattice; none where it has no balls.
pub open spec fn lattice_balls(l: BeamLattice) -> Seq<Ball> {
    match l.balls {
        Some(b) => b.ball@,
        None => Seq::empty(),
    }
}

/// The beam sets of a lattice; none where it has no beam sets.
pub open spec fn lattice_beamsets(l: BeamLattice) -> Seq<BeamSet> {
    match l.beamsets {
        Some(b) => b.beamset@,
        None => Seq::empty(),
    }
}

/// A lattice as a new builder makes it: lengths and radii 0.0001, nothing else set and
/// nothing added.
pub open spec fn fresh_lattice(l: BeamLattice) -> bool {
    &&& l.minlength == (Double { bits: DEFAULT_BEAM_LENGTH_BITS })
    &&& l.radius == (Double { bits: DEFAULT_BEAM_LENGTH_BITS })
    &&& l.ballmode is None
    &&& l.ballradius is None
    &&& l.clippingmode is None
    &&& l.clippingmesh.value is None
    &&& l.representationmesh.value is None
    &&& l.pid.value is None
    &&& l.pindex.value is None
    &&& l.cap is None
    &&& l.beams.beam@.len() == 0
    &&& l.balls is None
    &&& l.beamsets is None
}

/// Configures the beam lattice of a mesh.
pub struct BeamLatticeBuilder {
    minlength: Option<Double>,
    radius: Option<Double>,
    ballmode: Option<BallMode>,
    ballradius: Option<Double>,
    clippingmode: Option<ClippingMode>,
    clippingmesh: OptionalResourceId,
    representationmesh: OptionalResourceId,
    pid: OptionalResourceId,
    pindex: OptionalResourceIndex,
    cap: Option<CapMode>,
    beams: Vec<Beam>,
    balls: Vec<Ball>,
    beamsets: Vec<BeamSet>,
}

impl View for BeamLatticeBuilder {
    type V = BeamLattice;

    /// The lattice that the builder makes: lengths and radii default to 0.0001, and
    /// balls and beam sets are absent where none were added.
    closed spec fn view(&self) -> BeamLattice {
        BeamLattice {
            minlength: match self.minlength {
                Some(d) => d,
                None => Double { bits: DEFAULT_BEAM_LENGTH_BITS },
            },
            radius: match self.radius {
                Some(d) => d,
                None => Double { bits: DEFAULT_BEAM_LENGTH_BITS },
            },
            ballmode: self.ballmode,
            ballradius: self.ballradius,
            clippingmode: self.clippingmode,
            clippingmesh: self.clippingmesh,
            representationmesh: self.representationmesh,
            pid: self.pid,
            pindex: self.pindex,
            cap: self.cap,
            beams: Beams { beam: self.beams },
            balls: if self.balls@.len() == 0 {
                None
            } else {
                Some(Balls { ball: self.balls })
            },
            beamsets: if self.beamsets@.len() == 0 {
                None
            } else {
                Some(BeamSets { beamset: self.beamsets })
            },
        }
    }
}

impl BeamLatticeBuilder {
    /// The beams added so far.
    pub closed spec fn beams_spec(&self) -> Seq<Beam> {
        self.beams@
    }

    /// The balls added so far.
    pub closed spec fn balls_spec(&self) -> Seq<Ball> {
        self.balls@
    }

    /// The beam sets added so far.
    pub closed spec fn beamsets_spec(&self) -> Seq<BeamSet> {
        self.beamsets@
    }

    /// The settings of the lattice other than its beams, balls and beam sets.
    pub closed spec fn settings(&self) -> (Option<Double>, Option<Double>, Option<BallMode>, Option<Double>, Option<ClippingMode>, OptionalResourceId, OptionalResourceId, OptionalResourceId, OptionalResourceIndex, Option<CapMode>) {
        (self.minlength, self.radius, self.ballmode, self.ballradius, self.clippingmode, self.clippingmesh, self.representationmesh, self.pid, self.pindex, self.cap)
    }

    /// The beams, balls and beam sets added so far are those of the lattice that the
    /// builder makes.
    pub proof fn lemma_parts_of_view(&self)
        ensures
            self@.beams.beam@ == self.beams_spec(),
            lattice_balls(self@) == self.balls_spec(),
            lattice_beamsets(self@) == self.beamsets_spec(),
            self@.balls is Some <==> self.balls_spec().len() > 0,
            self@.beamsets is Some <==> self.beamsets_spec().len() > 0,
    {
    }

    /// A lattice with nothing set and nothing added.
    pub fn new() -> (r: Self)
        ensures
            r.beams_spec().len() == 0,
            r.balls_spec().len() == 0,
            r.beamsets_spec().len() == 0,
            fresh_lattice(r@),
            r@.minlength == (Double { bits: DEFAULT_BEAM_LENGTH_BITS }),
            r@.radius == (Double { bits: DEFAULT_BEAM_LENGTH_BITS }),
            r@.ballmode is None,
            r@.ballradius is None,
            r@.clippingmode is None,
            r@.clippingmesh.value is None,
            r@.representationmesh.value is None,
            r@.pid.value is None,
            r@.pindex.value is None,
            r@.cap is None,
            r@.balls is None,
            r@.beamsets is None,
    {
        BeamLatticeBuilder {
            minlength: None,
            radius: None,
            ballmode: None,
            ballradius: None,
            clippingmode: None,
            clippingmesh: OptionalResourceId::none(),
            representationmesh: OptionalResourceId::none(),
            pid: OptionalResourceId::none(),
            pindex: OptionalResourceIndex::none(),
            cap: None,
            beams: Vec::new(),
            balls: Vec::new(),
            beamsets: Vec::new(),
        }
    }

    /// Sets the minimum length of beams.
    pub fn minlength(&mut self, minlength: Double) -> (r: &mut Self)
        ensures
            r@ == (BeamLattice { minlength, ..old(self)@ }),
            r.beams_spec() == old(self).beams_spec(),
            r.balls_spec() == old(self).balls_spec(),
            r.beamsets_spec() == old(self).beamsets_spec(),
            *final(self) == *final(r),
    {
        self.minlength = Some(minlength);
        self
    }

    /// Sets the default radius of beams.
    pub fn radius(&mut self, radius: Double) -> (r: &mut Self)
        ensures
            r@ == (BeamLattice { radius, ..old(self)@ }),
            r.beams_spec() == old(self).beams_spec(),
            r.balls_spec() == old(self).balls_spec(),
            r.beamsets_spec() == old(self).beamsets_spec(),
            *final(self) == *final(r),
    {
        self.radius = Some(radius);
        self
    }

    /// Sets the ball mode.
    pub fn ballmode(&mut self, mode: BallMode) -> (r: &mut Self)
        ensures
            r@ == (BeamLattice { ballmode: Some(mode), ..old(self)@ }),
            r.beams_spec() == old(self).beams_spec(),
            r.balls_spec() == old(self).balls_spec(),
            r.beamsets_spec() == old(self).beamsets_spec(),
            *final(self) == *final(r),
    {
        self.ballmode = Some(mode);
        self
    }

    /// Sets the default radius of balls.
    pub fn ballradius(&mut self, radius: Double) -> (r: &mut Self)
        ensures
            r@ == (BeamLattice { ballradius: Some(radius), ..old(self)@ }),
            r.beams_spec() == old(self).beams_spec(),
            r.balls_spec() == old(self).balls_spec(),
            r.beamsets_spec() == old(self).beamsets_spec(),
            *final(self) == *final(r),
    {
        self.ballradius = Some(radius);
        self
    }

    /// Sets the clipping mode.
    pub fn clippingmode(&mut self, mode: ClippingMode) -> (r: &mut Self)
        ensures
            r@ == (BeamLattice { clippingmode: Some(mode), ..old(self)@ }),
            r.beams_spec() == old(self).beams_spec(),
            r.balls_spec() == old(self).balls_spec(),
            r.beamsets_spec() == old(self).beamsets_spec(),
            *final(self) == *final(r),
    {
        self.clippingmode = Some(mode);
        self
    }

    /// Sets the clipping mesh.
    pub fn clippingmesh(&mut self, object_id: ObjectId) -> (r: &mut Self)
        ensures
            r@ == (BeamLattice { clippingmesh: OptionalResourceId { value: Some(object_id.0) }, ..old(self)@ }),
            r.beams_spec() == old(self).beams_spec(),
            r.balls_spec() == old(self).balls_spec(),
            r.beamsets_spec() == old(self).beamsets_spec(),
            *final(self) == *final(r),
    {
        self.clippingmesh = OptionalResourceId::new(object_id.0);
        self
    }

    /// Sets the representation mesh.
    pub fn representationmesh(&mut self, object_id: ObjectId) -> (r: &mut Self)
        ensures
            r@ == (BeamLattice { representationmesh: OptionalResourceId { value: Some(object_id.0) }, ..old(self)@ }),
            r.beams_spec() == old(self).beams_spec(),
            r.balls_spec() == old(self).balls_spec(),
            r.beamsets_spec() == old(self).beamsets_spec(),
            *final(self) == *final(r),
    {
        self.representationmesh = OptionalResourceId::new(object_id.0);
        self
    }

    /// Sets the property resource of the lattice.
    pub fn pid(&mut self, pid: ResourceId) -> (r: &mut Self)
        ensures
            r@ == (BeamLattice { pid: OptionalResourceId { value: Some(pid) }, ..old(self)@ }),
            r.beams_spec() == old(self).beams_spec(),
            r.balls_spec() == old(self).balls_spec(),
            r.beamsets_spec() == old(self).beamsets_spec(),
            *final(self) == *final(r),
    {
        self.pid = OptionalResourceId::new(pid);
        self
    }

    /// Sets the property index of the lattice.
    pub fn pindex(&mut self, pindex: ResourceIndex) -> (r: &mut Self)
        ensures
            r@ == (BeamLattice { pindex: OptionalResourceIndex { value: Some(pindex) }, ..old(self)@ }),
            r.beams_spec() == old(self).beams_spec(),
            r.balls_spec() == old(self).balls_spec(),
            r.beamsets_spec() == old(self).beamsets_spec(),
            *final(self) == *final(r),
    {
        self.pindex = OptionalResourceIndex::new(pindex);
        self
    }

    /// Sets the default cap of beams.
    pub fn cap(&mut self, cap: CapMode) -> (r: &mut Self)
        ensures
            r@ == (BeamLattice { cap: Some(cap), ..old(self)@ }),
            r.beams_spec() == old(self).beams_spec(),
            r.balls_spec() == old(self).balls_spec(),
            r.beamsets_spec() == old(self).beamsets_spec(),
            *final(self) == *final(r),
    {
        self.cap = Some(cap);
        self
    }

    /// Adds a beam between the two vertices, with nothing else set.
    pub fn add_beam(&mut self, v1: ResourceIndex, v2: ResourceIndex) -> (r: &mut Self)
        ensures
            r.beams_spec() == old(self).beams_spec().push(default_beam(v1, v2)),
            r@ == (BeamLattice { beams: r@.beams, ..old(self)@ }),
            r@.beams.beam@ == old(self)@.beams.beam@.push(default_beam(v1, v2)),
            r.settings() == old(self).settings(),
            r.balls_spec() == old(self).balls_spec(),
            r.beamsets_spec() == old(self).beamsets_spec(),
            *final(self) == *final(r),
    {
        let beam = BeamBuilder::new(v1, v2).build();
        self.beams.push(beam);
        self
    }

    /// Adds a beam between the two vertices, configured by `f`.
    pub fn add_beam_advanced<F>(&mut self, v1: ResourceIndex, v2: ResourceIndex, f: F) -> (r: &mut Self)
        where
            F: FnOnce(BeamBuilder) -> BeamBuilder,
        requires
            forall|b: BeamBuilder| call_requires(f, (b,)),
        ensures
            r.beams_spec().len() == old(self).beams_spec().len() + 1,
            r.beams_spec().take(old(self).beams_spec().len() as int) == old(self).beams_spec(),
            r@ == (BeamLattice { beams: r@.beams, ..old(self)@ }),
            exists|given: BeamBuilder, made: BeamBuilder| {
                &&& given@ == default_beam(v1, v2)
                &&& call_ensures(f, (given,), made)
                &&& r@.beams.beam@ == old(self)@.beams.beam@.push(made@)
            },
            r.settings() == old(self).settings(),
            r.balls_spec() == old(self).balls_spec(),
            r.beamsets_spec() == old(self).beamsets_spec(),
            *final(self) == *final(r),
    {
        let builder = BeamBuilder::new(v1, v2);
        let ghost given = builder;
        let made = f(builder);
        let ghost made_g = made;
        let beam = made.build();
        let ghost before = self.beams@;
        self.beams.push(beam);
        proof {
            assert(self.beams@.take(before.len() as int) =~= before);
            assert(call_ensures(f, (given,), made_g));
        }
        self
    }

    /// Adds a beam for each pair of vertices, in order.
    pub fn add_beams(&mut self, vertex_pairs: &[(ResourceIndex, ResourceIndex)]) -> (r: &mut Self)
        ensures
            r.beams_spec() == old(self).beams_spec() + vertex_pairs@.map_values(
                |p: (u32, u32)| default_beam(p.0, p.1),
            ),
            r@ == (BeamLattice { beams: r@.beams, ..old(self)@ }),
            r@.beams.beam@ == old(self)@.beams.beam@ + vertex_pairs@.map_values(|p: (u32, u32)| default_beam(p.0, p.1)),
            r.settings() == old(self).settings(),
            r.balls_spec() == old(self).balls_spec(),
            r.beamsets_spec() == old(self).beamsets_spec(),
            *final(self) == *final(r),
    {
        let n = vertex_pairs.len();
        let ghost start = self.beams@;
        for k in 0..n
            invariant
                n == vertex_pairs@.len(),
                self.beams@ =~= start + vertex_pairs@.take(k as int).map_values(
                    |p: (u32, u32)| default_beam(p.0, p.1),
                ),
                self.settings() == old(self).settings(),
                self.balls == old(self).balls,
                self.beamsets == old(self).beamsets,
        {
            let (v1, v2) = vertex_pairs[k];
            self.beams.push(BeamBuilder::new(v1, v2).build());
            proof {
                assert(vertex_pairs@.take(k + 1) =~= vertex_pairs@.take(k as int).push(vertex_pairs@[k as int]));
            }
        }
        proof {
            assert(vertex_pairs@.take(n as int) =~= vertex_pairs@);
        }
        self
    }

    /// Adds a ball at vertex `vindex`, with nothing else set.
    pub fn add_ball(&mut self, vindex: ResourceIndex) -> (r: &mut Self)
        ensures
            r.balls_spec() == old(self).balls_spec().push(default_ball(vindex)),
            r@ == (BeamLattice { balls: r@.balls, ..old(self)@ }),
            r@.balls is Some,
            lattice_balls(r@) == lattice_balls(old(self)@).push(default_ball(vindex)),
            r.settings() == old(self).settings(),
            r.beams_spec() == old(self).beams_spec(),
            r.beamsets_spec() == old(self).beamsets_spec(),
            *final(self) == *final(r),
    {
        let ball = BallBuilder::new(vindex).build();
        self.balls.push(ball);
        self
    }

    /// Adds a ball at vertex `vindex`, configured by `f`.
    pub fn add_ball_advanced<F>(&mut self, vindex: ResourceIndex, f: F) -> (r: &mut Self)
        where
            F: FnOnce(BallBuilder) -> BallBuilder,
        requires
            forall|b: BallBuilder| call_requires(f, (b,)),
        ensures
            r.balls_spec().len() == old(self).balls_spec().len() + 1,
            r.balls_spec().take(old(self).balls_spec().len() as int) == old(self).balls_spec(),
            r@ == (BeamLattice { balls: r@.balls, ..old(self)@ }),
            r@.balls is Some,
            exists|given: BallBuilder, made: BallBuilder| {
                &&& given@ == default_ball(vindex)
                &&& call_ensures(f, (given,), made)
                &&& lattice_balls(r@) == lattice_balls(old(self)@).push(made@)
            },
            r.settings() == old(self).settings(),
            r.beams_spec() == old(self).beams_spec(),
            r.beamsets_spec() == old(self).beamsets_spec(),
            *final(self) == *final(r),
    {
        let builder = BallBuilder::new(vindex);
        let ghost given = builder;
        let made = f(builder);
        let ghost made_g = made;
        let ball = made.build();
        let ghost before = self.balls@;
        self.balls.push(ball);
        proof {
            assert(self.balls@.take(before.len() as int) =~= before);
            assert(call_ensures(f, (given,), made_g));
        }
        self
    }

    /// Adds a ball at each vertex of `vindices`, in order.
    pub fn add_balls(&mut self, vindices: &[ResourceIndex]) -> (r: &mut Self)
        ensures
            r.balls_spec() == old(self).balls_spec() + vindices@.map_values(|v: u32| default_ball(v)),
            r@ == (BeamLattice { balls: r@.balls, ..old(self)@ }),
            lattice_balls(r@) == lattice_balls(old(self)@) + vindices@.map_values(|v: u32| default_ball(v)),
            r@.balls is Some <==> lattice_balls(r@).len() > 0,
            r.settings() == old(self).settings(),
            r.beams_spec() == old(self).beams_spec(),
            r.beamsets_spec() == old(self).beamsets_spec(),
            *final(self) == *final(r),
    {
        let n = vindices.len();
        let ghost start = self.balls@;
        for k in 0..n
            invariant
                n == vindices@.len(),
                self.balls@ =~= start + vindices@.take(k as int).map_values(|v: u32| default_ball(v)),
                self.settings() == old(self).settings(),
                self.beams == old(self).beams,
                self.beamsets == old(self).beamsets,
        {
            self.balls.push(BallBuilder::new(vindices[k]).build());
            proof {
                assert(vindices@.take(k + 1) =~= vindices@.take(k as int).push(vindices@[k as int]));
            }
        }
        proof {
            assert(vindices@.take(n as int) =~= vindices@);
        }
        self
    }

    /// Adds a beam set configured by `f`.
    pub fn add_beamset<F>(&mut self, f: F) -> (r: &mut Self)
        where
            F: FnOnce(&mut BeamSetBuilder),
        requires
            forall|b: &mut BeamSetBuilder| call_requires(f, (b,)),
        ensures
            r.beamsets_spec().len() == old(self).beamsets_spec().len() + 1,
            r.beamsets_spec().take(old(self).beamsets_spec().len() as int) == old(self).beamsets_spec(),
            r@ == (BeamLattice { beamsets: r@.beamsets, ..old(self)@ }),
            r@.beamsets is Some,
            exists|b: &mut BeamSetBuilder| {
                &&& call_ensures(f, (b,), ())
                &&& (*b)@.name is None
                &&& (*b)@.identifier is None
                &&& (*b)@.refs@.len() == 0
                &&& (*b)@.ballref@.len() == 0
                &&& lattice_beamsets(r@) == lattice_beamsets(old(self)@).push(mut_ref_future(b)@)
            },
            r.settings() == old(self).settings(),
            r.beams_spec() == old(self).beams_spec(),
            r.balls_spec() == old(self).balls_spec(),
            *final(self) == *final(r),
    {
        let mut builder = BeamSetBuilder::new();
        let ghost fresh = builder;
        f(&mut builder);
        let ghost made = builder;
        assert(exists|w: &mut BeamSetBuilder| call_ensures(f, (w,), ()) && *w == fresh && mut_ref_future(w) == made);
        let ghost before = self.beamsets@;
        self.beamsets.push(builder.build());
        proof {
            assert(self.beamsets@.take(before.len() as int) =~= before);
        }
        self
    }

    /// The beam lattice.
    pub fn build(self) -> (r: BeamLattice)
        ensures
            r == self@,
    {
        let balls = if self.balls.len() == 0 {
            None
        } else {
            Some(Balls { ball: self.balls })
        };
        let beamsets = if self.beamsets.len() == 0 {
            None
        } else {
            Some(BeamSets { beamset: self.beamsets })
        };
        BeamLattice {
            minlength: match self.minlength {
                Some(d) => d,
                None => Double::from_bits(DEFAULT_BEAM_LENGTH_BITS),
            },
            radius: match self.radius {
                Some(d) => d,
                None => Double::from_bits(DEFAULT_BEAM_LENGTH_BITS),
            },
            ballmode: self.ballmode,
            ballradius: self.ballradius,
            clippingmode: self.clippingmode,
            clippingmesh: self.clippingmesh,
            representationmesh: self.representationmesh,
            pid: self.pid,
            pindex: self.pindex,
            cap: self.cap,
            beams: Beams { beam: self.beams },
            balls,
            beamsets,
        }
    }
}

// ---------------------------------------------------------------------------------------
// Meshes
// ---------------------------------------------------------------------------------------

/// The vertices described by a flat list of coordinates, three per vertex; coordinates
/// left over after the last full vertex are ignored.
pub open spec fn flat_vertices(s: Seq<Double>) -> Seq<Vertex> {
    Seq::new(s.len() / 3, |i: int| Vertex { x: s[3 * i], y: s[3 * i + 1], z: s[3 * i + 2] })
}

/// The triangles described by a flat list of vertex indices, three per triangle;
/// indices left over after the last full triangle are ignored.
pub open spec fn flat_triangles(s: Seq<usize>) -> Seq<Triangle> {
    Seq::new(s.len() / 3, |i: int| plain_triangle(s[3 * i] as u32, s[3 * i + 1] as u32, s[3 * i + 2] as u32))
}

/// Builds the mesh: vertices, triangles, and optionally triangle sets and a beam
/// lattice.
pub struct MeshBuilder {
    vertices: Vec<Vertex>,
    triangles: Vec<Triangle>,
    triangle_sets: Option<TriangleSetsBuilder>,
    beam_lattice: Option<BeamLatticeBuilder>,
}

impl View for MeshBuilder {
    type V = Mesh;

    /// The mesh that the builder makes.
    closed spec fn view(&self) -> Mesh {
        Mesh {
            vertices: Vertices { vertex: self.vertices },
            triangles: Triangles { triangle: self.triangles },
            trianglesets: match self.triangle_sets {
                Some(b) => Some(b.built()),
                None => None,
            },
            beamlattice: match self.beam_lattice {
                Some(b) => Some(b@),
                None => None,
            },
        }
    }
}

impl MeshBuilder {
    /// No vertices, no triangles, no triangle sets and no beam lattice.
    pub fn new() -> (r: Self)
        ensures
            r@.vertices.vertex@.len() == 0,
            r@.triangles.triangle@.len() == 0,
            r@.trianglesets is None,
            r@.beamlattice is None,
    {
        MeshBuilder {
            vertices: Vec::new(),
            triangles: Vec::new(),
            triangle_sets: None,
            beam_lattice: None,
        }
    }

    /// Adds a vertex at the coordinates `[x, y, z]`.
    pub fn add_vertex(&mut self, coords: &[Double; 3]) -> (r: &mut Self)
        ensures
            r@.vertices.vertex@ == old(self)@.vertices.vertex@.push(Vertex { x: coords@[0], y: coords@[1], z: coords@[2] }),
            r@ == (Mesh { vertices: r@.vertices, ..old(self)@ }),
            *final(self) == *final(r),
    {
        self.vertices.push(Vertex { x: coords[0], y: coords[1], z: coords[2] });
        self
    }

    /// Adds a vertex for each coordinate triple, in order.
    pub fn add_vertices(&mut self, vertices: &[[Double; 3]]) -> (r: &mut Self)
        ensures
            r@.vertices.vertex@ == old(self)@.vertices.vertex@ + vertices@.map_values(
                |c: [Double; 3]| Vertex { x: c@[0], y: c@[1], z: c@[2] },
            ),
            r@ == (Mesh { vertices: r@.vertices, ..old(self)@ }),
            *final(self) == *final(r),
    {
        let n = vertices.len();
        let ghost start = self.vertices@;
        for k in 0..n
            invariant
                n == vertices@.len(),
                self.vertices@ =~= start + vertices@.take(k as int).map_values(
                    |c: [Double; 3]| Vertex { x: c@[0], y: c@[1], z: c@[2] },
                ),
                self.triangles == old(self).triangles,
                self.triangle_sets == old(self).triangle_sets,
                self.beam_lattice == old(self).beam_lattice,
        {
            let c = &vertices[k];
            self.vertices.push(Vertex { x: c[0], y: c[1], z: c[2] });
            proof {
                assert(vertices@.take(k + 1) =~= vertices@.take(k as int).push(vertices@[k as int]));
            }
        }
        proof {
            assert(vertices@.take(n as int) =~= vertices@);
        }
        self
    }

    /// Adds vertices from a flat list of coordinates, three per vertex.
    pub fn add_vertices_flat(&mut self, vertices: &[Double]) -> (r: &mut Self)
        ensures
            r@.vertices.vertex@ == old(self)@.vertices.vertex@ + flat_vertices(vertices@),
            r@ == (Mesh { vertices: r@.vertices, ..old(self)@ }),
            *final(self) == *final(r),
    {
        let len = vertices.len();
        let n = len / 3;
        let ghost start = self.vertices@;
        for k in 0..n
            invariant
                len == vertices@.len(),
                n == vertices@.len() / 3,
                self.vertices@ =~= start + flat_vertices(vertices@).take(k as int),
                self.triangles == old(self).triangles,
                self.triangle_sets == old(self).triangle_sets,
                self.beam_lattice == old(self).beam_lattice,
        {
            proof {
                assert(3 * k + 2 < vertices@.len()) by (nonlinear_arith)
                    requires
                        k < vertices@.len() / 3;
            }
            self.vertices.push(Vertex { x: vertices[3 * k], y: vertices[3 * k + 1], z: vertices[3 * k + 2] });
            proof {
                assert(flat_vertices(vertices@).take(k + 1) =~= flat_vertices(vertices@).take(k as int).push(flat_vertices(vertices@)[k as int]));
            }
        }
        proof {
            assert(flat_vertices(vertices@).take(n as int) =~= flat_vertices(vertices@));
        }
        self
    }

    /// Adds the triangle of the three vertices, without properties.
    pub fn add_triangle(&mut self, indices: &[usize; 3]) -> (r: &mut Self)
        ensures
            r@.triangles.triangle@ == old(self)@.triangles.triangle@.push(
                plain_triangle(indices@[0] as u32, indices@[1] as u32, indices@[2] as u32),
            ),
            r@ == (Mesh { triangles: r@.triangles, ..old(self)@ }),
            *final(self) == *final(r),
    {
        self.triangles.push(TriangleBuilder::new(indices[0] as u32, indices[1] as u32, indices[2] as u32).build());
        self
    }

    /// Adds the triangle of the three vertices with the given properties.
    pub fn add_triangle_with_properties(
        &mut self,
        indices: &[usize; 3],
        p1: OptionalResourceIndex,
        p2: OptionalResourceIndex,
        p3: OptionalResourceIndex,
        pid: OptionalResourceId,
    ) -> (r: &mut Self)
        ensures
            r@.triangles.triangle@ == old(self)@.triangles.triangle@.push(
                Triangle { p1, p2, p3, pid, ..plain_triangle(indices@[0] as u32, indices@[1] as u32, indices@[2] as u32) },
            ),
            r@ == (Mesh { triangles: r@.triangles, ..old(self)@ }),
            *final(self) == *final(r),
    {
        let mut t = TriangleBuilder::new(indices[0] as u32, indices[1] as u32, indices[2] as u32).build();
        t.p1 = p1;
        t.p2 = p2;
        t.p3 = p3;
        t.pid = pid;
        self.triangles.push(t);
        self
    }

    /// Adds the triangle of the three vertices, configured by `f`.
    pub fn add_triangle_advanced<F>(&mut self, indices: &[usize; 3], f: F) -> (r: &mut Self)
        where
            F: FnOnce(TriangleBuilder) -> TriangleBuilder,
        requires
            forall|b: TriangleBuilder| call_requires(f, (b,)),
        ensures
            exists|given: TriangleBuilder, made: TriangleBuilder| {
                &&& given@ == plain_triangle(indices@[0] as u32, indices@[1] as u32, indices@[2] as u32)
                &&& call_ensures(f, (given,), made)
                &&& r@.triangles.triangle@ == old(self)@.triangles.triangle@.push(made@)
            },
            r@.triangles.triangle@.len() == old(self)@.triangles.triangle@.len() + 1,
            r@.triangles.triangle@.take(old(self)@.triangles.triangle@.len() as int) == old(self)@.triangles.triangle@,
            r@ == (Mesh { triangles: r@.triangles, ..old(self)@ }),
            *final(self) == *final(r),
    {
        let builder = TriangleBuilder::new(indices[0] as u32, indices[1] as u32, indices[2] as u32);
        let ghost given = builder;
        let made = f(builder);
        let ghost made_g = made;
        let t = made.build();
        let ghost before = self.triangles@;
        self.triangles.push(t);
        proof {
            assert(self.triangles@.take(before.len() as int) =~= before);
            assert(call_ensures(f, (given,), made_g));
        }
        self
    }

    /// Adds a triangle for each index triple, in order, without properties.
    pub fn add_triangles(&mut self, triangles: &[[usize; 3]]) -> (r: &mut Self)
        ensures
            r@.triangles.triangle@ == old(self)@.triangles.triangle@ + triangles@.map_values(
                |t: [usize; 3]| plain_triangle(t@[0] as u32, t@[1] as u32, t@[2] as u32),
            ),
            r@ == (Mesh { triangles: r@.triangles, ..old(self)@ }),
            *final(self) == *final(r),
    {
        let n = triangles.len();
        let ghost start = self.triangles@;
        for k in 0..n
            invariant
                n == triangles@.len(),
                self.triangles@ =~= start + triangles@.take(k as int).map_values(
                    |t: [usize; 3]| plain_triangle(t@[0] as u32, t@[1] as u32, t@[2] as u32),
                ),
                self.vertices == old(self).vertices,
                self.triangle_sets == old(self).triangle_sets,
                self.beam_lattice == old(self).beam_lattice,
        {
            let t = &triangles[k];
            self.triangles.push(TriangleBuilder::new(t[0] as u32, t[1] as u32, t[2] as u32).build());
            proof {
                assert(triangles@.take(k + 1) =~= triangles@.take(k as int).push(triangles@[k as int]));
            }
        }
        proof {
            assert(triangles@.take(n as int) =~= triangles@);
        }
        self
    }

    /// Adds triangles from a flat list of vertex indices, three per triangle.
    pub fn add_triangles_flat(&mut self, triangles: &[usize]) -> (r: &mut Self)
        ensures
            r@.triangles.triangle@ == old(self)@.triangles.triangle@ + flat_triangles(triangles@),
            r@ == (Mesh { triangles: r@.triangles, ..old(self)@ }),
            *final(self) == *final(r),
    {
        let len = triangles.len();
        let n = len / 3;
        let ghost start = self.triangles@;
        for k in 0..n
            invariant
                len == triangles@.len(),
                n == triangles@.len() / 3,
                self.triangles@ =~= start + flat_triangles(triangles@).take(k as int),
                self.vertices == old(self).vertices,
                self.triangle_sets == old(self).triangle_sets,
                self.beam_lattice == old(self).beam_lattice,
        {
            proof {
                assert(3 * k + 2 < triangles@.len()) by (nonlinear_arith)
                    requires
                        k < triangles@.len() / 3;
            }
            self.triangles.push(
                TriangleBuilder::new(triangles[3 * k] as u32, triangles[3 * k + 1] as u32, triangles[3 * k + 2] as u32).build(),
            );
            proof {
                assert(flat_triangles(triangles@).take(k + 1) =~= flat_triangles(triangles@).take(k as int).push(flat_triangles(triangles@)[k as int]));
            }
        }
        proof {
            assert(flat_triangles(triangles@).take(n as int) =~= flat_triangles(triangles@));
        }
        self
    }

    /// Adds triangle sets, configured by `f` on the sets added so far.
    pub fn add_triangle_sets<F>(&mut self, f: F) -> (r: &mut Self)
        where
            F: FnOnce(&mut TriangleSetsBuilder),
        requires
            forall|b: &mut TriangleSetsBuilder| call_requires(f, (b,)),
        ensures
            r@.trianglesets is Some,
            exists|b: &mut TriangleSetsBuilder| {
                &&& call_ensures(f, (b,), ())
                &&& (*b)@ == match old(self)@.trianglesets {
                    Some(ts) => ts.trianglesets@,
                    None => Seq::<TriangleSet>::empty(),
                }
                &&& r@.trianglesets->0.trianglesets@ == mut_ref_future(b)@
            },
            r@ == (Mesh { trianglesets: r@.trianglesets, ..old(self)@ }),
            *final(self) == *final(r),
    {
        let mut builder = match self.triangle_sets.take() {
            Some(b) => b,
            None => TriangleSetsBuilder::new(),
        };
        let ghost fresh = builder;
        proof {
            fresh.lemma_built_holds_sets();
            assert(fresh@ =~= match old(self)@.trianglesets {
                Some(ts) => ts.trianglesets@,
                None => Seq::<TriangleSet>::empty(),
            });
        }
        f(&mut builder);
        let ghost made = builder;
        proof {
            made.lemma_built_holds_sets();
        }
        assert(exists|w: &mut TriangleSetsBuilder| call_ensures(f, (w,), ()) && *w == fresh && mut_ref_future(w) == made);
        self.triangle_sets = Some(builder);
        self
    }

    /// Adds a beam lattice, configured by `f` on the lattice added so far.
    pub fn add_beam_lattice<F>(&mut self, f: F) -> (r: &mut Self)
        where
            F: FnOnce(&mut BeamLatticeBuilder),
        requires
            forall|b: &mut BeamLatticeBuilder| call_requires(f, (b,)),
        ensures
            r@.beamlattice is Some,
            exists|b: &mut BeamLatticeBuilder| {
                &&& call_ensures(f, (b,), ())
                &&& match old(self)@.beamlattice {
                    Some(l) => (*b)@ == l,
                    None => fresh_lattice((*b)@),
                }
                &&& r@.beamlattice == Some(mut_ref_future(b)@)
            },
            r@ == (Mesh { beamlattice: r@.beamlattice, ..old(self)@ }),
            *final(self) == *final(r),
    {
        let mut builder = match self.beam_lattice.take() {
            Some(b) => b,
            None => BeamLatticeBuilder::new(),
        };
        let ghost fresh = builder;
        f(&mut builder);
        let ghost made = builder;
        assert(exists|w: &mut BeamLatticeBuilder| call_ensures(f, (w,), ()) && *w == fresh && mut_ref_future(w) == made);
        self.beam_lattice = Some(builder);
        self
    }

    /// The mesh.
    pub fn build_mesh(self) -> (r: Mesh)
        ensures
            r == self@,
    {
        let trianglesets = match self.triangle_sets {
            Some(b) => Some(b.build()),
            None => None,
        };
        let beamlattice = match self.beam_lattice {
            Some(b) => Some(b.build()),
            None => None,
        };
        Mesh {
            vertices: Vertices { vertex: self.vertices },
            triangles: Triangles { triangle: self.triangles },
            trianglesets,
            beamlattice,
        }
    }
}

// ---------------------------------------------------------------------------------------
// Displacement meshes
// ---------------------------------------------------------------------------------------

/// The vertices described by a flat list of coordinates, three per vertex; coordinates
/// left over after the last full vertex are ignored.
pub open spec fn flat_displacement_vertices(s: Seq<Double>) -> Seq<displacement::Vertex> {
    Seq::new(s.len() / 3, |i: int| displacement::Vertex { x: s[3 * i], y: s[3 * i + 1], z: s[3 * i + 2] })
}

/// The triangles described by a flat list of vertex indices, three per triangle;
/// indices left over after the last full triangle are ignored.
pub open spec fn flat_displacement_triangles(s: Seq<usize>) -> Seq<displacement::Triangle> {
    Seq::new(s.len() / 3, |i: int| plain_displacement_triangle(s[3 * i] as u32, s[3 * i + 1] as u32, s[3 * i + 2] as u32))
}

/// Builds the displacement mesh: vertices, triangles, and optionally triangle sets and a beam
/// lattice.
pub struct DisplacementMeshBuilder {
    vertices: Vec<displacement::Vertex>,
    triangles: Vec<displacement::Triangle>,
    triangle_sets: Option<TriangleSetsBuilder>,
    beam_lattice: Option<BeamLatticeBuilder>,
    triangles_did: OptionalResourceId,
}

impl View for DisplacementMeshBuilder {
    type V = displacement::DisplacementMesh;

    /// The displacement mesh that the builder makes.
    closed spec fn view(&self) -> displacement::DisplacementMesh {
        displacement::DisplacementMesh {
            vertices: displacement::Vertices { vertex: self.vertices },
            triangles: displacement::Triangles { did: self.triangles_did, triangle: self.triangles },
            trianglesets: match self.triangle_sets {
                Some(b) => Some(b.built()),
                None => None,
            },
            beamlattice: match self.beam_lattice {
                Some(b) => Some(b@),
                None => None,
            },
        }
    }
}

impl DisplacementMeshBuilder {
    /// No vertices, no triangles, no triangle sets and no beam lattice.
    pub fn new() -> (r: Self)
        ensures
            r@.vertices.vertex@.len() == 0,
            r@.triangles.triangle@.len() == 0,
            r@.triangles.did.value is None,
            r@.trianglesets is None,
            r@.beamlattice is None,
    {
        DisplacementMeshBuilder {
            vertices: Vec::new(),
            triangles: Vec::new(),
            triangle_sets: None,
            beam_lattice: None,
            triangles_did: OptionalResourceId::none(),
        }
    }

    /// Sets the displacement group of all triangles.
    pub fn displacement_id(&mut self, disp2dgroup_id: ResourceId) -> (r: &mut Self)
        ensures
            r@.triangles.did == (OptionalResourceId { value: Some(disp2dgroup_id) }),
            r@.triangles.triangle == old(self)@.triangles.triangle,
            r@ == (displacement::DisplacementMesh { triangles: r@.triangles, ..old(self)@ }),
            *final(self) == *final(r),
    {
        self.triangles_did = OptionalResourceId::new(disp2dgroup_id);
        self
    }

    /// Adds a vertex at the coordinates `[x, y, z]`.
    pub fn add_vertex(&mut self, coords: &[Double; 3]) -> (r: &mut Self)
        ensures
            r@.vertices.vertex@ == old(self)@.vertices.vertex@.push(displacement::Vertex { x: coords@[0], y: coords@[1], z: coords@[2] }),
            r@ == (displacement::DisplacementMesh { vertices: r@.vertices, ..old(self)@ }),
            *final(self) == *final(r),
    {
        self.vertices.push(displacement::Vertex { x: coords[0], y: coords[1], z: coords[2] });
        self
    }

    /// Adds a vertex for each coordinate triple, in order.
    pub fn add_vertices(&mut self, vertices: &[[Double; 3]]) -> (r: &mut Self)
        ensures
            r@.vertices.vertex@ == old(self)@.vertices.vertex@ + vertices@.map_values(
                |c: [Double; 3]| displacement::Vertex { x: c@[0], y: c@[1], z: c@[2] },
            ),
            r@ == (displacement::DisplacementMesh { vertices: r@.vertices, ..old(self)@ }),
            *final(self) == *final(r),
    {
        let n = vertices.len();
        let ghost start = self.vertices@;
        for k in 0..n
            invariant
                n == vertices@.len(),
                self.vertices@ =~= start + vertices@.take(k as int).map_values(
                    |c: [Double; 3]| displacement::Vertex { x: c@[0], y: c@[1], z: c@[2] },
                ),
                self.triangles == old(self).triangles,
                self.triangle_sets == old(self).triangle_sets,
                self.beam_lattice == old(self).beam_lattice,
                self.triangles_did == old(self).triangles_did,
        {
            let c = &vertices[k];
            self.vertices.push(displacement::Vertex { x: c[0], y: c[1], z: c[2] });
            proof {
                assert(vertices@.take(k + 1) =~= vertices@.take(k as int).push(vertices@[k as int]));
            }
        }
        proof {
            assert(vertices@.take(n as int) =~= vertices@);
        }
        self
    }

    /// Adds vertices from a flat list of coordinates, three per vertex.
    pub fn add_vertices_flat(&mut self, vertices: &[Double]) -> (r: &mut Self)
        ensures
            r@.vertices.vertex@ == old(self)@.vertices.vertex@ + flat_displacement_vertices(vertices@),
            r@ == (displacement::DisplacementMesh { vertices: r@.vertices, ..old(self)@ }),
            *final(self) == *final(r),
    {
        let len = vertices.len();
        let n = len / 3;
        let ghost start = self.vertices@;
        for k in 0..n
            invariant
                len == vertices@.len(),
                n == vertices@.len() / 3,
                self.vertices@ =~= start + flat_displacement_vertices(vertices@).take(k as int),
                self.triangles == old(self).triangles,
                self.triangle_sets == old(self).triangle_sets,
                self.beam_lattice == old(self).beam_lattice,
                self.triangles_did == old(self).triangles_did,
        {
            proof {
                assert(3 * k + 2 < vertices@.len()) by (nonlinear_arith)
                    requires
                        k < vertices@.len() / 3;
            }
            self.vertices.push(displacement::Vertex { x: vertices[3 * k], y: vertices[3 * k + 1], z: vertices[3 * k + 2] });
            proof {
                assert(flat_displacement_vertices(vertices@).take(k + 1) =~= flat_displacement_vertices(vertices@).take(k as int).push(flat_displacement_vertices(vertices@)[k as int]));
            }
        }
        proof {
            assert(flat_displacement_vertices(vertices@).take(n as int) =~= flat_displacement_vertices(vertices@));
        }
        self
    }

    /// Adds the triangle of the three vertices, without properties.
    pub fn add_triangle(&mut self, indices: &[usize; 3]) -> (r: &mut Self)
        ensures
            r@.triangles.triangle@ == old(self)@.triangles.triangle@.push(
                plain_displacement_triangle(indices@[0] as u32, indices@[1] as u32, indices@[2] as u32),
            ),
            r@ == (displacement::DisplacementMesh { triangles: r@.triangles, ..old(self)@ }),
            r@.triangles.did == old(self)@.triangles.did,
            *final(self) == *final(r),
    {
        self.triangles.push(DisplacementTriangleBuilder::new(indices[0] as u32, indices[1] as u32, indices[2] as u32).build());
        self
    }

    /// Adds the triangle of the three vertices with the given properties.
    pub fn add_triangle_with_properties(
        &mut self,
        indices: &[usize; 3],
        p1: OptionalResourceIndex,
        p2: OptionalResourceIndex,
        p3: OptionalResourceIndex,
        pid: OptionalResourceId,
    ) -> (r: &mut Self)
        ensures
            r@.triangles.triangle@ == old(self)@.triangles.triangle@.push(
                displacement::Triangle { p1, p2, p3, pid, ..plain_displacement_triangle(indices@[0] as u32, indices@[1] as u32, indices@[2] as u32) },
            ),
            r@ == (displacement::DisplacementMesh { triangles: r@.triangles, ..old(self)@ }),
            r@.triangles.did == old(self)@.triangles.did,
            *final(self) == *final(r),
    {
        let mut t = DisplacementTriangleBuilder::new(indices[0] as u32, indices[1] as u32, indices[2] as u32).build();
        t.p1 = p1;
        t.p2 = p2;
        t.p3 = p3;
        t.pid = pid;
        self.triangles.push(t);
        self
    }

    /// Adds the triangle of the three vertices, configured by `f`.
    pub fn add_triangle_advanced<F>(&mut self, indices: &[usize; 3], f: F) -> (r: &mut Self)
        where
            F: FnOnce(DisplacementTriangleBuilder) -> DisplacementTriangleBuilder,
        requires
            forall|b: DisplacementTriangleBuilder| call_requires(f, (b,)),
        ensures
            exists|given: DisplacementTriangleBuilder, made: DisplacementTriangleBuilder| {
                &&& given@ == plain_displacement_triangle(indices@[0] as u32, indices@[1] as u32, indices@[2] as u32)
                &&& call_ensures(f, (given,), made)
                &&& r@.triangles.triangle@ == old(self)@.triangles.triangle@.push(made@)
            },
            r@.triangles.triangle@.len() == old(self)@.triangles.triangle@.len() + 1,
            r@.triangles.triangle@.take(old(self)@.triangles.triangle@.len() as int) == old(self)@.triangles.triangle@,
            r@ == (displacement::DisplacementMesh { triangles: r@.triangles, ..old(self)@ }),
            r@.triangles.did == old(self)@.triangles.did,
            *final(self) == *final(r),
    {
        let builder = DisplacementTriangleBuilder::new(indices[0] as u32, indices[1] as u32, indices[2] as u32);
        let ghost given = builder;
        let made = f(builder);
        let ghost made_g = made;
        let t = made.build();
        let ghost before = self.triangles@;
        self.triangles.push(t);
        proof {
            assert(self.triangles@.take(before.len() as int) =~= before);
            assert(call_ensures(f, (given,), made_g));
        }
        self
    }

    /// Adds a triangle for each index triple, in order, without properties.
    pub fn add_triangles(&mut self, triangles: &[[usize; 3]]) -> (r: &mut Self)
        ensures
            r@.triangles.triangle@ == old(self)@.triangles.triangle@ + triangles@.map_values(
                |t: [usize; 3]| plain_displacement_triangle(t@[0] as u32, t@[1] as u32, t@[2] as u32),
            ),
            r@ == (displacement::DisplacementMesh { triangles: r@.triangles, ..old(self)@ }),
            r@.triangles.did == old(self)@.triangles.did,
            *final(self) == *final(r),
    {
        let n = triangles.len();
        let ghost start = self.triangles@;
        for k in 0..n
            invariant
                n == triangles@.len(),
                self.triangles@ =~= start + triangles@.take(k as int).map_values(
                    |t: [usize; 3]| plain_displacement_triangle(t@[0] as u32, t@[1] as u32, t@[2] as u32),
                ),
                self.vertices == old(self).vertices,
                self.triangle_sets == old(self).triangle_sets,
                self.beam_lattice == old(self).beam_lattice,
                self.triangles_did == old(self).triangles_did,
        {
            let t = &triangles[k];
            self.triangles.push(DisplacementTriangleBuilder::new(t[0] as u32, t[1] as u32, t[2] as u32).build());
            proof {
                assert(triangles@.take(k + 1) =~= triangles@.take(k as int).push(triangles@[k as int]));
            }
        }
        proof {
            assert(triangles@.take(n as int) =~= triangles@);
        }
        self
    }

    /// Adds triangles from a flat list of vertex indices, three per triangle.
    pub fn add_triangles_flat(&mut self, triangles: &[usize]) -> (r: &mut Self)
        ensures
            r@.triangles.triangle@ == old(self)@.triangles.triangle@ + flat_displacement_triangles(triangles@),
            r@ == (displacement::DisplacementMesh { triangles: r@.triangles, ..old(self)@ }),
            r@.triangles.did == old(self)@.triangles.did,
            *final(self) == *final(r),
    {
        let len = triangles.len();
        let n = len / 3;
        let ghost start = self.triangles@;
        for k in 0..n
            invariant
                len == triangles@.len(),
                n == triangles@.len() / 3,
                self.triangles@ =~= start + flat_displacement_triangles(triangles@).take(k as int),
                self.vertices == old(self).vertices,
                self.triangle_sets == old(self).triangle_sets,
                self.beam_lattice == old(self).beam_lattice,
                self.triangles_did == old(self).triangles_did,
        {
            proof {
                assert(3 * k + 2 < triangles@.len()) by (nonlinear_arith)
                    requires
                        k < triangles@.len() / 3;
            }
            self.triangles.push(
                DisplacementTriangleBuilder::new(triangles[3 * k] as u32, triangles[3 * k + 1] as u32, triangles[3 * k + 2] as u32).build(),
            );
            proof {
                assert(flat_displacement_triangles(triangles@).take(k + 1) =~= flat_displacement_triangles(triangles@).take(k as int).push(flat_displacement_triangles(triangles@)[k as int]));
            }
        }
        proof {
            assert(flat_displacement_triangles(triangles@).take(n as int) =~= flat_displacement_triangles(triangles@));
        }
        self
    }

    /// Adds triangle sets, configured by `f` on the sets added so far.
    pub fn add_triangle_sets<F>(&mut self, f: F) -> (r: &mut Self)
        where
            F: FnOnce(&mut TriangleSetsBuilder),
        requires
            forall|b: &mut TriangleSetsBuilder| call_requires(f, (b,)),
        ensures
            r@.trianglesets is Some,
            exists|b: &mut TriangleSetsBuilder| {
                &&& call_ensures(f, (b,), ())
                &&& (*b)@ == match old(self)@.trianglesets {
                    Some(ts) => ts.trianglesets@,
                    None => Seq::<TriangleSet>::empty(),
                }
                &&& r@.trianglesets->0.trianglesets@ == mut_ref_future(b)@
            },
            r@ == (displacement::DisplacementMesh { trianglesets: r@.trianglesets, ..old(self)@ }),
            *final(self) == *final(r),
    {
        let mut builder = match self.triangle_sets.take() {
            Some(b) => b,
            None => TriangleSetsBuilder::new(),
        };
        let ghost fresh = builder;
        proof {
            fresh.lemma_built_holds_sets();
            assert(fresh@ =~= match old(self)@.trianglesets {
                Some(ts) => ts.trianglesets@,
                None => Seq::<TriangleSet>::empty(),
            });
        }
        f(&mut builder);
        let ghost made = builder;
        proof {
            made.lemma_built_holds_sets();
        }
        assert(exists|w: &mut TriangleSetsBuilder| call_ensures(f, (w,), ()) && *w == fresh && mut_ref_future(w) == made);
        self.triangle_sets = Some(builder);
        self
    }

    /// Adds a beam lattice, configured by `f` on the lattice added so far.
    pub fn add_beam_lattice<F>(&mut self, f: F) -> (r: &mut Self)
        where
            F: FnOnce(&mut BeamLatticeBuilder),
        requires
            forall|b: &mut BeamLatticeBuilder| call_requires(f, (b,)),
        ensures
            r@.beamlattice is Some,
            exists|b: &mut BeamLatticeBuilder| {
                &&& call_ensures(f, (b,), ())
                &&& match old(self)@.beamlattice {
                    Some(l) => (*b)@ == l,
                    None => fresh_lattice((*b)@),
                }
                &&& r@.beamlattice == Some(mut_ref_future(b)@)
            },
            r@ == (displacement::DisplacementMesh { beamlattice: r@.beamlattice, ..old(self)@ }),
            *final(self) == *final(r),
    {
        let mut builder = match self.beam_lattice.take() {
            Some(b) => b,
            None => BeamLatticeBuilder::new(),
        };
        let ghost fresh = builder;
        f(&mut builder);
        let ghost made = builder;
        assert(exists|w: &mut BeamLatticeBuilder| call_ensures(f, (w,), ()) && *w == fresh && mut_ref_future(w) == made);
        self.beam_lattice = Some(builder);
        self
    }

    /// The displacement mesh.
    pub fn build_mesh(self) -> (r: displacement::DisplacementMesh)
        ensures
            r == self@,
    {
        let trianglesets = match self.triangle_sets {
            Some(b) => Some(b.build()),
            None => None,
        };
        let beamlattice = match self.beam_lattice {
            Some(b) => Some(b.build()),
            None => None,
        };
        displacement::DisplacementMesh {
            vertices: displacement::Vertices { vertex: self.vertices },
            triangles: displacement::Triangles { did: self.triangles_did, triangle: self.triangles },
            trianglesets,
            beamlattice,
        }
    }
}

} // verus!
