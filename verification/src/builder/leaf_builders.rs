//! Builders of the small parts of a model: build items, components, boolean operands,
//! triangles, beams, balls, beam sets and triangle sets.

use vstd::prelude::*;

use crate::builder::errors::ItemError;
use crate::builder::ids::ObjectId;
use crate::domain::beamlattice::{Ball, BallRef, Beam, BeamRef, BeamSet, CapMode};
use crate::domain::boolean::Boolean;
use crate::domain::build_section::Item;
use crate::domain::component::Component;
use crate::domain::displacement;
use crate::domain::mesh::Triangle;
use crate::domain::transform::Transform;
use crate::domain::triangle_set::{TriangleRef, TriangleRefRange, TriangleSet, TriangleSets};
use crate::text::opt_chars;
use crate::types::{Double, OptionalResourceId, OptionalResourceIndex, ResourceId, ResourceIndex};

verus! {

// ---------------------------------------------------------------------------------------
// Build items
// ---------------------------------------------------------------------------------------

/// Configures a build item: the object it places, with its transform, part number,
/// UUID and path.
pub struct ItemBuilder {
    item: Item,
}

impl View for ItemBuilder {
    type V = Item;

    closed spec fn view(&self) -> Item {
        self.item
    }
}

/// The error, if any, of building `item` with or without the production extension: a
/// path needs the extension, and the extension needs a UUID.
pub open spec fn item_error(item: Item, production: bool) -> Option<ItemError> {
    if !production && item.path is Some {
        Some(ItemError::ItemPathSetWithoutProductionExtension)
    } else if production && item.uuid is None {
        Some(ItemError::ItemUuidNotSet)
    } else {
        None
    }
}

impl ItemBuilder {
    /// A build item placing the object `objectid`, with nothing else set.
    pub fn new(objectid: ObjectId) -> (r: Self)
        ensures
            r@ == (Item { objectid: objectid.0, transform: None, partnumber: None, path: None, uuid: None }),
    {
        ItemBuilder { item: Item { objectid: objectid.0, transform: None, partnumber: None, path: None, uuid: None } }
    }

    /// Sets the transform of the item.
    pub fn transform(&mut self, transform: Transform) -> (r: &mut Self)
        ensures
            r@ == (Item { transform: Some(transform), ..old(self)@ }),
            *final(self) == *final(r),
    {
        self.item.transform = Some(transform);
        self
    }

    /// Sets the part number of the item.
    pub fn partnumber(&mut self, partnumber: &str) -> (r: &mut Self)
        ensures
            r@ == (Item { partnumber: r@.partnumber, ..old(self)@ }),
            opt_chars(r@.partnumber) == Some(partnumber@),
            *final(self) == *final(r),
    {
        self.item.partnumber = Some(partnumber.to_owned());
        self
    }

    /// Sets the UUID of the item.
    pub fn uuid(&mut self, uuid: &str) -> (r: &mut Self)
        ensures
            r@ == (Item { uuid: r@.uuid, ..old(self)@ }),
            opt_chars(r@.uuid) == Some(uuid@),
            *final(self) == *final(r),
    {
        self.item.uuid = Some(uuid.to_owned());
        self
    }

    /// Sets the path of the model that holds the item's object; only allowed with the
    /// production extension.
    pub fn path(&mut self, path: &str) -> (r: &mut Self)
        ensures
            r@ == (Item { path: r@.path, ..old(self)@ }),
            opt_chars(r@.path) == Some(path@),
            *final(self) == *final(r),
    {
        self.item.path = Some(path.to_owned());
        self
    }

    /// The item, unless a path is set without the production extension or the
    /// extension is required and no UUID is set.
    pub fn build(self, is_production_ext_enabled: bool) -> (r: Result<Item, ItemError>)
        ensures
            match item_error(self@, is_production_ext_enabled) {
                Some(e) => r == Err::<Item, ItemError>(e),
                None => r == Ok::<Item, ItemError>(self@),
            },
    {
        if !is_production_ext_enabled && self.item.path.is_some() {
            Err(ItemError::ItemPathSetWithoutProductionExtension)
        } else if is_production_ext_enabled && self.item.uuid.is_none() {
            Err(ItemError::ItemUuidNotSet)
        } else {
            Ok(self.item)
        }
    }
}

// ---------------------------------------------------------------------------------------
// Components and boolean operands
// ---------------------------------------------------------------------------------------

/// Configures a component: the object it references, with its transform, UUID and path.
pub struct ComponentBuilder {
    component: Component,
}

impl View for ComponentBuilder {
    type V = Component;

    closed spec fn view(&self) -> Component {
        self.component
    }
}

impl ComponentBuilder {
    /// A component referencing `object_id`, with nothing else set.
    pub fn new(object_id: ObjectId) -> (r: Self)
        ensures
            r@ == (Component { objectid: object_id.0, transform: None, path: None, uuid: None }),
    {
        ComponentBuilder { component: Component { objectid: object_id.0, transform: None, path: None, uuid: None } }
    }

    /// Sets the transform of the component.
    pub fn transform(&mut self, transform: Transform) -> (r: &mut Self)
        ensures
            r@ == (Component { transform: Some(transform), ..old(self)@ }),
            *final(self) == *final(r),
    {
        self.component.transform = Some(transform);
        self
    }

    /// Sets the UUID of the component.
    pub fn uuid(&mut self, uuid: &str) -> (r: &mut Self)
        ensures
            r@ == (Component { uuid: r@.uuid, ..old(self)@ }),
            opt_chars(r@.uuid) == Some(uuid@),
            *final(self) == *final(r),
    {
        self.component.uuid = Some(uuid.to_owned());
        self
    }

    /// Sets the path of the model that holds the referenced object.
    pub fn path(&mut self, path: &str) -> (r: &mut Self)
        ensures
            r@ == (Component { path: r@.path, ..old(self)@ }),
            opt_chars(r@.path) == Some(path@),
            *final(self) == *final(r),
    {
        self.component.path = Some(path.to_owned());
        self
    }

    /// The component.
    pub fn build(self) -> (r: Component)
        ensures
            r == self@,
    {
        self.component
    }
}

/// Configures an operand of a boolean shape.
pub struct BooleanBuilder {
    operand: Boolean,
}

impl View for BooleanBuilder {
    type V = Boolean;

    closed spec fn view(&self) -> Boolean {
        self.operand
    }
}

impl BooleanBuilder {
    /// An operand referencing `objectid`, with nothing else set.
    pub fn new(objectid: ObjectId) -> (r: Self)
        ensures
            r@ == (Boolean { objectid: objectid.0, transform: None, path: None }),
    {
        BooleanBuilder { operand: Boolean { objectid: objectid.0, transform: None, path: None } }
    }

    /// Sets the transform of the operand.
    pub fn transform(&mut self, transform: Transform) -> (r: &mut Self)
        ensures
            r@ == (Boolean { transform: Some(transform), ..old(self)@ }),
            *final(self) == *final(r),
    {
        self.operand.transform = Some(transform);
        self
    }

    /// Sets the path of the model that holds the operand's object.
    pub fn path(&mut self, path: &str) -> (r: &mut Self)
        ensures
            r@ == (Boolean { path: r@.path, ..old(self)@ }),
            opt_chars(r@.path) == Some(path@),
            *final(self) == *final(r),
    {
        self.operand.path = Some(path.to_owned());
        self
    }

    /// The operand.
    pub fn build(self) -> (r: Boolean)
        ensures
            r == self@,
    {
        self.operand
    }
}

// ---------------------------------------------------------------------------------------
// Triangles
// ---------------------------------------------------------------------------------------

/// The triangle of three vertices without properties.
pub open spec fn plain_triangle(v1: u32, v2: u32, v3: u32) -> Triangle {
    Triangle {
        v1,
        v2,
        v3,
        p1: OptionalResourceIndex { value: None },
        p2: OptionalResourceIndex { value: None },
        p3: OptionalResourceIndex { value: None },
        pid: OptionalResourceId { value: None },
    }
}

/// The displacement triangle of three vertices without displacement or properties.
pub open spec fn plain_displacement_triangle(v1: u32, v2: u32, v3: u32) -> displacement::Triangle {
    displacement::Triangle {
        v1,
        v2,
        v3,
        d1: OptionalResourceIndex { value: None },
        d2: OptionalResourceIndex { value: None },
        d3: OptionalResourceIndex { value: None },
        did: OptionalResourceId { value: None },
        p1: OptionalResourceIndex { value: None },
        p2: OptionalResourceIndex { value: None },
        p3: OptionalResourceIndex { value: None },
        pid: OptionalResourceId { value: None },
    }
}

/// Configures the property references of a mesh triangle.
pub struct TriangleBuilder {
    triangle: Triangle,
}

impl View for TriangleBuilder {
    type V = Triangle;

    closed spec fn view(&self) -> Triangle {
        self.triangle
    }
}

impl TriangleBuilder {
    /// The triangle of the three vertices, without properties.
    pub fn new(v1: ResourceIndex, v2: ResourceIndex, v3: ResourceIndex) -> (r: Self)
        ensures
            r@ == plain_triangle(v1, v2, v3),
    {
        TriangleBuilder {
            triangle: Triangle {
                v1,
                v2,
                v3,
                p1: OptionalResourceIndex::none(),
                p2: OptionalResourceIndex::none(),
                p3: OptionalResourceIndex::none(),
                pid: OptionalResourceId::none(),
            },
        }
    }

    /// Sets the property index of the first vertex.
    pub fn pindex_1(self, pindex: OptionalResourceIndex) -> (r: Self)
        ensures
            r@ == (Triangle { p1: pindex, ..self@ }),
    {
        let mut b = self;
        b.triangle.p1 = pindex;
        b
    }

    /// Sets the property index of the second vertex.
    pub fn pindex_2(self, pindex: OptionalResourceIndex) -> (r: Self)
        ensures
            r@ == (Triangle { p2: pindex, ..self@ }),
    {
        let mut b = self;
        b.triangle.p2 = pindex;
        b
    }

    /// Sets the property index of the third vertex.
    pub fn pindex_3(self, pindex: OptionalResourceIndex) -> (r: Self)
        ensures
            r@ == (Triangle { p3: pindex, ..self@ }),
    {
        let mut b = self;
        b.triangle.p3 = pindex;
        b
    }

    /// Sets the property resource of the triangle.
    pub fn pid(self, pid: ResourceId) -> (r: Self)
        ensures
            r@ == (Triangle { pid: OptionalResourceId { value: Some(pid) }, ..self@ }),
    {
        let mut b = self;
        b.triangle.pid = OptionalResourceId::new(pid);
        b
    }

    /// The triangle.
    pub fn build(self) -> (r: Triangle)
        ensures
            r == self@,
    {
        self.triangle
    }
}

/// Configures the displacement and property references of a displacement triangle.
pub struct DisplacementTriangleBuilder {
    triangle: displacement::Triangle,
}

impl View for DisplacementTriangleBuilder {
    type V = displacement::Triangle;

    closed spec fn view(&self) -> displacement::Triangle {
        self.triangle
    }
}

impl DisplacementTriangleBuilder {
    /// The triangle of the three vertices, without displacement or properties.
    pub fn new(v1: ResourceIndex, v2: ResourceIndex, v3: ResourceIndex) -> (r: Self)
        ensures
            r@ == plain_displacement_triangle(v1, v2, v3),
    {
        DisplacementTriangleBuilder {
            triangle: displacement::Triangle {
                v1,
                v2,
                v3,
                d1: OptionalResourceIndex::none(),
                d2: OptionalResourceIndex::none(),
                d3: OptionalResourceIndex::none(),
                did: OptionalResourceId::none(),
                p1: OptionalResourceIndex::none(),
                p2: OptionalResourceIndex::none(),
                p3: OptionalResourceIndex::none(),
                pid: OptionalResourceId::none(),
            },
        }
    }

    /// Sets the displacement index of the first vertex.
    pub fn displacement_index_1(self, index: OptionalResourceIndex) -> (r: Self)
        ensures
            r@ == (displacement::Triangle { d1: index, ..self@ }),
    {
        let mut b = self;
        b.triangle.d1 = index;
        b
    }

    /// Sets the displacement index of the second vertex.
    pub fn displacement_index_2(self, index: OptionalResourceIndex) -> (r: Self)
        ensures
            r@ == (displacement::Triangle { d2: index, ..self@ }),
    {
        let mut b = self;
        b.triangle.d2 = index;
        b
    }

    /// Sets the displacement index of the third vertex.
    pub fn displacement_index_3(self, index: OptionalResourceIndex) -> (r: Self)
        ensures
            r@ == (displacement::Triangle { d3: index, ..self@ }),
    {
        let mut b = self;
        b.triangle.d3 = index;
        b
    }

    /// Sets the displacement group of the triangle.
    pub fn displacement_id(self, disp2dgroup_id: ResourceId) -> (r: Self)
        ensures
            r@ == (displacement::Triangle { did: OptionalResourceId { value: Some(disp2dgroup_id) }, ..self@ }),
    {
        let mut b = self;
        b.triangle.did = OptionalResourceId::new(disp2dgroup_id);
        b
    }

    /// Sets the property index of the first vertex.
    pub fn pindex_1(self, pindex: OptionalResourceIndex) -> (r: Self)
        ensures
            r@ == (displacement::Triangle { p1: pindex, ..self@ }),
    {
        let mut b = self;
        b.triangle.p1 = pindex;
        b
    }

    /// Sets the property index of the second vertex.
    pub fn pindex_2(self, pindex: OptionalResourceIndex) -> (r: Self)
        ensures
            r@ == (displacement::Triangle { p2: pindex, ..self@ }),
    {
        let mut b = self;
        b.triangle.p2 = pindex;
        b
    }

    /// Sets the property index of the third vertex.
    pub fn pindex_3(self, pindex: OptionalResourceIndex) -> (r: Self)
        ensures
            r@ == (displacement::Triangle { p3: pindex, ..self@ }),
    {
        let mut b = self;
        b.triangle.p3 = pindex;
        b
    }

    /// Sets the property resource of the triangle.
    pub fn pid(self, pid: ResourceId) -> (r: Self)
        ensures
            r@ == (displacement::Triangle { pid: OptionalResourceId { value: Some(pid) }, ..self@ }),
    {
        let mut b = self;
        b.triangle.pid = OptionalResourceId::new(pid);
        b
    }

    /// The triangle.
    pub fn build(self) -> (r: displacement::Triangle)
        ensures
            r == self@,
    {
        self.triangle
    }
}

// ---------------------------------------------------------------------------------------
// Beams, balls and beam sets
// ---------------------------------------------------------------------------------------

/// The beam between two vertices with nothing else set.
pub open spec fn default_beam(v1: u32, v2: u32) -> Beam {
    Beam {
        v1,
        v2,
        r1: None,
        r2: None,
        p1: OptionalResourceIndex { value: None },
        p2: OptionalResourceIndex { value: None },
        pid: OptionalResourceId { value: None },
        cap1: None,
        cap2: None,
    }
}

/// The ball at a vertex with nothing else set.
pub open spec fn default_ball(vindex: u32) -> Ball {
    Ball { vindex, r: None, p: OptionalResourceIndex { value: None }, pid: OptionalResourceId { value: None } }
}

/// Configures a beam between two vertices.
pub struct BeamBuilder {
    beam: Beam,
}

impl View for BeamBuilder {
    type V = Beam;

    closed spec fn view(&self) -> Beam {
        self.beam
    }
}

impl BeamBuilder {
    /// The beam between the two vertices, with nothing else set.
    pub fn new(v1: ResourceIndex, v2: ResourceIndex) -> (r: Self)
        ensures
            r@ == default_beam(v1, v2),
    {
        BeamBuilder {
            beam: Beam {
                v1,
                v2,
                r1: None,
                r2: None,
                p1: OptionalResourceIndex::none(),
                p2: OptionalResourceIndex::none(),
                pid: OptionalResourceId::none(),
                cap1: None,
                cap2: None,
            },
        }
    }

    /// Sets the radius at the first vertex.
    pub fn radius_1(self, radius: Double) -> (r: Self)
        ensures
            r@ == (Beam { r1: Some(radius), ..self@ }),
    {
        let mut b = self;
        b.beam.r1 = Some(radius);
        b
    }

    /// Sets the radius at the second vertex.
    pub fn radius_2(self, radius: Double) -> (r: Self)
        ensures
            r@ == (Beam { r2: Some(radius), ..self@ }),
    {
        let mut b = self;
        b.beam.r2 = Some(radius);
        b
    }

    /// Sets the property index at the first vertex.
    pub fn pindex_1(self, pindex: OptionalResourceIndex) -> (r: Self)
        ensures
            r@ == (Beam { p1: pindex, ..self@ }),
    {
        let mut b = self;
        b.beam.p1 = pindex;
        b
    }

    /// Sets the property index at the second vertex.
    pub fn pindex_2(self, pindex: OptionalResourceIndex) -> (r: Self)
        ensures
            r@ == (Beam { p2: pindex, ..self@ }),
    {
        let mut b = self;
        b.beam.p2 = pindex;
        b
    }

    /// Sets the property resource of the beam.
    pub fn pid(self, pid: ResourceId) -> (r: Self)
        ensures
            r@ == (Beam { pid: OptionalResourceId { value: Some(pid) }, ..self@ }),
    {
        let mut b = self;
        b.beam.pid = OptionalResourceId::new(pid);
        b
    }

    /// Sets the cap at the first vertex.
    pub fn cap_1(self, cap: CapMode) -> (r: Self)
        ensures
            r@ == (Beam { cap1: Some(cap), ..self@ }),
    {
        let mut b = self;
        b.beam.cap1 = Some(cap);
        b
    }

    /// Sets the cap at the second vertex.
    pub fn cap_2(self, cap: CapMode) -> (r: Self)
        ensures
            r@ == (Beam { cap2: Some(cap), ..self@ }),
    {
        let mut b = self;
        b.beam.cap2 = Some(cap);
        b
    }

    /// The beam.
    pub fn build(self) -> (r: Beam)
        ensures
            r == self@,
    {
        self.beam
    }
}

/// Configures a ball at a vertex.
pub struct BallBuilder {
    ball: Ball,
}

impl View for BallBuilder {
    type V = Ball;

    closed spec fn view(&self) -> Ball {
        self.ball
    }
}

impl BallBuilder {
    /// The ball at vertex `vindex`, with nothing else set.
    pub fn new(vindex: ResourceIndex) -> (r: Self)
        ensures
            r@ == default_ball(vindex),
    {
        BallBuilder {
            ball: Ball { vindex, r: None, p: OptionalResourceIndex::none(), pid: OptionalResourceId::none() },
        }
    }

    /// Sets the radius of the ball.
    pub fn radius(self, radius: Double) -> (r: Self)
        ensures
            r@ == (Ball { r: Some(radius), ..self@ }),
    {
        let mut b = self;
        b.ball.r = Some(radius);
        b
    }

    /// Sets the property index of the ball.
    pub fn pindex(self, pindex: OptionalResourceIndex) -> (r: Self)
        ensures
            r@ == (Ball { p: pindex, ..self@ }),
    {
        let mut b = self;
        b.ball.p = pindex;
        b
    }

    /// Sets the property resource of the ball.
    pub fn pid(self, pid: ResourceIndex) -> (r: Self)
        ensures
            r@ == (Ball { pid: OptionalResourceId { value: Some(pid) }, ..self@ }),
    {
        let mut b = self;
        b.ball.pid = OptionalResourceId::new(pid);
        b
    }

    /// The ball.
    pub fn build(self) -> (r: Ball)
        ensures
            r == self@,
    {
        self.ball
    }
}

/// Configures a named set of beams and balls.
pub struct BeamSetBuilder {
    set: BeamSet,
}

impl View for BeamSetBuilder {
    type V = BeamSet;

    closed spec fn view(&self) -> BeamSet {
        self.set
    }
}

impl BeamSetBuilder {
    /// An empty beam set without name or identifier.
    pub fn new() -> (r: Self)
        ensures
            r@.name is None,
            r@.identifier is None,
            r@.refs@.len() == 0,
            r@.ballref@.len() == 0,
    {
        BeamSetBuilder { set: BeamSet { name: None, identifier: None, refs: Vec::new(), ballref: Vec::new() } }
    }

    /// Sets the name of the set.
    pub fn name(&mut self, name: &str) -> (r: &mut Self)
        ensures
            r@ == (BeamSet { name: r@.name, ..old(self)@ }),
            opt_chars(r@.name) == Some(name@),
            *final(self) == *final(r),
    {
        self.set.name = Some(name.to_owned());
        self
    }

    /// Sets the identifier of the set.
    pub fn identifier(&mut self, id: &str) -> (r: &mut Self)
        ensures
            r@ == (BeamSet { identifier: r@.identifier, ..old(self)@ }),
            opt_chars(r@.identifier) == Some(id@),
            *final(self) == *final(r),
    {
        self.set.identifier = Some(id.to_owned());
        self
    }

    /// Adds a reference to beam `index`.
    pub fn add_beam_ref(&mut self, index: ResourceIndex) -> (r: &mut Self)
        ensures
            r@.refs@ == old(self)@.refs@.push(BeamRef { index }),
            r@.name == old(self)@.name,
            r@.identifier == old(self)@.identifier,
            r@.ballref == old(self)@.ballref,
            *final(self) == *final(r),
    {
        self.set.refs.push(BeamRef { index });
        self
    }

    /// Adds references to the beams `indices`, in order.
    pub fn add_beam_refs(&mut self, indices: &[ResourceIndex]) -> (r: &mut Self)
        ensures
            r@.refs@ == old(self)@.refs@ + indices@.map_values(|i: u32| BeamRef { index: i }),
            r@.name == old(self)@.name,
            r@.identifier == old(self)@.identifier,
            r@.ballref == old(self)@.ballref,
            *final(self) == *final(r),
    {
        let n = indices.len();
        let ghost start = self.set.refs@;
        for k in 0..n
            invariant
                n == indices@.len(),
                self.set.refs@ =~= start + indices@.take(k as int).map_values(|i: u32| BeamRef { index: i }),
                self.set.name == old(self).set.name,
                self.set.identifier == old(self).set.identifier,
                self.set.ballref == old(self).set.ballref,
        {
            self.set.refs.push(BeamRef { index: indices[k] });
            proof {
                assert(indices@.take(k + 1) =~= indices@.take(k as int).push(indices@[k as int]));
            }
        }
        proof {
            assert(indices@.take(n as int) =~= indices@);
        }
        self
    }

    /// Adds a reference to ball `index`.
    pub fn add_ball_ref(&mut self, index: ResourceIndex) -> (r: &mut Self)
        ensures
            r@.ballref@ == old(self)@.ballref@.push(BallRef { index }),
            r@.name == old(self)@.name,
            r@.identifier == old(self)@.identifier,
            r@.refs == old(self)@.refs,
            *final(self) == *final(r),
    {
        self.set.ballref.push(BallRef { index });
        self
    }

    /// Adds references to the balls `indices`, in order.
    pub fn add_ball_refs(&mut self, indices: &[ResourceIndex]) -> (r: &mut Self)
        ensures
            r@.ballref@ == old(self)@.ballref@ + indices@.map_values(|i: u32| BallRef { index: i }),
            r@.name == old(self)@.name,
            r@.identifier == old(self)@.identifier,
            r@.refs == old(self)@.refs,
            *final(self) == *final(r),
    {
        let n = indices.len();
        let ghost start = self.set.ballref@;
        for k in 0..n
            invariant
                n == indices@.len(),
                self.set.ballref@ =~= start + indices@.take(k as int).map_values(|i: u32| BallRef { index: i }),
                self.set.name == old(self).set.name,
                self.set.identifier == old(self).set.identifier,
                self.set.refs == old(self).set.refs,
        {
            self.set.ballref.push(BallRef { index: indices[k] });
            proof {
                assert(indices@.take(k + 1) =~= indices@.take(k as int).push(indices@[k as int]));
            }
        }
        proof {
            assert(indices@.take(n as int) =~= indices@);
        }
        self
    }

    /// The beam set.
    pub fn build(self) -> (r: BeamSet)
        ensures
            r == self@,
    {
        self.set
    }
}

// ---------------------------------------------------------------------------------------
// Triangle sets
// ---------------------------------------------------------------------------------------

/// Groups the triangles of a mesh into named sets.
pub struct TriangleSetsBuilder {
    sets: Vec<TriangleSet>,
}

impl View for TriangleSetsBuilder {
    type V = Seq<TriangleSet>;

    closed spec fn view(&self) -> Seq<TriangleSet> {
        self.sets@
    }
}

impl TriangleSetsBuilder {
    /// The triangle sets that the builder makes.
    pub closed spec fn built(&self) -> TriangleSets {
        TriangleSets { trianglesets: self.sets }
    }

    /// The sets that the builder makes are the ones it holds.
    pub proof fn lemma_built_holds_sets(&self)
        ensures
            self.built().trianglesets@ == self@,
    {
    }

    /// No sets.
    pub fn new() -> (r: Self)
        ensures
            r@.len() == 0,
    {
        TriangleSetsBuilder { sets: Vec::new() }
    }

    /// Adds a set with the given name and identifier, holding the triangles `refs` and
    /// the ranges of triangles `ranges`, each from its start to its end index.
    pub fn add_set(&mut self, name: &str, identifier: &str, refs: &[u32], ranges: &[(u32, u32)]) -> (r: &mut Self)
        ensures
            r@.len() == old(self)@.len() + 1,
            r@.take(old(self)@.len() as int) == old(self)@,
            r@.last().name@ == name@,
            r@.last().identifier@ == identifier@,
            r@.last().triangle_ref@ == refs@.map_values(|i: u32| TriangleRef { index: i }),
            r@.last().triangle_refrange@ == ranges@.map_values(
                |p: (u32, u32)| TriangleRefRange { startindex: p.0, endindex: p.1 },
            ),
            *final(self) == *final(r),
    {
        let mut triangle_ref: Vec<TriangleRef> = Vec::new();
        let n = refs.len();
        for k in 0..n
            invariant
                n == refs@.len(),
                triangle_ref@ =~= refs@.take(k as int).map_values(|i: u32| TriangleRef { index: i }),
        {
            triangle_ref.push(TriangleRef { index: refs[k] });
            proof {
                assert(refs@.take(k + 1) =~= refs@.take(k as int).push(refs@[k as int]));
            }
        }
        let mut triangle_refrange: Vec<TriangleRefRange> = Vec::new();
        let m = ranges.len();
        for k in 0..m
            invariant
                m == ranges@.len(),
                triangle_refrange@ =~= ranges@.take(k as int).map_values(
                    |p: (u32, u32)| TriangleRefRange { startindex: p.0, endindex: p.1 },
                ),
        {
            let (start, end) = ranges[k];
            triangle_refrange.push(TriangleRefRange { startindex: start, endindex: end });
            proof {
                assert(ranges@.take(k + 1) =~= ranges@.take(k as int).push(ranges@[k as int]));
            }
        }
        proof {
            assert(refs@.take(n as int) =~= refs@);
            assert(ranges@.take(m as int) =~= ranges@);
        }
        let ghost before = self.sets@;
        self.sets.push(
            TriangleSet {
                name: name.to_owned(),
                identifier: identifier.to_owned(),
                triangle_ref,
                triangle_refrange,
            },
        );
        proof {
            assert(self.sets@.take(before.len() as int) =~= before);
        }
        self
    }

    /// The triangle sets.
    pub fn build(self) -> (r: TriangleSets)
        ensures
            r == self.built(),
            r.trianglesets@ == self@,
    {
        TriangleSets { trianglesets: self.sets }
    }
}

} // verus!
