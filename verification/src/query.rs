//! Stable read-only views over a model and the functions that find resources in it.

use vstd::prelude::*;

use crate::domain::beamlattice::{self, BallMode, BeamLattice, BeamSet, CapMode, ClippingMode};
use crate::domain::boolean::{self, BooleanOperation};
use crate::domain::build_section::Item;
use crate::domain::component::Components;
use crate::domain::displacement::{self, Disp2DGroup, Displacement2D, NormVectorGroup};
use crate::domain::material::{
    self, ColorGroup, CompositeMaterials, MultiProperties, Texture2D, Texture2DGroup,
};
use crate::domain::mesh::Mesh;
use crate::domain::model::{Metadata, Model, Unit};
use crate::domain::object::{
    self, boolean_shape_of, components_of, displacement_mesh_of, mesh_of, Object, ObjectKind,
    ObjectType,
};
use crate::domain::resources::BaseMaterials;
use crate::domain::slice::{self, SliceStack};
use crate::domain::transform::Transform;
use crate::domain::triangle_set::TriangleSet;
use crate::namespaces::ThreemfNamespace;
use crate::used_namespaces::model_used_namespaces;
use crate::text::{clone_opt_string, opt_as_str, opt_chars, opt_str_chars};
use crate::types::{Color, Double, OptionalResourceId, OptionalResourceIndex};

verus! {

/// Stable classification for object kinds.
#[derive(Debug, Clone, Copy, PartialEq, Eq, Structural)]
pub enum ObjectKindView {
    Mesh,
    Components,
    BooleanShape,
    DisplacementMesh,
}

/// Stable view over a model.
pub struct ModelView<'a> {
    model: &'a Model,
}

impl<'a> View for ModelView<'a> {
    type V = Model;

    closed spec fn view(&self) -> Model {
        *self.model
    }
}

impl<'a> ModelView<'a> {
    /// A view over `model`.
    pub fn new(model: &'a Model) -> (r: Self)
        ensures
            r@ == *model,
    {
        ModelView { model }
    }

    /// The unit of measurement of the model, millimeters when none is given.
    pub fn unit(&self) -> (r: Unit)
        ensures
            r == match self@.unit {
                Some(u) => u,
                None => Unit::Millimeter,
            },
    {
        match self.model.unit {
            Some(u) => u,
            None => Unit::Millimeter,
        }
    }

    /// The number of objects in the model.
    pub fn object_count(&self) -> (r: usize)
        ensures
            r == self@.resources.object@.len(),
    {
        self.model.resources.object.len()
    }

    /// The number of items in the build.
    pub fn build_item_count(&self) -> (r: usize)
        ensures
            r == self@.build.item@.len(),
    {
        self.model.build.item.len()
    }

    /// The UUID of the build, if any.
    pub fn build_uuid(&self) -> (r: Option<String>)
        ensures
            opt_chars(r) == opt_chars(self@.build.uuid),
    {
        clone_opt_string(&self.model.build.uuid)
    }

    /// The number of slice stacks in the model.
    pub fn slice_stack_count(&self) -> (r: usize)
        ensures
            r == self@.resources.slicestack@.len(),
    {
        self.model.resources.slicestack.len()
    }

    /// The number of color groups in the model.
    pub fn color_group_count(&self) -> (r: usize)
        ensures
            r == self@.resources.colorgroup@.len(),
    {
        self.model.resources.colorgroup.len()
    }

    /// The number of texture 2D groups in the model.
    pub fn texture2d_group_count(&self) -> (r: usize)
        ensures
            r == self@.resources.texture2dgroup@.len(),
    {
        self.model.resources.texture2dgroup.len()
    }

    /// The number of texture 2D resources in the model.
    pub fn texture2d_count(&self) -> (r: usize)
        ensures
            r == self@.resources.texture2d@.len(),
    {
        self.model.resources.texture2d.len()
    }

    /// The number of composite materials in the model.
    pub fn composite_materials_count(&self) -> (r: usize)
        ensures
            r == self@.resources.compositematerials@.len(),
    {
        self.model.resources.compositematerials.len()
    }

    /// The number of multi-properties in the model.
    pub fn multi_properties_count(&self) -> (r: usize)
        ensures
            r == self@.resources.multiproperties@.len(),
    {
        self.model.resources.multiproperties.len()
    }

    /// The number of base materials in the model.
    pub fn base_materials_count(&self) -> (r: usize)
        ensures
            r == self@.resources.basematerials@.len(),
    {
        self.model.resources.basematerials.len()
    }

    /// The number of displacement 2D resources in the model.
    pub fn displacement2d_count(&self) -> (r: usize)
        ensures
            r == self@.resources.displacement2d@.len(),
    {
        self.model.resources.displacement2d.len()
    }

    /// The number of normal vector groups in the model.
    pub fn normvectorgroup_count(&self) -> (r: usize)
        ensures
            r == self@.resources.normvectorgroup@.len(),
    {
        self.model.resources.normvectorgroup.len()
    }

    /// The number of displacement 2D groups in the model.
    pub fn disp2dgroup_count(&self) -> (r: usize)
        ensures
            r == self@.resources.disp2dgroup@.len(),
    {
        self.model.resources.disp2dgroup.len()
    }

    /// The number of metadata entries in the model.
    pub fn metadata_count(&self) -> (r: usize)
        ensures
            r == self@.metadata@.len(),
    {
        self.model.metadata.len()
    }

    /// Views over the metadata entries of the model, in order.
    pub fn metadata_iter(&self) -> (r: Vec<MetadataView<'a>>)
        ensures
            r@.len() == self@.metadata@.len(),
            forall|i: int| 0 <= i < r@.len() ==> #[trigger] r@[i]@ == self@.metadata@[i],
    {
        let model: &'a Model = self.model;
        let mut r: Vec<MetadataView<'a>> = Vec::new();
        let n = model.metadata.len();
        for i in 0..n
            invariant
                n == model.metadata@.len(),
                *model == self@,
                r@.len() == i,
                forall|j: int| 0 <= j < i ==> #[trigger] r@[j]@ == model.metadata@[j],
        {
            r.push(MetadataView { metadata: &model.metadata[i] });
        }
        r
    }

    /// The required extensions of the model, if there are any.
    pub fn required_extensions(&self) -> (r: Option<&'a [ThreemfNamespace]>)
        ensures
            match r {
                Some(s) => s@ == self@.requiredextensions@ && s@.len() > 0,
                None => self@.requiredextensions@.len() == 0,
            },
    {
        let model: &'a Model = self.model;
        if model.requiredextensions.len() == 0 {
            None
        } else {
            Some(model.requiredextensions.as_slice())
        }
    }

    /// The recommended extensions of the model, if there are any.
    pub fn recommended_extensions(&self) -> (r: Option<&'a [ThreemfNamespace]>)
        ensures
            match r {
                Some(s) => s@ == self@.recommendedextensions@ && s@.len() > 0,
                None => self@.recommendedextensions@.len() == 0,
            },
    {
        let model: &'a Model = self.model;
        if model.recommendedextensions.len() == 0 {
            None
        } else {
            Some(model.recommendedextensions.as_slice())
        }
    }

    /// The namespaces that the model uses, each URI once.
    pub fn used_namespaces(&self) -> (r: Vec<ThreemfNamespace>)
        ensures
            r@ == model_used_namespaces(self@),
    {
        self.model.used_namespaces()
    }
}

/// Stable view over a metadata entry.
pub struct MetadataView<'a> {
    metadata: &'a Metadata,
}

impl<'a> View for MetadataView<'a> {
    type V = Metadata;

    closed spec fn view(&self) -> Metadata {
        *self.metadata
    }
}

impl<'a> MetadataView<'a> {
    /// A view over `metadata`.
    pub fn new(metadata: &'a Metadata) -> (r: Self)
        ensures
            r@ == *metadata,
    {
        MetadataView { metadata }
    }

    /// The name of the metadata entry.
    pub fn name(&self) -> (r: &'a str)
        ensures
            r@ == self@.name@,
    {
        let m: &'a Metadata = self.metadata;
        m.name.as_str()
    }

    /// The preserve flag of the metadata entry, if any.
    pub fn preserve(&self) -> (r: Option<bool>)
        ensures
            r == self@.preserve,
    {
        self.metadata.preserve
    }

    /// The value of the metadata entry, if any.
    pub fn value(&self) -> (r: Option<&'a str>)
        ensures
            opt_str_chars(r) == opt_chars(self@.value),
    {
        let m: &'a Metadata = self.metadata;
        opt_as_str(&m.value)
    }
}

/// Stable view over a model object.
pub struct ObjectView<'a> {
    object: &'a Object,
}

impl<'a> View for ObjectView<'a> {
    type V = Object;

    closed spec fn view(&self) -> Object {
        *self.object
    }
}

impl<'a> ObjectView<'a> {
    /// A view over `object`.
    pub fn new(object: &'a Object) -> (r: Self)
        ensures
            r@ == *object,
    {
        ObjectView { object }
    }

    /// The identifier of the object.
    pub fn id(&self) -> (r: u32)
        ensures
            r == self@.id,
    {
        self.object.id
    }

    /// The name of the object, if any.
    pub fn name(&self) -> (r: Option<&'a str>)
        ensures
            opt_str_chars(r) == opt_chars(self@.name),
    {
        let o: &'a Object = self.object;
        opt_as_str(&o.name)
    }

    /// The part number of the object, if any.
    pub fn part_number(&self) -> (r: Option<&'a str>)
        ensures
            opt_str_chars(r) == opt_chars(self@.partnumber),
    {
        let o: &'a Object = self.object;
        opt_as_str(&o.partnumber)
    }

    /// The UUID of the object, if any.
    pub fn uuid(&self) -> (r: Option<String>)
        ensures
            opt_chars(r) == opt_chars(self@.uuid),
    {
        clone_opt_string(&self.object.uuid)
    }

    /// The type of the object, `Model` when none is given.
    pub fn object_type(&self) -> (r: ObjectType)
        ensures
            r == match self@.objecttype {
                Some(t) => t,
                None => ObjectType::Model,
            },
    {
        match self.object.objecttype {
            Some(t) => t,
            None => ObjectType::Model,
        }
    }

    /// The kind of the object; an object always has one.
    pub fn kind(&self) -> (r: ObjectKindView)
        requires
            self@.kind is Some,
        ensures
            r == object_kind_view(self@.kind->0),
    {
        match &self.object.kind {
            Some(ObjectKind::Mesh(_)) => ObjectKindView::Mesh,
            Some(ObjectKind::Components(_)) => ObjectKindView::Components,
            Some(ObjectKind::BooleanShape(_)) => ObjectKindView::BooleanShape,
            Some(ObjectKind::DisplacementMesh(_)) => ObjectKindView::DisplacementMesh,
            None => ObjectKindView::Mesh,
        }
    }

    /// True if the object is a mesh.
    pub fn is_mesh(&self) -> (r: bool)
        ensures
            r == (mesh_of(self@) is Some),
    {
        match &self.object.kind {
            Some(ObjectKind::Mesh(_)) => true,
            _ => false,
        }
    }

    /// True if the object is a components assembly.
    pub fn is_components(&self) -> (r: bool)
        ensures
            r == (components_of(self@) is Some),
    {
        match &self.object.kind {
            Some(ObjectKind::Components(_)) => true,
            _ => false,
        }
    }

    /// True if the object is a boolean shape.
    pub fn is_boolean_shape(&self) -> (r: bool)
        ensures
            r == (boolean_shape_of(self@) is Some),
    {
        match &self.object.kind {
            Some(ObjectKind::BooleanShape(_)) => true,
            _ => false,
        }
    }

    /// True if the object is a displacement mesh.
    pub fn is_displacement_mesh(&self) -> (r: bool)
        ensures
            r == (displacement_mesh_of(self@) is Some),
    {
        match &self.object.kind {
            Some(ObjectKind::DisplacementMesh(_)) => true,
            _ => false,
        }
    }

    /// The property group id of the object.
    pub fn pid(&self) -> (r: OptionalResourceId)
        ensures
            r == self@.pid,
    {
        self.object.pid
    }

    /// The property index of the object.
    pub fn pindex(&self) -> (r: OptionalResourceIndex)
        ensures
            r == self@.pindex,
    {
        self.object.pindex
    }

    /// The slice path of the object, if any.
    pub fn slicepath(&self) -> (r: Option<&'a str>)
        ensures
            opt_str_chars(r) == opt_chars(self@.slicepath),
    {
        let o: &'a Object = self.object;
        opt_as_str(&o.slicepath)
    }

    /// The slice stack id of the object, if any.
    pub fn slicestack_id(&self) -> (r: Option<u32>)
        ensures
            r == self@.slicestackid.value,
    {
        self.object.slicestackid.value
    }
}

/// The classification of an object kind.
pub open spec fn object_kind_view(k: ObjectKind) -> ObjectKindView {
    match k {
        ObjectKind::Mesh(_) => ObjectKindView::Mesh,
        ObjectKind::Components(_) => ObjectKindView::Components,
        ObjectKind::BooleanShape(_) => ObjectKindView::BooleanShape,
        ObjectKind::DisplacementMesh(_) => ObjectKindView::DisplacementMesh,
    }
}

/// The vertex indices of a triangle.
pub open spec fn triangle_indices(t: crate::domain::mesh::Triangle) -> Seq<u32> {
    seq![t.v1, t.v2, t.v3]
}

/// The property data of a triangle: `p1`, `p2`, `p3`, `pid`.
pub open spec fn triangle_data(t: crate::domain::mesh::Triangle) -> Seq<Option<u32>> {
    seq![t.p1.value, t.p2.value, t.p3.value, t.pid.value]
}

/// The position of a vertex.
pub open spec fn vertex_position(v: crate::domain::mesh::Vertex) -> Seq<Double> {
    seq![v.x, v.y, v.z]
}

/// Stable view over a mesh object.
pub struct MeshObjectView<'a> {
    object: &'a Object,
    mesh: &'a Mesh,
}

impl<'a> View for MeshObjectView<'a> {
    type V = Object;

    closed spec fn view(&self) -> Object {
        *self.object
    }
}

impl<'a> MeshObjectView<'a> {
    /// The mesh of the viewed object.
    pub closed spec fn mesh(&self) -> Mesh {
        *self.mesh
    }

    /// A view over `object` if it is a mesh object.
    pub fn from_object(object: &'a Object) -> (r: Option<Self>)
        ensures
            match r {
                Some(v) => v@ == *object && mesh_of(*object) == Some(v.mesh()),
                None => mesh_of(*object) is None,
            },
    {
        match object.get_mesh() {
            Some(mesh) => Some(MeshObjectView { object, mesh }),
            None => None,
        }
    }

    /// The identifier of the mesh object.
    pub fn id(&self) -> (r: u32)
        ensures
            r == self@.id,
    {
        self.object.id
    }

    /// The name of the mesh object, if any.
    pub fn name(&self) -> (r: Option<&'a str>)
        ensures
            opt_str_chars(r) == opt_chars(self@.name),
    {
        let o: &'a Object = self.object;
        opt_as_str(&o.name)
    }

    /// The property group id of the mesh object.
    pub fn pid(&self) -> (r: OptionalResourceId)
        ensures
            r == self@.pid,
    {
        self.object.pid
    }

    /// The property index of the mesh object.
    pub fn pindex(&self) -> (r: OptionalResourceIndex)
        ensures
            r == self@.pindex,
    {
        self.object.pindex
    }

    /// The UUID of the mesh object, if any.
    pub fn uuid(&self) -> (r: Option<String>)
        ensures
            opt_chars(r) == opt_chars(self@.uuid),
    {
        clone_opt_string(&self.object.uuid)
    }

    /// The number of vertices in the mesh.
    pub fn vertex_count(&self) -> (r: usize)
        ensures
            r == self.mesh().vertices.vertex@.len(),
    {
        self.mesh.vertices.vertex.len()
    }

    /// The number of triangles in the mesh.
    pub fn triangle_count(&self) -> (r: usize)
        ensures
            r == self.mesh().triangles.triangle@.len(),
    {
        self.mesh.triangles.triangle.len()
    }

    /// True if the mesh has a beam lattice.
    pub fn has_beamlattice(&self) -> (r: bool)
        ensures
            r == (self.mesh().beamlattice is Some),
    {
        self.mesh.beamlattice.is_some()
    }

    /// True if the mesh has triangle sets.
    pub fn has_triangle_sets(&self) -> (r: bool)
        ensures
            r == (self.mesh().trianglesets is Some),
    {
        self.mesh.trianglesets.is_some()
    }

    /// The vertex positions of the mesh, in order.
    pub fn vertices(&self) -> (r: Vec<[Double; 3]>)
        ensures
            r@.len() == self.mesh().vertices.vertex@.len(),
            forall|i: int|
                0 <= i < r@.len() ==> #[trigger] r@[i]@ == vertex_position(
                    self.mesh().vertices.vertex@[i],
                ),
    {
        let mesh: &'a Mesh = self.mesh;
        let n = mesh.vertices.vertex.len();
        let mut r: Vec<[Double; 3]> = Vec::new();
        for i in 0..n
            invariant
                n == mesh.vertices.vertex@.len(),
                *mesh == self.mesh(),
                r@.len() == i,
                forall|j: int|
                    0 <= j < i ==> #[trigger] r@[j]@ == vertex_position(mesh.vertices.vertex@[j]),
        {
            let v = mesh.vertices.vertex[i];
            let a = [v.x, v.y, v.z];
            assert(a@ =~= vertex_position(v));
            r.push(a);
        }
        r
    }

    /// The vertex indices of the triangles of the mesh, in order.
    pub fn triangles(&self) -> (r: Vec<[u32; 3]>)
        ensures
            r@.len() == self.mesh().triangles.triangle@.len(),
            forall|i: int|
                0 <= i < r@.len() ==> #[trigger] r@[i]@ == triangle_indices(
                    self.mesh().triangles.triangle@[i],
                ),
    {
        let mesh: &'a Mesh = self.mesh;
        let n = mesh.triangles.triangle.len();
        let mut r: Vec<[u32; 3]> = Vec::new();
        for i in 0..n
            invariant
                n == mesh.triangles.triangle@.len(),
                *mesh == self.mesh(),
                r@.len() == i,
                forall|j: int|
                    0 <= j < i ==> #[trigger] r@[j]@ == triangle_indices(
                        mesh.triangles.triangle@[j],
                    ),
        {
            let t = mesh.triangles.triangle[i];
            let a = [t.v1, t.v2, t.v3];
            assert(a@ =~= triangle_indices(t));
            r.push(a);
        }
        r
    }

    /// The property data (`p1`, `p2`, `p3`, `pid`) of the triangles of the mesh, in order.
    pub fn triangles_data(&self) -> (r: Vec<[Option<u32>; 4]>)
        ensures
            r@.len() == self.mesh().triangles.triangle@.len(),
            forall|i: int|
                0 <= i < r@.len() ==> #[trigger] r@[i]@ == triangle_data(
                    self.mesh().triangles.triangle@[i],
                ),
    {
        let mesh: &'a Mesh = self.mesh;
        let n = mesh.triangles.triangle.len();
        let mut r: Vec<[Option<u32>; 4]> = Vec::new();
        for i in 0..n
            invariant
                n == mesh.triangles.triangle@.len(),
                *mesh == self.mesh(),
                r@.len() == i,
                forall|j: int|
                    0 <= j < i ==> #[trigger] r@[j]@ == triangle_data(mesh.triangles.triangle@[j]),
        {
            let t = mesh.triangles.triangle[i];
            let a = [t.p1.value, t.p2.value, t.p3.value, t.pid.value];
            assert(a@ =~= triangle_data(t));
            r.push(a);
        }
        r
    }

    /// The number of triangle sets in the mesh.
    pub fn triangle_set_count(&self) -> (r: usize)
        ensures
            r == match self.mesh().trianglesets {
                Some(sets) => sets.trianglesets@.len(),
                None => 0,
            },
    {
        match &self.mesh.trianglesets {
            Some(sets) => sets.trianglesets.len(),
            None => 0,
        }
    }

    /// Views over the triangle sets of the mesh, if it has any.
    pub fn triangle_sets(&self) -> (r: Option<Vec<TriangleSetView<'a>>>)
        ensures
            match self.mesh().trianglesets {
                Some(sets) => r is Some && triangle_set_views_of(r->0, sets.trianglesets@),
                None => r is None,
            },
    {
        let mesh: &'a Mesh = self.mesh;
        match &mesh.trianglesets {
            Some(sets) => Some(triangle_set_views(&sets.trianglesets)),
            None => None,
        }
    }

    /// A view over the beam lattice of the mesh, if any.
    pub fn lattice(&self) -> (r: Option<LatticeView<'a>>)
        ensures
            match self.mesh().beamlattice {
                Some(l) => r is Some && r->0@ == l,
                None => r is None,
            },
    {
        let mesh: &'a Mesh = self.mesh;
        match &mesh.beamlattice {
            Some(l) => Some(LatticeView { lattice: l }),
            None => None,
        }
    }
}

/// `views` are views over `sets`, one for one, in order.
pub open spec fn triangle_set_views_of(views: Vec<TriangleSetView>, sets: Seq<TriangleSet>) -> bool {
    &&& views@.len() == sets.len()
    &&& forall|i: int| 0 <= i < sets.len() ==> #[trigger] views@[i]@ == sets[i]
}

/// Views over the given triangle sets, in order.
fn triangle_set_views<'a>(sets: &'a Vec<TriangleSet>) -> (r: Vec<TriangleSetView<'a>>)
    ensures
        triangle_set_views_of(r, sets@),
{
    let n = sets.len();
    let mut r: Vec<TriangleSetView<'a>> = Vec::new();
    for i in 0..n
        invariant
            n == sets@.len(),
            r@.len() == i,
            forall|j: int| 0 <= j < i ==> #[trigger] r@[j]@ == sets@[j],
    {
        r.push(TriangleSetView { set: &sets[i] });
    }
    r
}

/// Stable view over a triangle set.
pub struct TriangleSetView<'a> {
    set: &'a TriangleSet,
}

impl<'a> View for TriangleSetView<'a> {
    type V = TriangleSet;

    closed spec fn view(&self) -> TriangleSet {
        *self.set
    }
}

/// The indices `start..=end`, in increasing order.
pub open spec fn index_range(start: u32, end: u32) -> Seq<u32> {
    Seq::new(
        if end >= start { (end - start + 1) as nat } else { 0 },
        |k: int| (start + k) as u32,
    )
}

/// The triangle indices of the given ranges, range after range.
pub open spec fn ranges_indices(ranges: Seq<crate::domain::triangle_set::TriangleRefRange>) -> Seq<u32>
    decreases ranges.len(),
{
    if ranges.len() == 0 {
        seq![]
    } else {
        ranges_indices(ranges.drop_last()) + index_range(
            ranges.last().startindex,
            ranges.last().endindex,
        )
    }
}

/// The triangle indices of a set: its single references in order, then its ranges expanded.
pub open spec fn triangle_set_indices(set: TriangleSet) -> Seq<u32> {
    set.triangle_ref@.map_values(|r: crate::domain::triangle_set::TriangleRef| r.index)
        + ranges_indices(set.triangle_refrange@)
}

impl<'a> TriangleSetView<'a> {
    /// The name of the triangle set.
    pub fn name(&self) -> (r: &'a str)
        ensures
            r@ == self@.name@,
    {
        let s: &'a TriangleSet = self.set;
        s.name.as_str()
    }

    /// The identifier of the triangle set.
    pub fn identifier(&self) -> (r: &'a str)
        ensures
            r@ == self@.identifier@,
    {
        let s: &'a TriangleSet = self.set;
        s.identifier.as_str()
    }

    /// The triangle indices of the set: single references first, then each range expanded
    /// in increasing order.
    pub fn triangles_iter(&self) -> (r: Vec<u32>)
        ensures
            r@ == triangle_set_indices(self@),
    {
        let set: &'a TriangleSet = self.set;
        let mut r: Vec<u32> = Vec::new();
        let n = set.triangle_ref.len();
        for i in 0..n
            invariant
                n == set.triangle_ref@.len(),
                r@ =~= set.triangle_ref@.take(i as int).map_values(
                    |t: crate::domain::triangle_set::TriangleRef| t.index,
                ),
        {
            r.push(set.triangle_ref[i].index);
        }
        assert(set.triangle_ref@.take(n as int) =~= set.triangle_ref@);
        let ghost prefix = r@;
        let m = set.triangle_refrange.len();
        for k in 0..m
            invariant
                m == set.triangle_refrange@.len(),
                r@ =~= prefix + ranges_indices(set.triangle_refrange@.take(k as int)),
        {
            let range = set.triangle_refrange[k];
            let ghost before = r@;
            let mut idx: u64 = range.startindex as u64;
            let end: u64 = range.endindex as u64;
            while idx <= end
                invariant
                    range.startindex <= idx <= end + 1 || end < range.startindex,
                    idx >= range.startindex,
                    end == range.endindex,
                    r@ =~= before + index_range(range.startindex, range.endindex).take(
                        if end >= range.startindex { idx - range.startindex } else { 0 },
                    ),
                decreases end + 1 - idx,
            {
                r.push(idx as u32);
                idx = idx + 1;
            }
            assert(index_range(range.startindex, range.endindex).take(
                if end >= range.startindex { idx - range.startindex } else { 0 },
            ) =~= index_range(range.startindex, range.endindex));
            assert(set.triangle_refrange@.take(k + 1).drop_last() =~= set.triangle_refrange@.take(
                k as int,
            ));
        }
        assert(set.triangle_refrange@.take(m as int) =~= set.triangle_refrange@);
        r
    }
}

/// Stable view over a beam lattice.
pub struct LatticeView<'a> {
    lattice: &'a BeamLattice,
}

impl<'a> View for LatticeView<'a> {
    type V = BeamLattice;

    closed spec fn view(&self) -> BeamLattice {
        *self.lattice
    }
}

/// Summary data for a beam lattice.
#[derive(Debug, Clone, PartialEq, Eq)]
pub struct LatticeData {
    pub beam_count: u32,
    pub ball_count: u32,
    pub minlength: Double,
    pub radius: Double,
    pub clipping_mesh_id: Option<u32>,
    pub clippingmode: ClippingMode,
    pub representation_mesh_id: Option<u32>,
    pub pid: Option<u32>,
    pub pindex: Option<u32>,
    pub ball_radius: Option<Double>,
    pub ball_mode: BallMode,
}

/// A beam with the lattice defaults applied.
#[derive(Debug, Clone, Copy, PartialEq, Eq)]
pub struct BeamView {
    pub v1: u32,
    pub v2: u32,
    pub r1: Double,
    pub r2: Double,
    pub cap1: CapMode,
    pub cap2: CapMode,
}

/// A ball with the lattice default radius applied.
#[derive(Debug, Clone, Copy, PartialEq, Eq)]
pub struct BallView {
    pub vindex: u32,
    pub radius: Double,
    pub pindex: Option<u32>,
    pub pid: Option<u32>,
}

/// The number of balls of a lattice (0 when it has none).
pub open spec fn lattice_ball_count(l: BeamLattice) -> nat {
    match l.balls {
        Some(b) => b.ball@.len(),
        None => 0,
    }
}

/// `o` if present, else `d`.
pub open spec fn or_default<T>(o: Option<T>, d: T) -> T {
    match o {
        Some(v) => v,
        None => d,
    }
}

/// A beam with the lattice's default radius and cap mode (sphere when unset) applied.
pub open spec fn beam_view_of(l: BeamLattice, b: beamlattice::Beam) -> BeamView {
    BeamView {
        v1: b.v1,
        v2: b.v2,
        r1: or_default(b.r1, l.radius),
        r2: or_default(b.r2, l.radius),
        cap1: or_default(b.cap1, or_default(l.cap, CapMode::Sphere)),
        cap2: or_default(b.cap2, or_default(l.cap, CapMode::Sphere)),
    }
}

/// A ball with the lattice's default ball radius (0.0 when unset) applied.
pub open spec fn ball_view_of(l: BeamLattice, b: beamlattice::Ball) -> BallView {
    BallView {
        vindex: b.vindex,
        radius: or_default(b.r, or_default(l.ballradius, Double { bits: 0 })),
        pindex: b.p.value,
        pid: b.pid.value,
    }
}

impl<'a> LatticeView<'a> {
    /// Summary data for the beam lattice; counts are truncated to 32 bits.
    pub fn data(&self) -> (r: LatticeData)
        ensures
            r.beam_count == self@.beams.beam@.len() as u32,
            r.ball_count == lattice_ball_count(self@) as u32,
            r.minlength == self@.minlength,
            r.radius == self@.radius,
            r.clipping_mesh_id == self@.clippingmesh.value,
            r.clippingmode == or_default(self@.clippingmode, ClippingMode::NoClipping),
            r.representation_mesh_id == self@.representationmesh.value,
            r.pid == self@.pid.value,
            r.pindex == self@.pindex.value,
            r.ball_radius == self@.ballradius,
            r.ball_mode == or_default(self@.ballmode, BallMode::NoBalls),
    {
        let l: &'a BeamLattice = self.lattice;
        LatticeData {
            beam_count: l.beams.beam.len() as u32,
            ball_count: self.ball_count() as u32,
            minlength: l.minlength,
            radius: l.radius,
            clipping_mesh_id: l.clippingmesh.value,
            clippingmode: match l.clippingmode {
                Some(m) => m,
                None => ClippingMode::NoClipping,
            },
            representation_mesh_id: l.representationmesh.value,
            pid: l.pid.value,
            pindex: l.pindex.value,
            ball_radius: l.ballradius,
            ball_mode: match l.ballmode {
                Some(m) => m,
                None => BallMode::NoBalls,
            },
        }
    }

    /// The number of beams in the lattice.
    pub fn beam_count(&self) -> (r: usize)
        ensures
            r == self@.beams.beam@.len(),
    {
        self.lattice.beams.beam.len()
    }

    /// The beams of the lattice with the lattice defaults applied, in order.
    pub fn beams(&self) -> (r: Vec<BeamView>)
        ensures
            r@.len() == self@.beams.beam@.len(),
            forall|i: int|
                0 <= i < r@.len() ==> #[trigger] r@[i] == beam_view_of(self@, self@.beams.beam@[i]),
    {
        let l: &'a BeamLattice = self.lattice;
        let default_radius = l.radius;
        let default_cap = match l.cap {
            Some(c) => c,
            None => CapMode::Sphere,
        };
        let n = l.beams.beam.len();
        let mut r: Vec<BeamView> = Vec::new();
        for i in 0..n
            invariant
                n == l.beams.beam@.len(),
                *l == self@,
                default_radius == l.radius,
                default_cap == or_default(l.cap, CapMode::Sphere),
                r@.len() == i,
                forall|j: int| 0 <= j < i ==> #[trigger] r@[j] == beam_view_of(*l, l.beams.beam@[j]),
        {
            let b = l.beams.beam[i];
            r.push(
                BeamView {
                    v1: b.v1,
                    v2: b.v2,
                    r1: match b.r1 {
                        Some(x) => x,
                        None => default_radius,
                    },
                    r2: match b.r2 {
                        Some(x) => x,
                        None => default_radius,
                    },
                    cap1: match b.cap1 {
                        Some(c) => c,
                        None => default_cap,
                    },
                    cap2: match b.cap2 {
                        Some(c) => c,
                        None => default_cap,
                    },
                },
            );
        }
        r
    }

    /// The number of balls in the lattice.
    pub fn ball_count(&self) -> (r: usize)
        ensures
            r == lattice_ball_count(self@),
    {
        match &self.lattice.balls {
            Some(b) => b.ball.len(),
            None => 0,
        }
    }

    /// The balls of the lattice with the default ball radius applied, if it has balls.
    pub fn balls(&self) -> (r: Option<Vec<BallView>>)
        ensures
            match self@.balls {
                Some(b) => r is Some && r->0@.len() == b.ball@.len() && forall|i: int|
                    0 <= i < b.ball@.len() ==> #[trigger] r->0@[i] == ball_view_of(
                        self@,
                        b.ball@[i],
                    ),
                None => r is None,
            },
    {
        let l: &'a BeamLattice = self.lattice;
        let default_radius = match l.ballradius {
            Some(x) => x,
            None => Double::from_bits(0),
        };
        match &l.balls {
            Some(b) => {
                let n = b.ball.len();
                let mut r: Vec<BallView> = Vec::new();
                for i in 0..n
                    invariant
                        n == b.ball@.len(),
                        *l == self@,
                        l.balls == Some(*b),
                        default_radius == or_default(l.ballradius, Double { bits: 0 }),
                        r@.len() == i,
                        forall|j: int|
                            0 <= j < i ==> #[trigger] r@[j] == ball_view_of(*l, b.ball@[j]),
                {
                    let ball = b.ball[i];
                    r.push(
                        BallView {
                            vindex: ball.vindex,
                            radius: match ball.r {
                                Some(x) => x,
                                None => default_radius,
                            },
                            pindex: ball.p.value,
                            pid: ball.pid.value,
                        },
                    );
                }
                Some(r)
            },
            None => None,
        }
    }

    /// The number of beam sets in the lattice.
    pub fn beamset_count(&self) -> (r: usize)
        ensures
            r == match self@.beamsets {
                Some(s) => s.beamset@.len(),
                None => 0,
            },
    {
        match &self.lattice.beamsets {
            Some(s) => s.beamset.len(),
            None => 0,
        }
    }

    /// Views over the beam sets of the lattice, if it has any.
    pub fn beamsets(&self) -> (r: Option<Vec<BeamSetView<'a>>>)
        ensures
            match self@.beamsets {
                Some(s) => r is Some && r->0@.len() == s.beamset@.len() && forall|i: int|
                    0 <= i < s.beamset@.len() ==> #[trigger] r->0@[i]@ == s.beamset@[i],
                None => r is None,
            },
    {
        let l: &'a BeamLattice = self.lattice;
        match &l.beamsets {
            Some(s) => {
                let n = s.beamset.len();
                let mut r: Vec<BeamSetView<'a>> = Vec::new();
                for i in 0..n
                    invariant
                        n == s.beamset@.len(),
                        r@.len() == i,
                        forall|j: int| 0 <= j < i ==> #[trigger] r@[j]@ == s.beamset@[j],
                {
                    r.push(BeamSetView { set: &s.beamset[i] });
                }
                Some(r)
            },
            None => None,
        }
    }
}

/// Stable view over a beam set.
pub struct BeamSetView<'a> {
    set: &'a BeamSet,
}

impl<'a> View for BeamSetView<'a> {
    type V = BeamSet;

    closed spec fn view(&self) -> BeamSet {
        *self.set
    }
}

impl<'a> BeamSetView<'a> {
    /// The name of the beam set, if any.
    pub fn name(&self) -> (r: Option<&'a str>)
        ensures
            opt_str_chars(r) == opt_chars(self@.name),
    {
        let s: &'a BeamSet = self.set;
        opt_as_str(&s.name)
    }

    /// The identifier of the beam set, if any.
    pub fn identifier(&self) -> (r: Option<&'a str>)
        ensures
            opt_str_chars(r) == opt_chars(self@.identifier),
    {
        let s: &'a BeamSet = self.set;
        opt_as_str(&s.identifier)
    }

    /// The number of beams in the set, truncated to 32 bits.
    pub fn beam_count(&self) -> (r: u32)
        ensures
            r == self@.refs@.len() as u32,
    {
        self.set.refs.len() as u32
    }

    /// The beam indices of the set, in order.
    pub fn beam_refs(&self) -> (r: Vec<u32>)
        ensures
            r@ == self@.refs@.map_values(|b: beamlattice::BeamRef| b.index),
    {
        let s: &'a BeamSet = self.set;
        let n = s.refs.len();
        let mut r: Vec<u32> = Vec::new();
        for i in 0..n
            invariant
                n == s.refs@.len(),
                r@ =~= s.refs@.take(i as int).map_values(|b: beamlattice::BeamRef| b.index),
        {
            r.push(s.refs[i].index);
        }
        assert(s.refs@.take(n as int) =~= s.refs@);
        r
    }

    /// The number of balls in the set, truncated to 32 bits.
    pub fn ball_count(&self) -> (r: u32)
        ensures
            r == self@.ballref@.len() as u32,
    {
        self.set.ballref.len() as u32
    }

    /// The ball indices of the set, in order.
    pub fn ball_refs(&self) -> (r: Vec<u32>)
        ensures
            r@ == self@.ballref@.map_values(|b: beamlattice::BallRef| b.index),
    {
        let s: &'a BeamSet = self.set;
        let n = s.ballref.len();
        let mut r: Vec<u32> = Vec::new();
        for i in 0..n
            invariant
                n == s.ballref@.len(),
                r@ =~= s.ballref@.take(i as int).map_values(|b: beamlattice::BallRef| b.index),
        {
            r.push(s.ballref[i].index);
        }
        assert(s.ballref@.take(n as int) =~= s.ballref@);
        r
    }
}

/// The vertex indices of a displacement triangle.
pub open spec fn dtriangle_indices(t: displacement::Triangle) -> Seq<u32> {
    seq![t.v1, t.v2, t.v3]
}

/// The property data (`p1`, `p2`, `p3`, `pid`) of a displacement triangle.
pub open spec fn dtriangle_data(t: displacement::Triangle) -> Seq<Option<u32>> {
    seq![t.p1.value, t.p2.value, t.p3.value, t.pid.value]
}

/// The displacement data (`d1`, `d2`, `d3`, `did`) of a displacement triangle.
pub open spec fn dtriangle_displacement_data(t: displacement::Triangle) -> Seq<Option<u32>> {
    seq![t.d1.value, t.d2.value, t.d3.value, t.did.value]
}

/// The position of a displacement vertex.
pub open spec fn dvertex_position(v: displacement::Vertex) -> Seq<Double> {
    seq![v.x, v.y, v.z]
}

/// Stable view over a displacement mesh object.
pub struct DisplacementMeshObjectView<'a> {
    object: &'a Object,
    mesh: &'a displacement::DisplacementMesh,
}

impl<'a> View for DisplacementMeshObjectView<'a> {
    type V = Object;

    closed spec fn view(&self) -> Object {
        *self.object
    }
}

impl<'a> DisplacementMeshObjectView<'a> {
    /// The displacement mesh of the viewed object.
    pub closed spec fn mesh(&self) -> displacement::DisplacementMesh {
        *self.mesh
    }

    /// A view over `object` if it is a displacement mesh object.
    pub fn from_object(object: &'a Object) -> (r: Option<Self>)
        ensures
            match r {
                Some(v) => v@ == *object && displacement_mesh_of(*object) == Some(v.mesh()),
                None => displacement_mesh_of(*object) is None,
            },
    {
        match object.get_displacement_mesh() {
            Some(mesh) => Some(DisplacementMeshObjectView { object, mesh }),
            None => None,
        }
    }

    /// The identifier of the displacement mesh object.
    pub fn id(&self) -> (r: u32)
        ensures
            r == self@.id,
    {
        self.object.id
    }

    /// The name of the displacement mesh object, if any.
    pub fn name(&self) -> (r: Option<&'a str>)
        ensures
            opt_str_chars(r) == opt_chars(self@.name),
    {
        let o: &'a Object = self.object;
        opt_as_str(&o.name)
    }

    /// True if the displacement mesh has a beam lattice.
    pub fn has_beamlattice(&self) -> (r: bool)
        ensures
            r == (self.mesh().beamlattice is Some),
    {
        self.mesh.beamlattice.is_some()
    }

    /// True if the displacement mesh has triangle sets.
    pub fn has_triangle_sets(&self) -> (r: bool)
        ensures
            r == (self.mesh().trianglesets is Some),
    {
        self.mesh.trianglesets.is_some()
    }

    /// The vertex positions of the displacement mesh, in order.
    pub fn vertices(&self) -> (r: Vec<[Double; 3]>)
        ensures
            r@.len() == self.mesh().vertices.vertex@.len(),
            forall|i: int|
                0 <= i < r@.len() ==> #[trigger] r@[i]@ == dvertex_position(
                    self.mesh().vertices.vertex@[i],
                ),
    {
        let mesh: &'a displacement::DisplacementMesh = self.mesh;
        let n = mesh.vertices.vertex.len();
        let mut r: Vec<[Double; 3]> = Vec::new();
        for i in 0..n
            invariant
                n == mesh.vertices.vertex@.len(),
                *mesh == self.mesh(),
                r@.len() == i,
                forall|j: int|
                    0 <= j < i ==> #[trigger] r@[j]@ == dvertex_position(mesh.vertices.vertex@[j]),
        {
            let v = mesh.vertices.vertex[i];
            let a = [v.x, v.y, v.z];
            assert(a@ =~= dvertex_position(v));
            r.push(a);
        }
        r
    }

    /// The vertex indices of the triangles, in order.
    pub fn triangles(&self) -> (r: Vec<[u32; 3]>)
        ensures
            r@.len() == self.mesh().triangles.triangle@.len(),
            forall|i: int|
                0 <= i < r@.len() ==> #[trigger] r@[i]@ == dtriangle_indices(
                    self.mesh().triangles.triangle@[i],
                ),
    {
        let mesh: &'a displacement::DisplacementMesh = self.mesh;
        let n = mesh.triangles.triangle.len();
        let mut r: Vec<[u32; 3]> = Vec::new();
        for i in 0..n
            invariant
                n == mesh.triangles.triangle@.len(),
                *mesh == self.mesh(),
                r@.len() == i,
                forall|j: int|
                    0 <= j < i ==> #[trigger] r@[j]@ == dtriangle_indices(
                        mesh.triangles.triangle@[j],
                    ),
        {
            let t = mesh.triangles.triangle[i];
            let a = [t.v1, t.v2, t.v3];
            assert(a@ =~= dtriangle_indices(t));
            r.push(a);
        }
        r
    }

    /// The property data (`p1`, `p2`, `p3`, `pid`) of the triangles, in order.
    pub fn triangles_data(&self) -> (r: Vec<[Option<u32>; 4]>)
        ensures
            r@.len() == self.mesh().triangles.triangle@.len(),
            forall|i: int|
                0 <= i < r@.len() ==> #[trigger] r@[i]@ == dtriangle_data(
                    self.mesh().triangles.triangle@[i],
                ),
    {
        let mesh: &'a displacement::DisplacementMesh = self.mesh;
        let n = mesh.triangles.triangle.len();
        let mut r: Vec<[Option<u32>; 4]> = Vec::new();
        for i in 0..n
            invariant
                n == mesh.triangles.triangle@.len(),
                *mesh == self.mesh(),
                r@.len() == i,
                forall|j: int|
                    0 <= j < i ==> #[trigger] r@[j]@ == dtriangle_data(mesh.triangles.triangle@[j]),
        {
            let t = mesh.triangles.triangle[i];
            let a = [t.p1.value, t.p2.value, t.p3.value, t.pid.value];
            assert(a@ =~= dtriangle_data(t));
            r.push(a);
        }
        r
    }

    /// The displacement data (`d1`, `d2`, `d3`, `did`) of the triangles, in order.
    pub fn triangles_displacement_data(&self) -> (r: Vec<[Option<u32>; 4]>)
        ensures
            r@.len() == self.mesh().triangles.triangle@.len(),
            forall|i: int|
                0 <= i < r@.len() ==> #[trigger] r@[i]@ == dtriangle_displacement_data(
                    self.mesh().triangles.triangle@[i],
                ),
    {
        let mesh: &'a displacement::DisplacementMesh = self.mesh;
        let n = mesh.triangles.triangle.len();
        let mut r: Vec<[Option<u32>; 4]> = Vec::new();
        for i in 0..n
            invariant
                n == mesh.triangles.triangle@.len(),
                *mesh == self.mesh(),
                r@.len() == i,
                forall|j: int|
                    0 <= j < i ==> #[trigger] r@[j]@ == dtriangle_displacement_data(
                        mesh.triangles.triangle@[j],
                    ),
        {
            let t = mesh.triangles.triangle[i];
            let a = [t.d1.value, t.d2.value, t.d3.value, t.did.value];
            assert(a@ =~= dtriangle_displacement_data(t));
            r.push(a);
        }
        r
    }

    /// The number of triangle sets in the displacement mesh.
    pub fn triangle_set_count(&self) -> (r: usize)
        ensures
            r == match self.mesh().trianglesets {
                Some(sets) => sets.trianglesets@.len(),
                None => 0,
            },
    {
        match &self.mesh.trianglesets {
            Some(sets) => sets.trianglesets.len(),
            None => 0,
        }
    }

    /// Views over the triangle sets of the displacement mesh, if it has any.
    pub fn triangle_sets(&self) -> (r: Option<Vec<TriangleSetView<'a>>>)
        ensures
            match self.mesh().trianglesets {
                Some(sets) => r is Some && triangle_set_views_of(r->0, sets.trianglesets@),
                None => r is None,
            },
    {
        let mesh: &'a displacement::DisplacementMesh = self.mesh;
        match &mesh.trianglesets {
            Some(sets) => Some(triangle_set_views(&sets.trianglesets)),
            None => None,
        }
    }

    /// A view over the beam lattice of the displacement mesh, if any.
    pub fn lattice(&self) -> (r: Option<LatticeView<'a>>)
        ensures
            match self.mesh().beamlattice {
                Some(l) => r is Some && r->0@ == l,
                None => r is None,
            },
    {
        let mesh: &'a displacement::DisplacementMesh = self.mesh;
        match &mesh.beamlattice {
            Some(l) => Some(LatticeView { lattice: l }),
            None => None,
        }
    }
}

/// Stable view over a component entry.
pub struct ComponentView<'a> {
    component: &'a crate::domain::component::Component,
}

impl<'a> View for ComponentView<'a> {
    type V = crate::domain::component::Component;

    closed spec fn view(&self) -> crate::domain::component::Component {
        *self.component
    }
}

impl<'a> ComponentView<'a> {
    /// The object id of the component.
    pub fn object_id(&self) -> (r: u32)
        ensures
            r == self@.objectid,
    {
        self.component.objectid
    }

    /// The transform of the component, if any.
    pub fn transform(&self) -> (r: Option<Transform>)
        ensures
            r == self@.transform,
    {
        self.component.transform
    }

    /// The path of the component, if any.
    pub fn path(&self) -> (r: Option<&'a str>)
        ensures
            opt_str_chars(r) == opt_chars(self@.path),
    {
        let c: &'a crate::domain::component::Component = self.component;
        opt_as_str(&c.path)
    }

    /// The UUID of the component, if any.
    pub fn uuid(&self) -> (r: Option<&'a str>)
        ensures
            opt_str_chars(r) == opt_chars(self@.uuid),
    {
        let c: &'a crate::domain::component::Component = self.component;
        opt_as_str(&c.uuid)
    }
}

/// Stable view over a components object.
pub struct ComponentsObjectView<'a> {
    object: &'a Object,
    components: &'a Components,
}

impl<'a> View for ComponentsObjectView<'a> {
    type V = Object;

    closed spec fn view(&self) -> Object {
        *self.object
    }
}

impl<'a> ComponentsObjectView<'a> {
    #[verifier::type_invariant]
    spec fn components_match(self) -> bool {
        components_of(*self.object) == Some(*self.components)
    }

    /// The components of the viewed object.
    pub closed spec fn components_spec(&self) -> Components {
        *self.components
    }

    /// A view over `object` if it is a components object.
    pub fn from_object(object: &'a Object) -> (r: Option<Self>)
        ensures
            match r {
                Some(v) => v@ == *object && components_of(*object) == Some(v.components_spec()),
                None => components_of(*object) is None,
            },
    {
        match object.get_components_object() {
            Some(components) => Some(ComponentsObjectView { object, components }),
            None => None,
        }
    }

    /// The identifier of the components object.
    pub fn id(&self) -> (r: u32)
        ensures
            r == self@.id,
    {
        self.object.id
    }

    /// The name of the components object, if any.
    pub fn name(&self) -> (r: Option<&'a str>)
        ensures
            opt_str_chars(r) == opt_chars(self@.name),
    {
        let o: &'a Object = self.object;
        opt_as_str(&o.name)
    }

    /// The number of components in the object.
    pub fn component_count(&self) -> (r: usize)
        ensures
            r == self.components_spec().component@.len(),
    {
        self.components.component.len()
    }

    /// Views over the components of the object, in order.
    pub fn components(&self) -> (r: Vec<ComponentView<'a>>)
        ensures
            components_of(self@) == Some(self.components_spec()),
            r@.len() == self.components_spec().component@.len(),
            forall|i: int|
                0 <= i < r@.len() ==> #[trigger] r@[i]@ == self.components_spec().component@[i],
    {
        proof {
            use_type_invariant(self);
        }
        let c: &'a Components = self.components;
        let n = c.component.len();
        let mut r: Vec<ComponentView<'a>> = Vec::new();
        for i in 0..n
            invariant
                n == c.component@.len(),
                r@.len() == i,
                forall|j: int| 0 <= j < i ==> #[trigger] r@[j]@ == c.component@[j],
        {
            r.push(ComponentView { component: &c.component[i] });
        }
        r
    }
}

/// Stable view over a boolean operand.
pub struct BooleanOperandView<'a> {
    operand: &'a boolean::Boolean,
}

impl<'a> View for BooleanOperandView<'a> {
    type V = boolean::Boolean;

    closed spec fn view(&self) -> boolean::Boolean {
        *self.operand
    }
}

impl<'a> BooleanOperandView<'a> {
    /// The object id of the operand.
    pub fn object_id(&self) -> (r: u32)
        ensures
            r == self@.objectid,
    {
        self.operand.objectid
    }

    /// The transform of the operand, if any.
    pub fn transform(&self) -> (r: Option<Transform>)
        ensures
            r == self@.transform,
    {
        self.operand.transform
    }

    /// The path of the operand, if any.
    pub fn path(&self) -> (r: Option<&'a str>)
        ensures
            opt_str_chars(r) == opt_chars(self@.path),
    {
        let b: &'a boolean::Boolean = self.operand;
        opt_as_str(&b.path)
    }
}

/// Stable view over a boolean shape object.
pub struct BooleanShapeView<'a> {
    object: &'a Object,
    shape: &'a boolean::BooleanShape,
}

impl<'a> View for BooleanShapeView<'a> {
    type V = Object;

    closed spec fn view(&self) -> Object {
        *self.object
    }
}

impl<'a> BooleanShapeView<'a> {
    /// The boolean shape of the viewed object.
    pub closed spec fn shape(&self) -> boolean::BooleanShape {
        *self.shape
    }

    /// A view over `object` if it is a boolean shape object.
    pub fn from_object(object: &'a Object) -> (r: Option<Self>)
        ensures
            match r {
                Some(v) => v@ == *object && boolean_shape_of(*object) == Some(v.shape()),
                None => boolean_shape_of(*object) is None,
            },
    {
        match object.get_boolean_shape_object() {
            Some(shape) => Some(BooleanShapeView { object, shape }),
            None => None,
        }
    }

    /// The identifier of the boolean shape object.
    pub fn id(&self) -> (r: u32)
        ensures
            r == self@.id,
    {
        self.object.id
    }

    /// The name of the boolean shape object, if any.
    pub fn name(&self) -> (r: Option<&'a str>)
        ensures
            opt_str_chars(r) == opt_chars(self@.name),
    {
        let o: &'a Object = self.object;
        opt_as_str(&o.name)
    }

    /// The base object id of the boolean shape.
    pub fn base_objectid(&self) -> (r: u32)
        ensures
            r == self.shape().objectid,
    {
        self.shape.objectid
    }

    /// The boolean operation of the shape.
    pub fn operation(&self) -> (r: BooleanOperation)
        ensures
            r == self.shape().operation,
    {
        self.shape.operation
    }

    /// True if the operation is a union.
    pub fn is_union(&self) -> (r: bool)
        ensures
            r == (self.shape().operation == BooleanOperation::Union),
    {
        match self.shape.operation {
            BooleanOperation::Union => true,
            _ => false,
        }
    }

    /// True if the operation is a difference.
    pub fn is_difference(&self) -> (r: bool)
        ensures
            r == (self.shape().operation == BooleanOperation::Difference),
    {
        match self.shape.operation {
            BooleanOperation::Difference => true,
            _ => false,
        }
    }

    /// True if the operation is an intersection.
    pub fn is_intersection(&self) -> (r: bool)
        ensures
            r == (self.shape().operation == BooleanOperation::Intersection),
    {
        match self.shape.operation {
            BooleanOperation::Intersection => true,
            _ => false,
        }
    }

    /// Views over the operands of the shape, in order.
    pub fn booleans(&self) -> (r: Vec<BooleanOperandView<'a>>)
        ensures
            r@.len() == self.shape().booleans@.len(),
            forall|i: int| 0 <= i < r@.len() ==> #[trigger] r@[i]@ == self.shape().booleans@[i],
    {
        let sh: &'a boolean::BooleanShape = self.shape;
        let n = sh.booleans.len();
        let mut r: Vec<BooleanOperandView<'a>> = Vec::new();
        for i in 0..n
            invariant
                n == sh.booleans@.len(),
                r@.len() == i,
                forall|j: int| 0 <= j < i ==> #[trigger] r@[j]@ == sh.booleans@[j],
        {
            r.push(BooleanOperandView { operand: &sh.booleans[i] });
        }
        r
    }
}

/// Stable view over a build item.
pub struct ItemView<'a> {
    item: &'a Item,
}

impl<'a> View for ItemView<'a> {
    type V = Item;

    closed spec fn view(&self) -> Item {
        *self.item
    }
}

impl<'a> ItemView<'a> {
    /// A view over `item`.
    pub fn new(item: &'a Item) -> (r: Self)
        ensures
            r@ == *item,
    {
        ItemView { item }
    }

    /// The object id of the build item.
    pub fn object_id(&self) -> (r: u32)
        ensures
            r == self@.objectid,
    {
        self.item.objectid
    }

    /// The transform of the build item, if any.
    pub fn transform(&self) -> (r: Option<Transform>)
        ensures
            r == self@.transform,
    {
        self.item.transform
    }

    /// The part number of the build item, if any.
    pub fn part_number(&self) -> (r: Option<&'a str>)
        ensures
            opt_str_chars(r) == opt_chars(self@.partnumber),
    {
        let it: &'a Item = self.item;
        opt_as_str(&it.partnumber)
    }

    /// The path of the build item, if any.
    pub fn path(&self) -> (r: Option<&'a str>)
        ensures
            opt_str_chars(r) == opt_chars(self@.path),
    {
        let it: &'a Item = self.item;
        opt_as_str(&it.path)
    }

    /// The UUID of the build item, if any.
    pub fn uuid(&self) -> (r: Option<String>)
        ensures
            opt_chars(r) == opt_chars(self@.uuid),
    {
        clone_opt_string(&self.item.uuid)
    }
}

/// Stable view over a slice stack reference.
pub struct SliceRefView<'a> {
    sliceref: &'a slice::SliceRef,
}

impl<'a> View for SliceRefView<'a> {
    type V = slice::SliceRef;

    closed spec fn view(&self) -> slice::SliceRef {
        *self.sliceref
    }
}

impl<'a> SliceRefView<'a> {
    /// The slice stack id of the reference.
    pub fn slicestack_id(&self) -> (r: u32)
        ensures
            r == self@.slicestackid,
    {
        self.sliceref.slicestackid
    }

    /// The slice path of the reference.
    pub fn slicepath(&self) -> (r: &'a str)
        ensures
            r@ == self@.slicepath@,
    {
        let s: &'a slice::SliceRef = self.sliceref;
        s.slicepath.as_str()
    }
}

/// The vertex pair of segment `i` of a polygon: from the end of the previous segment
/// (or the start vertex for the first) to the segment's `v2`.
pub open spec fn polygon_segment_pair(p: slice::Polygon, i: int) -> Seq<u32> {
    seq![if i == 0 { p.startv } else { p.segment@[i - 1].v2 }, p.segment@[i].v2]
}

/// The property data (`p1`, `p2`, `pid`) of a segment.
pub open spec fn segment_data(s: slice::Segment) -> Seq<Option<u32>> {
    seq![s.p1.value, s.p2.value, s.pid.value]
}

/// Stable view over a polygon.
pub struct PolygonView<'a> {
    polygon: &'a slice::Polygon,
    segment_count: usize,
}

impl<'a> View for PolygonView<'a> {
    type V = slice::Polygon;

    closed spec fn view(&self) -> slice::Polygon {
        *self.polygon
    }
}

impl<'a> PolygonView<'a> {
    /// The segment count recorded in the view.
    pub closed spec fn spec_segment_count(&self) -> usize {
        self.segment_count
    }

    /// The number of segments in the polygon.
    pub fn segment_count(&self) -> (r: usize)
        ensures
            r == self.spec_segment_count(),
    {
        self.segment_count
    }

    /// The vertex pairs of the segments of the polygon, in order.
    pub fn segments(self) -> (r: Vec<[u32; 2]>)
        ensures
            r@.len() == self@.segment@.len(),
            forall|i: int|
                0 <= i < r@.len() ==> #[trigger] r@[i]@ == polygon_segment_pair(self@, i),
    {
        let p: &'a slice::Polygon = self.polygon;
        let n = p.segment.len();
        let mut prev = p.startv;
        let mut r: Vec<[u32; 2]> = Vec::new();
        for i in 0..n
            invariant
                n == p.segment@.len(),
                *p == self@,
                r@.len() == i,
                prev == (if i == 0 { p.startv } else { p.segment@[i - 1].v2 }),
                forall|j: int| 0 <= j < i ==> #[trigger] r@[j]@ == polygon_segment_pair(*p, j),
        {
            let v2 = p.segment[i].v2;
            let a = [prev, v2];
            assert(a@ =~= polygon_segment_pair(*p, i as int));
            r.push(a);
            prev = v2;
        }
        r
    }

    /// The property data (`p1`, `p2`, `pid`) of the segments of the polygon, in order.
    pub fn segments_data(self) -> (r: Vec<[Option<u32>; 3]>)
        ensures
            r@.len() == self@.segment@.len(),
            forall|i: int| 0 <= i < r@.len() ==> #[trigger] r@[i]@ == segment_data(self@.segment@[i]),
    {
        let p: &'a slice::Polygon = self.polygon;
        let n = p.segment.len();
        let mut r: Vec<[Option<u32>; 3]> = Vec::new();
        for i in 0..n
            invariant
                n == p.segment@.len(),
                *p == self@,
                r@.len() == i,
                forall|j: int| 0 <= j < i ==> #[trigger] r@[j]@ == segment_data(p.segment@[j]),
        {
            let sg = p.segment[i];
            let a = [sg.p1.value, sg.p2.value, sg.pid.value];
            assert(a@ =~= segment_data(sg));
            r.push(a);
        }
        r
    }
}

/// Stable view over a slice.
pub struct SliceView<'a> {
    slice: &'a slice::Slice,
}

impl<'a> View for SliceView<'a> {
    type V = slice::Slice;

    closed spec fn view(&self) -> slice::Slice {
        *self.slice
    }
}

impl<'a> SliceView<'a> {
    /// The top Z position of the slice.
    pub fn ztop(&self) -> (r: Double)
        ensures
            r == self@.ztop,
    {
        self.slice.ztop
    }

    /// The number of vertices in the slice, if it has vertices.
    pub fn vertex_count(&self) -> (r: Option<usize>)
        ensures
            r == match self@.vertices {
                Some(v) => Some(v.vertex@.len() as usize),
                None => None::<usize>,
            },
    {
        match &self.slice.vertices {
            Some(v) => Some(v.vertex.len()),
            None => None,
        }
    }

    /// The vertex positions of the slice, if it has vertices.
    pub fn vertices(&self) -> (r: Option<Vec<[Double; 2]>>)
        ensures
            match self@.vertices {
                Some(v) => r is Some && r->0@.len() == v.vertex@.len() && forall|i: int|
                    0 <= i < v.vertex@.len() ==> #[trigger] r->0@[i]@ == seq![
                        v.vertex@[i].x,
                        v.vertex@[i].y,
                    ],
                None => r is None,
            },
    {
        let sl: &'a slice::Slice = self.slice;
        match &sl.vertices {
            Some(v) => {
                let n = v.vertex.len();
                let mut r: Vec<[Double; 2]> = Vec::new();
                for i in 0..n
                    invariant
                        n == v.vertex@.len(),
                        r@.len() == i,
                        forall|j: int|
                            0 <= j < i ==> #[trigger] r@[j]@ == seq![v.vertex@[j].x, v.vertex@[j].y],
                {
                    let vx = v.vertex[i];
                    let a = [vx.x, vx.y];
                    assert(a@ =~= seq![vx.x, vx.y]);
                    r.push(a);
                }
                Some(r)
            },
            None => None,
        }
    }

    /// The number of polygons in the slice.
    pub fn polygon_count(&self) -> (r: usize)
        ensures
            r == self@.polygon@.len(),
    {
        self.slice.polygon.len()
    }

    /// Views over the polygons of the slice, in order.
    pub fn polygons(&self) -> (r: Vec<PolygonView<'a>>)
        ensures
            r@.len() == self@.polygon@.len(),
            forall|i: int|
                0 <= i < r@.len() ==> (#[trigger] r@[i])@ == self@.polygon@[i] && r@[i].spec_segment_count()
                    == self@.polygon@[i].segment@.len(),
    {
        let sl: &'a slice::Slice = self.slice;
        let n = sl.polygon.len();
        let mut r: Vec<PolygonView<'a>> = Vec::new();
        for i in 0..n
            invariant
                n == sl.polygon@.len(),
                *sl == self@,
                r@.len() == i,
                forall|j: int|
                    0 <= j < i ==> (#[trigger] r@[j])@ == sl.polygon@[j] && r@[j].spec_segment_count()
                        == sl.polygon@[j].segment@.len(),
        {
            let p: &'a slice::Polygon = &sl.polygon[i];
            r.push(PolygonView { polygon: p, segment_count: p.segment.len() });
        }
        r
    }
}

/// Stable view over a slice stack.
pub struct SliceStackView<'a> {
    stack: &'a SliceStack,
}

impl<'a> View for SliceStackView<'a> {
    type V = SliceStack;

    closed spec fn view(&self) -> SliceStack {
        *self.stack
    }
}

impl<'a> SliceStackView<'a> {
    /// A view over `stack`.
    pub fn new(stack: &'a SliceStack) -> (r: Self)
        ensures
            r@ == *stack,
    {
        SliceStackView { stack }
    }

    /// The identifier of the slice stack.
    pub fn id(&self) -> (r: u32)
        ensures
            r == self@.id,
    {
        self.stack.id
    }

    /// The bottom Z position of the slice stack, if any.
    pub fn zbottom(&self) -> (r: Option<Double>)
        ensures
            r == self@.zbottom,
    {
        self.stack.zbottom
    }

    /// True if the slice stack contains slices of its own.
    pub fn has_owned_slices(&self) -> (r: bool)
        ensures
            r == self@.spec_has_owned_slices(),
    {
        self.stack.has_owned_slices()
    }

    /// The number of slices in the stack.
    pub fn slice_count(&self) -> (r: usize)
        ensures
            r == self@.slice@.len(),
    {
        self.stack.slice.len()
    }

    /// The number of slice references in the stack.
    pub fn sliceref_count(&self) -> (r: usize)
        ensures
            r == self@.sliceref@.len(),
    {
        self.stack.sliceref.len()
    }

    /// Views over the slice references of the stack, in order.
    pub fn slicerefs(&self) -> (r: Vec<SliceRefView<'a>>)
        ensures
            r@.len() == self@.sliceref@.len(),
            forall|i: int| 0 <= i < r@.len() ==> #[trigger] r@[i]@ == self@.sliceref@[i],
    {
        let st: &'a SliceStack = self.stack;
        let n = st.sliceref.len();
        let mut r: Vec<SliceRefView<'a>> = Vec::new();
        for i in 0..n
            invariant
                n == st.sliceref@.len(),
                r@.len() == i,
                forall|j: int| 0 <= j < i ==> #[trigger] r@[j]@ == st.sliceref@[j],
        {
            r.push(SliceRefView { sliceref: &st.sliceref[i] });
        }
        r
    }

    /// Views over the slices of the stack, in order.
    pub fn slices(&self) -> (r: Vec<SliceView<'a>>)
        ensures
            r@.len() == self@.slice@.len(),
            forall|i: int| 0 <= i < r@.len() ==> #[trigger] r@[i]@ == self@.slice@[i],
    {
        let st: &'a SliceStack = self.stack;
        let n = st.slice.len();
        let mut r: Vec<SliceView<'a>> = Vec::new();
        for i in 0..n
            invariant
                n == st.slice@.len(),
                r@.len() == i,
                forall|j: int| 0 <= j < i ==> #[trigger] r@[j]@ == st.slice@[j],
        {
            r.push(SliceView { slice: &st.slice[i] });
        }
        r
    }
}

/// Stable view over a color group.
pub struct ColorGroupView<'a> {
    group: &'a ColorGroup,
}

impl<'a> View for ColorGroupView<'a> {
    type V = ColorGroup;

    closed spec fn view(&self) -> ColorGroup {
        *self.group
    }
}

impl<'a> ColorGroupView<'a> {
    /// A view over `group`.
    pub fn new(group: &'a ColorGroup) -> (r: Self)
        ensures
            r@ == *group,
    {
        ColorGroupView { group }
    }

    /// The identifier of the color group.
    pub fn id(&self) -> (r: u32)
        ensures
            r == self@.id,
    {
        self.group.id
    }

    /// The number of colors in the group.
    pub fn color_count(&self) -> (r: usize)
        ensures
            r == self@.color@.len(),
    {
        self.group.color.len()
    }

    /// The color at the given index, if there is one.
    pub fn color_at(&self, index: usize) -> (r: Option<Color>)
        ensures
            r == (if index < self@.color@.len() {
                Some(self@.color@[index as int].color)
            } else {
                None::<Color>
            }),
    {
        if index < self.group.color.len() {
            Some(self.group.color[index].color)
        } else {
            None
        }
    }
}

/// Stable view over a texture 2D group.
pub struct Texture2DGroupView<'a> {
    group: &'a Texture2DGroup,
}

impl<'a> View for Texture2DGroupView<'a> {
    type V = Texture2DGroup;

    closed spec fn view(&self) -> Texture2DGroup {
        *self.group
    }
}

impl<'a> Texture2DGroupView<'a> {
    /// A view over `group`.
    pub fn new(group: &'a Texture2DGroup) -> (r: Self)
        ensures
            r@ == *group,
    {
        Texture2DGroupView { group }
    }

    /// The identifier of the texture 2D group.
    pub fn id(&self) -> (r: u32)
        ensures
            r == self@.id,
    {
        self.group.id
    }

    /// The texture id of the group.
    pub fn texid(&self) -> (r: u32)
        ensures
            r == self@.texid,
    {
        self.group.texid
    }

    /// The number of texture coordinates in the group.
    pub fn texcoord_count(&self) -> (r: usize)
        ensures
            r == self@.tex2coord@.len(),
    {
        self.group.tex2coord.len()
    }

    /// The texture coordinates of the group, in order.
    pub fn tex_coords(&self) -> (r: Vec<[Double; 2]>)
        ensures
            r@.len() == self@.tex2coord@.len(),
            forall|i: int|
                0 <= i < r@.len() ==> #[trigger] r@[i]@ == seq![
                    self@.tex2coord@[i].u,
                    self@.tex2coord@[i].v,
                ],
    {
        let g: &'a Texture2DGroup = self.group;
        let n = g.tex2coord.len();
        let mut r: Vec<[Double; 2]> = Vec::new();
        for i in 0..n
            invariant
                n == g.tex2coord@.len(),
                *g == self@,
                r@.len() == i,
                forall|j: int|
                    0 <= j < i ==> #[trigger] r@[j]@ == seq![g.tex2coord@[j].u, g.tex2coord@[j].v],
        {
            let t = g.tex2coord[i];
            let a = [t.u, t.v];
            assert(a@ =~= seq![t.u, t.v]);
            r.push(a);
        }
        r
    }
}

/// Stable view over composite materials.
pub struct CompositeMaterialsView<'a> {
    materials: &'a CompositeMaterials,
}

impl<'a> View for CompositeMaterialsView<'a> {
    type V = CompositeMaterials;

    closed spec fn view(&self) -> CompositeMaterials {
        *self.materials
    }
}

impl<'a> CompositeMaterialsView<'a> {
    /// A view over `materials`.
    pub fn new(materials: &'a CompositeMaterials) -> (r: Self)
        ensures
            r@ == *materials,
    {
        CompositeMaterialsView { materials }
    }

    /// The identifier of the composite materials.
    pub fn id(&self) -> (r: u32)
        ensures
            r == self@.id,
    {
        self.materials.id
    }

    /// The number of composite entries.
    pub fn composite_count(&self) -> (r: usize)
        ensures
            r == self@.composite@.len(),
    {
        self.materials.composite.len()
    }
}

/// Stable view over multi-properties.
pub struct MultiPropertiesView<'a> {
    props: &'a MultiProperties,
}

impl<'a> View for MultiPropertiesView<'a> {
    type V = MultiProperties;

    closed spec fn view(&self) -> MultiProperties {
        *self.props
    }
}

impl<'a> MultiPropertiesView<'a> {
    /// A view over `props`.
    pub fn new(props: &'a MultiProperties) -> (r: Self)
        ensures
            r@ == *props,
    {
        MultiPropertiesView { props }
    }

    /// The identifier of the multi-properties.
    pub fn id(&self) -> (r: u32)
        ensures
            r == self@.id,
    {
        self.props.id
    }

    /// The number of multi-property entries.
    pub fn multi_count(&self) -> (r: usize)
        ensures
            r == self@.multi@.len(),
    {
        self.props.multi.len()
    }
}

/// Stable view over a texture 2D resource.
pub struct Texture2DView<'a> {
    texture: &'a Texture2D,
}

impl<'a> View for Texture2DView<'a> {
    type V = Texture2D;

    closed spec fn view(&self) -> Texture2D {
        *self.texture
    }
}

impl<'a> Texture2DView<'a> {
    /// A view over `texture`.
    pub fn new(texture: &'a Texture2D) -> (r: Self)
        ensures
            r@ == *texture,
    {
        Texture2DView { texture }
    }

    /// The identifier of the texture.
    pub fn id(&self) -> (r: u32)
        ensures
            r == self@.id,
    {
        self.texture.id
    }

    /// The path of the texture.
    pub fn path(&self) -> (r: &'a str)
        ensures
            r@ == self@.path@,
    {
        let t: &'a Texture2D = self.texture;
        t.path.as_str()
    }

    /// The content type of the texture.
    pub fn content_type(&self) -> (r: material::TextureContentType)
        ensures
            r == self@.contenttype,
    {
        self.texture.contenttype
    }

    /// The tile style in the U direction, `Wrap` when none is given.
    pub fn tile_style_u(&self) -> (r: material::TileStyle)
        ensures
            r == or_default(self@.tilestyleu, material::TileStyle::Wrap),
    {
        match self.texture.tilestyleu {
            Some(t) => t,
            None => material::TileStyle::Wrap,
        }
    }

    /// The tile style in the V direction, `Wrap` when none is given.
    pub fn tile_style_v(&self) -> (r: material::TileStyle)
        ensures
            r == or_default(self@.tilestylev, material::TileStyle::Wrap),
    {
        match self.texture.tilestylev {
            Some(t) => t,
            None => material::TileStyle::Wrap,
        }
    }

    /// The filter of the texture, `Auto` when none is given.
    pub fn filter(&self) -> (r: material::Filter)
        ensures
            r == or_default(self@.filter, material::Filter::Auto),
    {
        match self.texture.filter {
            Some(f) => f,
            None => material::Filter::Auto,
        }
    }
}

/// Stable view over a displacement 2D resource.
pub struct Displacement2DView<'a> {
    displacement: &'a Displacement2D,
}

impl<'a> View for Displacement2DView<'a> {
    type V = Displacement2D;

    closed spec fn view(&self) -> Displacement2D {
        *self.displacement
    }
}

impl<'a> Displacement2DView<'a> {
    /// A view over `displacement`.
    pub fn new(displacement: &'a Displacement2D) -> (r: Self)
        ensures
            r@ == *displacement,
    {
        Displacement2DView { displacement }
    }

    /// The identifier of the displacement 2D resource.
    pub fn id(&self) -> (r: u32)
        ensures
            r == self@.id,
    {
        self.displacement.id
    }
}

/// Stable view over a normal vector group.
pub struct NormVectorGroupView<'a> {
    group: &'a NormVectorGroup,
}

impl<'a> View for NormVectorGroupView<'a> {
    type V = NormVectorGroup;

    closed spec fn view(&self) -> NormVectorGroup {
        *self.group
    }
}

impl<'a> NormVectorGroupView<'a> {
    /// A view over `group`.
    pub fn new(group: &'a NormVectorGroup) -> (r: Self)
        ensures
            r@ == *group,
    {
        NormVectorGroupView { group }
    }

    /// The identifier of the normal vector group.
    pub fn id(&self) -> (r: u32)
        ensures
            r == self@.id,
    {
        self.group.id
    }

    /// The normal vectors of the group, in order.
    pub fn norm_vectors(&self) -> (r: Vec<[Double; 3]>)
        ensures
            r@.len() == self@.normvector@.len(),
            forall|i: int|
                0 <= i < r@.len() ==> #[trigger] r@[i]@ == seq![
                    self@.normvector@[i].x,
                    self@.normvector@[i].y,
                    self@.normvector@[i].z,
                ],
    {
        let g: &'a NormVectorGroup = self.group;
        let n = g.normvector.len();
        let mut r: Vec<[Double; 3]> = Vec::new();
        for i in 0..n
            invariant
                n == g.normvector@.len(),
                *g == self@,
                r@.len() == i,
                forall|j: int|
                    0 <= j < i ==> #[trigger] r@[j]@ == seq![
                        g.normvector@[j].x,
                        g.normvector@[j].y,
                        g.normvector@[j].z,
                    ],
        {
            let v = g.normvector[i];
            let a = [v.x, v.y, v.z];
            assert(a@ =~= seq![v.x, v.y, v.z]);
            r.push(a);
        }
        r
    }
}

/// Stable view over a displacement 2D coordinate, with the default factor applied.
#[derive(Debug, Clone, Copy, PartialEq, Eq)]
pub struct Disp2DCoordView {
    pub u: Double,
    pub v: Double,
    pub norm_index: u32,
    pub f: Double,
}

/// A displacement coordinate with its factor defaulting to 0.0.
pub open spec fn disp2d_coord_view_of(d: displacement::Disp2DCoord) -> Disp2DCoordView {
    Disp2DCoordView { u: d.u, v: d.v, norm_index: d.n, f: or_default(d.f, Double { bits: 0 }) }
}

/// Stable view over a displacement 2D group.
pub struct Disp2DGroupView<'a> {
    group: &'a Disp2DGroup,
}

impl<'a> View for Disp2DGroupView<'a> {
    type V = Disp2DGroup;

    closed spec fn view(&self) -> Disp2DGroup {
        *self.group
    }
}

impl<'a> Disp2DGroupView<'a> {
    /// A view over `group`.
    pub fn new(group: &'a Disp2DGroup) -> (r: Self)
        ensures
            r@ == *group,
    {
        Disp2DGroupView { group }
    }

    /// The identifier of the displacement 2D group.
    pub fn id(&self) -> (r: u32)
        ensures
            r == self@.id,
    {
        self.group.id
    }

    /// The displacement map id of the group.
    pub fn displacement_map_id(&self) -> (r: u32)
        ensures
            r == self@.dispid,
    {
        self.group.dispid
    }

    /// The normal vector group id of the group.
    pub fn norm_vector_group_id(&self) -> (r: u32)
        ensures
            r == self@.nid,
    {
        self.group.nid
    }

    /// The height of the displacement.
    pub fn height(&self) -> (r: Double)
        ensures
            r == self@.height,
    {
        self.group.height
    }

    /// The offset of the displacement, 0.0 when none is given.
    pub fn offset(&self) -> (r: Double)
        ensures
            r == or_default(self@.offset, Double { bits: 0 }),
    {
        match self.group.offset {
            Some(o) => o,
            None => Double::from_bits(0),
        }
    }

    /// The displacement coordinates of the group, in order.
    pub fn disp_2d_coords(&self) -> (r: Vec<Disp2DCoordView>)
        ensures
            r@.len() == self@.disp2dcoord@.len(),
            forall|i: int|
                0 <= i < r@.len() ==> #[trigger] r@[i] == disp2d_coord_view_of(
                    self@.disp2dcoord@[i],
                ),
    {
        let g: &'a Disp2DGroup = self.group;
        let n = g.disp2dcoord.len();
        let mut r: Vec<Disp2DCoordView> = Vec::new();
        for i in 0..n
            invariant
                n == g.disp2dcoord@.len(),
                *g == self@,
                r@.len() == i,
                forall|j: int| 0 <= j < i ==> #[trigger] r@[j] == disp2d_coord_view_of(g.disp2dcoord@[j]),
        {
            let d = g.disp2dcoord[i];
            r.push(
                Disp2DCoordView {
                    u: d.u,
                    v: d.v,
                    norm_index: d.n,
                    f: match d.f {
                        Some(f) => f,
                        None => Double::from_bits(0),
                    },
                },
            );
        }
        r
    }
}

/// Stable view over base materials.
pub struct BaseMaterialsView<'a> {
    materials: &'a BaseMaterials,
}

impl<'a> View for BaseMaterialsView<'a> {
    type V = BaseMaterials;

    closed spec fn view(&self) -> BaseMaterials {
        *self.materials
    }
}

impl<'a> BaseMaterialsView<'a> {
    /// A view over `materials`.
    pub fn new(materials: &'a BaseMaterials) -> (r: Self)
        ensures
            r@ == *materials,
    {
        BaseMaterialsView { materials }
    }

    /// The identifier of the base materials.
    pub fn id(&self) -> (r: u32)
        ensures
            r == self@.id,
    {
        self.materials.id
    }

    /// The number of base material entries.
    pub fn base_count(&self) -> (r: usize)
        ensures
            r == self@.base@.len(),
    {
        self.materials.base.len()
    }
}

/// A resource with an identifier.
pub trait Identified {
    /// The identifier of the resource.
    spec fn spec_id(&self) -> u32;

    /// The identifier of the resource.
    fn resource_id(&self) -> (r: u32)
        ensures
            r == self.spec_id(),
    ;
}

impl Identified for Object {
    open spec fn spec_id(&self) -> u32 {
        self.id
    }

    fn resource_id(&self) -> (r: u32) {
        self.id
    }
}

impl Identified for SliceStack {
    open spec fn spec_id(&self) -> u32 {
        self.id
    }

    fn resource_id(&self) -> (r: u32) {
        self.id
    }
}

impl Identified for ColorGroup {
    open spec fn spec_id(&self) -> u32 {
        self.id
    }

    fn resource_id(&self) -> (r: u32) {
        self.id
    }
}

impl Identified for Texture2DGroup {
    open spec fn spec_id(&self) -> u32 {
        self.id
    }

    fn resource_id(&self) -> (r: u32) {
        self.id
    }
}

impl Identified for CompositeMaterials {
    open spec fn spec_id(&self) -> u32 {
        self.id
    }

    fn resource_id(&self) -> (r: u32) {
        self.id
    }
}

impl Identified for MultiProperties {
    open spec fn spec_id(&self) -> u32 {
        self.id
    }

    fn resource_id(&self) -> (r: u32) {
        self.id
    }
}

impl Identified for Texture2D {
    open spec fn spec_id(&self) -> u32 {
        self.id
    }

    fn resource_id(&self) -> (r: u32) {
        self.id
    }
}

impl Identified for Displacement2D {
    open spec fn spec_id(&self) -> u32 {
        self.id
    }

    fn resource_id(&self) -> (r: u32) {
        self.id
    }
}

impl Identified for NormVectorGroup {
    open spec fn spec_id(&self) -> u32 {
        self.id
    }

    fn resource_id(&self) -> (r: u32) {
        self.id
    }
}

impl Identified for Disp2DGroup {
    open spec fn spec_id(&self) -> u32 {
        self.id
    }

    fn resource_id(&self) -> (r: u32) {
        self.id
    }
}

impl Identified for BaseMaterials {
    open spec fn spec_id(&self) -> u32 {
        self.id
    }

    fn resource_id(&self) -> (r: u32) {
        self.id
    }
}

/// `i` is the first position in `s` of a resource with identifier `id`.
pub open spec fn is_first_with_id<T: Identified>(s: Seq<T>, id: u32, i: int) -> bool {
    &&& 0 <= i < s.len()
    &&& s[i].spec_id() == id
    &&& forall|j: int| 0 <= j < i ==> (#[trigger] s[j]).spec_id() != id
}

/// The first resource in `s` with identifier `id`, if there is one.
pub open spec fn find_by_id_spec<T: Identified>(s: Seq<T>, id: u32) -> Option<T> {
    if exists|i: int| is_first_with_id(s, id, i) {
        Some(s[choose|i: int| is_first_with_id(s, id, i)])
    } else {
        None
    }
}

/// A resource with identifier `id` at position `k` means a first such position exists.
proof fn lemma_first_with_id_exists<T: Identified>(s: Seq<T>, id: u32, k: int)
    requires
        0 <= k < s.len(),
        s[k].spec_id() == id,
    ensures
        exists|i: int| is_first_with_id(s, id, i),
    decreases k,
{
    if exists|j: int| 0 <= j < k && (#[trigger] s[j]).spec_id() == id {
        let j = choose|j: int| 0 <= j < k && (#[trigger] s[j]).spec_id() == id;
        lemma_first_with_id_exists(s, id, j);
    } else {
        assert(is_first_with_id(s, id, k));
    }
}

/// There is a resource with identifier `id` in `s` exactly when the search finds one.
pub proof fn lemma_find_by_id_none<T: Identified>(s: Seq<T>, id: u32)
    ensures
        find_by_id_spec(s, id) is None <==> forall|i: int|
            0 <= i < s.len() ==> (#[trigger] s[i]).spec_id() != id,
{
    if exists|i: int| 0 <= i < s.len() && (#[trigger] s[i]).spec_id() == id {
        let k = choose|i: int| 0 <= i < s.len() && (#[trigger] s[i]).spec_id() == id;
        lemma_first_with_id_exists(s, id, k);
    }
}

/// The first resource of `v` with identifier `id`, if any.
pub fn find_by_id<'a, T: Identified>(v: &'a Vec<T>, id: u32) -> (r: Option<&'a T>)
    ensures
        match r {
            Some(t) => find_by_id_spec(v@, id) == Some(*t),
            None => find_by_id_spec(v@, id) is None,
        },
{
    let n = v.len();
    for i in 0..n
        invariant
            n == v@.len(),
            forall|j: int| 0 <= j < i ==> (#[trigger] v@[j]).spec_id() != id,
    {
        if v[i].resource_id() == id {
            assert(is_first_with_id(v@, id, i as int));
            assert forall|k: int| is_first_with_id(v@, id, k) implies k == i by {
                if k < i {
                    assert(v@[k].spec_id() != id);
                } else if k > i {
                    assert(v@[i as int].spec_id() == id);
                }
            }
            return Some(&v[i]);
        }
    }
    proof {
        lemma_find_by_id_none(v@, id);
    }
    None
}

/// A stable view over the given model.
pub fn get_model_view<'a>(model: &'a Model) -> (r: ModelView<'a>)
    ensures
        r@ == *model,
{
    ModelView::new(model)
}

/// A view over the first object of the model with the given id, if there is one.
pub fn get_object_from_model<'a>(object_id: u32, model: &'a Model) -> (r: Option<ObjectView<'a>>)
    ensures
        match r {
            Some(v) => find_by_id_spec(model.resources.object@, object_id) == Some(v@),
            None => find_by_id_spec(model.resources.object@, object_id) is None,
        },
{
    match find_by_id(&model.resources.object, object_id) {
        Some(o) => Some(ObjectView::new(o)),
        None => None,
    }
}

/// Views over all objects of the model, in order.
pub fn get_objects_from_model<'a>(model: &'a Model) -> (r: Vec<ObjectView<'a>>)
    ensures
        r@.len() == model.resources.object@.len(),
        forall|i: int| 0 <= i < r@.len() ==> #[trigger] r@[i]@ == model.resources.object@[i],
{
    let n = model.resources.object.len();
    let mut r: Vec<ObjectView<'a>> = Vec::new();
    for i in 0..n
        invariant
            n == model.resources.object@.len(),
            r@.len() == i,
            forall|j: int| 0 <= j < i ==> #[trigger] r@[j]@ == model.resources.object@[j],
    {
        r.push(ObjectView::new(&model.resources.object[i]));
    }
    r
}

/// Views over the mesh objects of the model, in order.
pub fn get_mesh_objects_from_model<'a>(model: &'a Model) -> (r: Vec<MeshObjectView<'a>>)
    ensures
        r@.map_values(|v: MeshObjectView<'a>| v@) == model.resources.object@.filter(
            |o: Object| mesh_of(o) is Some,
        ),
{
    let objects: &'a Vec<Object> = &model.resources.object;
    let n = objects.len();
    let mut r: Vec<MeshObjectView<'a>> = Vec::new();
    for i in 0..n
        invariant
            n == objects@.len(),
            r@.map_values(|v: MeshObjectView<'a>| v@) =~= objects@.take(i as int).filter(
                |o: Object| mesh_of(o) is Some,
            ),
    {
        reveal_with_fuel(Seq::<_>::filter, 1);
        let ghost before = r@;
        match MeshObjectView::from_object(&objects[i]) {
            Some(v) => {
                r.push(v);
                assert(r@.map_values(|v: MeshObjectView<'a>| v@) =~= before.map_values(
                    |v: MeshObjectView<'a>| v@,
                ).push(objects@[i as int]));
            },
            None => {},
        }
        assert(objects@.take(i + 1).drop_last() =~= objects@.take(i as int));
    }
    assert(objects@.take(n as int) =~= objects@);
    r
}

/// Views over the displacement mesh objects of the model, in order.
pub fn get_displacement_mesh_objects_from_model<'a>(model: &'a Model) -> (r: Vec<DisplacementMeshObjectView<'a>>)
    ensures
        r@.map_values(|v: DisplacementMeshObjectView<'a>| v@) == model.resources.object@.filter(
            |o: Object| displacement_mesh_of(o) is Some,
        ),
{
    let objects: &'a Vec<Object> = &model.resources.object;
    let n = objects.len();
    let mut r: Vec<DisplacementMeshObjectView<'a>> = Vec::new();
    for i in 0..n
        invariant
            n == objects@.len(),
            r@.map_values(|v: DisplacementMeshObjectView<'a>| v@) =~= objects@.take(i as int).filter(
                |o: Object| displacement_mesh_of(o) is Some,
            ),
    {
        reveal_with_fuel(Seq::<_>::filter, 1);
        let ghost before = r@;
        match DisplacementMeshObjectView::from_object(&objects[i]) {
            Some(v) => {
                r.push(v);
                assert(r@.map_values(|v: DisplacementMeshObjectView<'a>| v@) =~= before.map_values(
                    |v: DisplacementMeshObjectView<'a>| v@,
                ).push(objects@[i as int]));
            },
            None => {},
        }
        assert(objects@.take(i + 1).drop_last() =~= objects@.take(i as int));
    }
    assert(objects@.take(n as int) =~= objects@);
    r
}

/// Views over the components objects of the model, in order.
pub fn get_components_objects_from_model<'a>(model: &'a Model) -> (r: Vec<ComponentsObjectView<'a>>)
    ensures
        r@.map_values(|v: ComponentsObjectView<'a>| v@) == model.resources.object@.filter(
            |o: Object| components_of(o) is Some,
        ),
{
    let objects: &'a Vec<Object> = &model.resources.object;
    let n = objects.len();
    let mut r: Vec<ComponentsObjectView<'a>> = Vec::new();
    for i in 0..n
        invariant
            n == objects@.len(),
            r@.map_values(|v: ComponentsObjectView<'a>| v@) =~= objects@.take(i as int).filter(
                |o: Object| components_of(o) is Some,
            ),
    {
        reveal_with_fuel(Seq::<_>::filter, 1);
        let ghost before = r@;
        match ComponentsObjectView::from_object(&objects[i]) {
            Some(v) => {
                r.push(v);
                assert(r@.map_values(|v: ComponentsObjectView<'a>| v@) =~= before.map_values(
                    |v: ComponentsObjectView<'a>| v@,
                ).push(objects@[i as int]));
            },
            None => {},
        }
        assert(objects@.take(i + 1).drop_last() =~= objects@.take(i as int));
    }
    assert(objects@.take(n as int) =~= objects@);
    r
}

/// Views over the boolean shape objects of the model, in order.
pub fn get_boolean_shape_objects_from_model<'a>(model: &'a Model) -> (r: Vec<BooleanShapeView<'a>>)
    ensures
        r@.map_values(|v: BooleanShapeView<'a>| v@) == model.resources.object@.filter(
            |o: Object| boolean_shape_of(o) is Some,
        ),
{
    let objects: &'a Vec<Object> = &model.resources.object;
    let n = objects.len();
    let mut r: Vec<BooleanShapeView<'a>> = Vec::new();
    for i in 0..n
        invariant
            n == objects@.len(),
            r@.map_values(|v: BooleanShapeView<'a>| v@) =~= objects@.take(i as int).filter(
                |o: Object| boolean_shape_of(o) is Some,
            ),
    {
        reveal_with_fuel(Seq::<_>::filter, 1);
        let ghost before = r@;
        match BooleanShapeView::from_object(&objects[i]) {
            Some(v) => {
                r.push(v);
                assert(r@.map_values(|v: BooleanShapeView<'a>| v@) =~= before.map_values(
                    |v: BooleanShapeView<'a>| v@,
                ).push(objects@[i as int]));
            },
            None => {},
        }
        assert(objects@.take(i + 1).drop_last() =~= objects@.take(i as int));
    }
    assert(objects@.take(n as int) =~= objects@);
    r
}

/// Views over the build items of the model, in order.
pub fn get_items_from_model<'a>(model: &'a Model) -> (r: Vec<ItemView<'a>>)
    ensures
        r@.len() == model.build.item@.len(),
        forall|i: int| 0 <= i < r@.len() ==> #[trigger] r@[i]@ == model.build.item@[i],
{
    let n = model.build.item.len();
    let mut r: Vec<ItemView<'a>> = Vec::new();
    for i in 0..n
        invariant
            n == model.build.item@.len(),
            r@.len() == i,
            forall|j: int| 0 <= j < i ==> #[trigger] r@[j]@ == model.build.item@[j],
    {
        r.push(ItemView::new(&model.build.item[i]));
    }
    r
}

/// Views over all slice stacks of the model, in order.
pub fn get_slice_stacks_from_model<'a>(model: &'a Model) -> (r: Vec<SliceStackView<'a>>)
    ensures
        r@.len() == model.resources.slicestack@.len(),
        forall|i: int| 0 <= i < r@.len() ==> #[trigger] r@[i]@ == model.resources.slicestack@[i],
{
    let n = model.resources.slicestack.len();
    let mut r: Vec<SliceStackView<'a>> = Vec::new();
    for i in 0..n
        invariant
            n == model.resources.slicestack@.len(),
            r@.len() == i,
            forall|j: int| 0 <= j < i ==> #[trigger] r@[j]@ == model.resources.slicestack@[j],
    {
        r.push(SliceStackView::new(&model.resources.slicestack[i]));
    }
    r
}

/// A view over the first slice stack of the model with the given id, if there is one.
pub fn get_slice_stack_from_model<'a>(slicestack_id: u32, model: &'a Model) -> (r: Option<SliceStackView<'a>>)
    ensures
        match r {
            Some(v) => find_by_id_spec(model.resources.slicestack@, slicestack_id) == Some(v@),
            None => find_by_id_spec(model.resources.slicestack@, slicestack_id) is None,
        },
{
    match find_by_id(&model.resources.slicestack, slicestack_id) {
        Some(x) => Some(SliceStackView::new(x)),
        None => None,
    }
}

/// Views over all color groups of the model, in order.
pub fn get_color_groups_from_model<'a>(model: &'a Model) -> (r: Vec<ColorGroupView<'a>>)
    ensures
        r@.len() == model.resources.colorgroup@.len(),
        forall|i: int| 0 <= i < r@.len() ==> #[trigger] r@[i]@ == model.resources.colorgroup@[i],
{
    let n = model.resources.colorgroup.len();
    let mut r: Vec<ColorGroupView<'a>> = Vec::new();
    for i in 0..n
        invariant
            n == model.resources.colorgroup@.len(),
            r@.len() == i,
            forall|j: int| 0 <= j < i ==> #[trigger] r@[j]@ == model.resources.colorgroup@[j],
    {
        r.push(ColorGroupView::new(&model.resources.colorgroup[i]));
    }
    r
}

/// A view over the first color group of the model with the given id, if there is one.
pub fn get_color_group_by_id<'a>(colorgroup_id: u32, model: &'a Model) -> (r: Option<ColorGroupView<'a>>)
    ensures
        match r {
            Some(v) => find_by_id_spec(model.resources.colorgroup@, colorgroup_id) == Some(v@),
            None => find_by_id_spec(model.resources.colorgroup@, colorgroup_id) is None,
        },
{
    match find_by_id(&model.resources.colorgroup, colorgroup_id) {
        Some(x) => Some(ColorGroupView::new(x)),
        None => None,
    }
}

/// Views over all texture 2D groups of the model, in order.
pub fn get_texture2d_groups_from_model<'a>(model: &'a Model) -> (r: Vec<Texture2DGroupView<'a>>)
    ensures
        r@.len() == model.resources.texture2dgroup@.len(),
        forall|i: int| 0 <= i < r@.len() ==> #[trigger] r@[i]@ == model.resources.texture2dgroup@[i],
{
    let n = model.resources.texture2dgroup.len();
    let mut r: Vec<Texture2DGroupView<'a>> = Vec::new();
    for i in 0..n
        invariant
            n == model.resources.texture2dgroup@.len(),
            r@.len() == i,
            forall|j: int| 0 <= j < i ==> #[trigger] r@[j]@ == model.resources.texture2dgroup@[j],
    {
        r.push(Texture2DGroupView::new(&model.resources.texture2dgroup[i]));
    }
    r
}

/// A view over the first texture 2D group of the model with the given id, if there is one.
pub fn get_texture2d_group_by_id<'a>(texture2dgroup_id: u32, model: &'a Model) -> (r: Option<Texture2DGroupView<'a>>)
    ensures
        match r {
            Some(v) => find_by_id_spec(model.resources.texture2dgroup@, texture2dgroup_id) == Some(v@),
            None => find_by_id_spec(model.resources.texture2dgroup@, texture2dgroup_id) is None,
        },
{
    match find_by_id(&model.resources.texture2dgroup, texture2dgroup_id) {
        Some(x) => Some(Texture2DGroupView::new(x)),
        None => None,
    }
}

/// Views over all composite materials resources of the model, in order.
pub fn get_composite_materials_from_model<'a>(model: &'a Model) -> (r: Vec<CompositeMaterialsView<'a>>)
    ensures
        r@.len() == model.resources.compositematerials@.len(),
        forall|i: int| 0 <= i < r@.len() ==> #[trigger] r@[i]@ == model.resources.compositematerials@[i],
{
    let n = model.resources.compositematerials.len();
    let mut r: Vec<CompositeMaterialsView<'a>> = Vec::new();
    for i in 0..n
        invariant
            n == model.resources.compositematerials@.len(),
            r@.len() == i,
            forall|j: int| 0 <= j < i ==> #[trigger] r@[j]@ == model.resources.compositematerials@[j],
    {
        r.push(CompositeMaterialsView::new(&model.resources.compositematerials[i]));
    }
    r
}

/// A view over the first composite materials resource of the model with the given id, if there is one.
pub fn get_composite_materials_by_id<'a>(compositematerials_id: u32, model: &'a Model) -> (r: Option<CompositeMaterialsView<'a>>)
    ensures
        match r {
            Some(v) => find_by_id_spec(model.resources.compositematerials@, compositematerials_id) == Some(v@),
            None => find_by_id_spec(model.resources.compositematerials@, compositematerials_id) is None,
        },
{
    match find_by_id(&model.resources.compositematerials, compositematerials_id) {
        Some(x) => Some(CompositeMaterialsView::new(x)),
        None => None,
    }
}

/// Views over all multi-properties resources of the model, in order.
pub fn get_multi_properties_from_model<'a>(model: &'a Model) -> (r: Vec<MultiPropertiesView<'a>>)
    ensures
        r@.len() == model.resources.multiproperties@.len(),
        forall|i: int| 0 <= i < r@.len() ==> #[trigger] r@[i]@ == model.resources.multiproperties@[i],
{
    let n = model.resources.multiproperties.len();
    let mut r: Vec<MultiPropertiesView<'a>> = Vec::new();
    for i in 0..n
        invariant
            n == model.resources.multiproperties@.len(),
            r@.len() == i,
            forall|j: int| 0 <= j < i ==> #[trigger] r@[j]@ == model.resources.multiproperties@[j],
    {
        r.push(MultiPropertiesView::new(&model.resources.multiproperties[i]));
    }
    r
}

/// A view over the first multi-properties resource of the model with the given id, if there is one.
pub fn get_multi_properties_by_id<'a>(multiproperties_id: u32, model: &'a Model) -> (r: Option<MultiPropertiesView<'a>>)
    ensures
        match r {
            Some(v) => find_by_id_spec(model.resources.multiproperties@, multiproperties_id) == Some(v@),
            None => find_by_id_spec(model.resources.multiproperties@, multiproperties_id) is None,
        },
{
    match find_by_id(&model.resources.multiproperties, multiproperties_id) {
        Some(x) => Some(MultiPropertiesView::new(x)),
        None => None,
    }
}

/// Views over all texture 2D resources of the model, in order.
pub fn get_texture2ds_from_model<'a>(model: &'a Model) -> (r: Vec<Texture2DView<'a>>)
    ensures
        r@.len() == model.resources.texture2d@.len(),
        forall|i: int| 0 <= i < r@.len() ==> #[trigger] r@[i]@ == model.resources.texture2d@[i],
{
    let n = model.resources.texture2d.len();
    let mut r: Vec<Texture2DView<'a>> = Vec::new();
    for i in 0..n
        invariant
            n == model.resources.texture2d@.len(),
            r@.len() == i,
            forall|j: int| 0 <= j < i ==> #[trigger] r@[j]@ == model.resources.texture2d@[j],
    {
        r.push(Texture2DView::new(&model.resources.texture2d[i]));
    }
    r
}

/// A view over the first texture 2D resource of the model with the given id, if there is one.
pub fn get_texture2d_by_id<'a>(texture2d_id: u32, model: &'a Model) -> (r: Option<Texture2DView<'a>>)
    ensures
        match r {
            Some(v) => find_by_id_spec(model.resources.texture2d@, texture2d_id) == Some(v@),
            None => find_by_id_spec(model.resources.texture2d@, texture2d_id) is None,
        },
{
    match find_by_id(&model.resources.texture2d, texture2d_id) {
        Some(x) => Some(Texture2DView::new(x)),
        None => None,
    }
}

/// Views over all displacement 2D resources of the model, in order.
pub fn get_displacement2ds_from_model<'a>(model: &'a Model) -> (r: Vec<Displacement2DView<'a>>)
    ensures
        r@.len() == model.resources.displacement2d@.len(),
        forall|i: int| 0 <= i < r@.len() ==> #[trigger] r@[i]@ == model.resources.displacement2d@[i],
{
    let n = model.resources.displacement2d.len();
    let mut r: Vec<Displacement2DView<'a>> = Vec::new();
    for i in 0..n
        invariant
            n == model.resources.displacement2d@.len(),
            r@.len() == i,
            forall|j: int| 0 <= j < i ==> #[trigger] r@[j]@ == model.resources.displacement2d@[j],
    {
        r.push(Displacement2DView::new(&model.resources.displacement2d[i]));
    }
    r
}

/// A view over the first displacement 2D resource of the model with the given id, if there is one.
pub fn get_displacement2d_by_id<'a>(displacement2d_id: u32, model: &'a Model) -> (r: Option<Displacement2DView<'a>>)
    ensures
        match r {
            Some(v) => find_by_id_spec(model.resources.displacement2d@, displacement2d_id) == Some(v@),
            None => find_by_id_spec(model.resources.displacement2d@, displacement2d_id) is None,
        },
{
    match find_by_id(&model.resources.displacement2d, displacement2d_id) {
        Some(x) => Some(Displacement2DView::new(x)),
        None => None,
    }
}

/// Views over all normal vector groups of the model, in order.
pub fn get_normvectorgroups_from_model<'a>(model: &'a Model) -> (r: Vec<NormVectorGroupView<'a>>)
    ensures
        r@.len() == model.resources.normvectorgroup@.len(),
        forall|i: int| 0 <= i < r@.len() ==> #[trigger] r@[i]@ == model.resources.normvectorgroup@[i],
{
    let n = model.resources.normvectorgroup.len();
    let mut r: Vec<NormVectorGroupView<'a>> = Vec::new();
    for i in 0..n
        invariant
            n == model.resources.normvectorgroup@.len(),
            r@.len() == i,
            forall|j: int| 0 <= j < i ==> #[trigger] r@[j]@ == model.resources.normvectorgroup@[j],
    {
        r.push(NormVectorGroupView::new(&model.resources.normvectorgroup[i]));
    }
    r
}

/// A view over the first normal vector group of the model with the given id, if there is one.
pub fn get_normvectorgroup_by_id<'a>(normvectorgroup_id: u32, model: &'a Model) -> (r: Option<NormVectorGroupView<'a>>)
    ensures
        match r {
            Some(v) => find_by_id_spec(model.resources.normvectorgroup@, normvectorgroup_id) == Some(v@),
            None => find_by_id_spec(model.resources.normvectorgroup@, normvectorgroup_id) is None,
        },
{
    match find_by_id(&model.resources.normvectorgroup, normvectorgroup_id) {
        Some(x) => Some(NormVectorGroupView::new(x)),
        None => None,
    }
}

/// Views over all displacement 2D groups of the model, in order.
pub fn get_disp2dgroups_from_model<'a>(model: &'a Model) -> (r: Vec<Disp2DGroupView<'a>>)
    ensures
        r@.len() == model.resources.disp2dgroup@.len(),
        forall|i: int| 0 <= i < r@.len() ==> #[trigger] r@[i]@ == model.resources.disp2dgroup@[i],
{
    let n = model.resources.disp2dgroup.len();
    let mut r: Vec<Disp2DGroupView<'a>> = Vec::new();
    for i in 0..n
        invariant
            n == model.resources.disp2dgroup@.len(),
            r@.len() == i,
            forall|j: int| 0 <= j < i ==> #[trigger] r@[j]@ == model.resources.disp2dgroup@[j],
    {
        r.push(Disp2DGroupView::new(&model.resources.disp2dgroup[i]));
    }
    r
}

/// A view over the first displacement 2D group of the model with the given id, if there is one.
pub fn get_disp2dgroup_by_id<'a>(disp2dgroup_id: u32, model: &'a Model) -> (r: Option<Disp2DGroupView<'a>>)
    ensures
        match r {
            Some(v) => find_by_id_spec(model.resources.disp2dgroup@, disp2dgroup_id) == Some(v@),
            None => find_by_id_spec(model.resources.disp2dgroup@, disp2dgroup_id) is None,
        },
{
    match find_by_id(&model.resources.disp2dgroup, disp2dgroup_id) {
        Some(x) => Some(Disp2DGroupView::new(x)),
        None => None,
    }
}

/// Views over all base materials resources of the model, in order.
pub fn get_base_materials_from_model<'a>(model: &'a Model) -> (r: Vec<BaseMaterialsView<'a>>)
    ensures
        r@.len() == model.resources.basematerials@.len(),
        forall|i: int| 0 <= i < r@.len() ==> #[trigger] r@[i]@ == model.resources.basematerials@[i],
{
    let n = model.resources.basematerials.len();
    let mut r: Vec<BaseMaterialsView<'a>> = Vec::new();
    for i in 0..n
        invariant
            n == model.resources.basematerials@.len(),
            r@.len() == i,
            forall|j: int| 0 <= j < i ==> #[trigger] r@[j]@ == model.resources.basematerials@[j],
    {
        r.push(BaseMaterialsView::new(&model.resources.basematerials[i]));
    }
    r
}

/// A view over the first base materials resource of the model with the given id, if there is one.
pub fn get_base_materials_by_id<'a>(basematerials_id: u32, model: &'a Model) -> (r: Option<BaseMaterialsView<'a>>)
    ensures
        match r {
            Some(v) => find_by_id_spec(model.resources.basematerials@, basematerials_id) == Some(v@),
            None => find_by_id_spec(model.resources.basematerials@, basematerials_id) is None,
        },
{
    match find_by_id(&model.resources.basematerials, basematerials_id) {
        Some(x) => Some(BaseMaterialsView::new(x)),
        None => None,
    }
}

/// The view over the texture referenced by a texture 2D group, if the model has it.
pub fn get_texture_for_group<'a>(
    texture2dgroup: &Texture2DGroup,
    model: &'a Model,
) -> (r: Option<Texture2DView<'a>>)
    ensures
        match r {
            Some(v) => find_by_id_spec(model.resources.texture2d@, texture2dgroup.texid) == Some(v@),
            None => find_by_id_spec(model.resources.texture2d@, texture2dgroup.texid) is None,
        },
{
    get_texture2d_by_id(texture2dgroup.texid, model)
}

/// A material property value resolved from a property group and index.
#[derive(Debug, Clone, PartialEq, Eq)]
pub enum MaterialPropertyValue {
    /// Solid color property.
    Color(Color),
    /// Texture coordinate property.
    TextureCoord { u: Double, v: Double },
    /// Composite material ratios.
    Composite { values: Vec<Double> },
    /// Multi-property indices.
    Multi { indices: Vec<u32> },
    /// Base material name and display color.
    Base { name: String, displaycolor: String },
}

/// The plain content of a material property value.
pub enum MaterialPropertySpec {
    Color(Color),
    TextureCoord(Double, Double),
    Composite(Seq<Double>),
    Multi(Seq<u32>),
    Base(Seq<char>, Seq<char>),
}

/// The plain content of a material property value.
pub open spec fn material_property_view(v: MaterialPropertyValue) -> MaterialPropertySpec {
    match v {
        MaterialPropertyValue::Color(c) => MaterialPropertySpec::Color(c),
        MaterialPropertyValue::TextureCoord { u, v } => MaterialPropertySpec::TextureCoord(u, v),
        MaterialPropertyValue::Composite { values } => MaterialPropertySpec::Composite(values@),
        MaterialPropertyValue::Multi { indices } => MaterialPropertySpec::Multi(indices@),
        MaterialPropertyValue::Base { name, displaycolor } => MaterialPropertySpec::Base(
            name@,
            displaycolor@,
        ),
    }
}

/// The property at index `ix` of the first group with id `pid`, searching color groups,
/// then texture 2D groups, composite materials, multi-properties and base materials; `None`
/// when the first group found has no element at `ix` or no group has the id.
pub open spec fn resolve_in_groups(pid: u32, ix: int, model: Model) -> Option<MaterialPropertySpec> {
    let r = model.resources;
    match find_by_id_spec(r.colorgroup@, pid) {
        Some(g) => if ix < g.color@.len() {
            Some(MaterialPropertySpec::Color(g.color@[ix].color))
        } else {
            None
        },
        None => match find_by_id_spec(r.texture2dgroup@, pid) {
            Some(g) => if ix < g.tex2coord@.len() {
                Some(MaterialPropertySpec::TextureCoord(g.tex2coord@[ix].u, g.tex2coord@[ix].v))
            } else {
                None
            },
            None => match find_by_id_spec(r.compositematerials@, pid) {
                Some(g) => if ix < g.composite@.len() {
                    Some(MaterialPropertySpec::Composite(g.composite@[ix].values@))
                } else {
                    None
                },
                None => match find_by_id_spec(r.multiproperties@, pid) {
                    Some(g) => if ix < g.multi@.len() {
                        Some(MaterialPropertySpec::Multi(g.multi@[ix].pindices@))
                    } else {
                        None
                    },
                    None => match find_by_id_spec(r.basematerials@, pid) {
                        Some(g) => if ix < g.base@.len() {
                            Some(
                                MaterialPropertySpec::Base(
                                    g.base@[ix].name@,
                                    g.base@[ix].displaycolor@,
                                ),
                            )
                        } else {
                            None
                        },
                        None => None,
                    },
                },
            },
        },
    }
}

/// The material property named by `pid` and `pindex`, `None` when either is absent.
pub open spec fn resolve_material_property_spec(
    pid: OptionalResourceId,
    pindex: OptionalResourceIndex,
    model: Model,
) -> Option<MaterialPropertySpec> {
    match (pid.value, pindex.value) {
        (Some(p), Some(ix)) => resolve_in_groups(p, ix as int, model),
        _ => None,
    }
}

/// A copy of a vector of values.
fn copy_vec<T: Copy>(v: &Vec<T>) -> (r: Vec<T>)
    ensures
        r@ == v@,
{
    let n = v.len();
    let mut r: Vec<T> = Vec::new();
    for i in 0..n
        invariant
            n == v@.len(),
            r@ =~= v@.take(i as int),
    {
        r.push(v[i]);
    }
    assert(v@.take(n as int) =~= v@);
    r
}

/// Resolves a material property of the model from a property group id and index.
pub fn resolve_material_property<'a>(
    pid: OptionalResourceId,
    pindex: OptionalResourceIndex,
    model: &'a Model,
) -> (r: Option<MaterialPropertyValue>)
    ensures
        match r {
            Some(v) => resolve_material_property_spec(pid, pindex, *model) == Some(
                material_property_view(v),
            ),
            None => resolve_material_property_spec(pid, pindex, *model) is None,
        },
{
    let pid = match pid.get() {
        Some(p) => p,
        None => return None,
    };
    let pindex = match pindex.get() {
        Some(i) => i as usize,
        None => return None,
    };
    match find_by_id(&model.resources.colorgroup, pid) {
        Some(g) => {
            if pindex < g.color.len() {
                return Some(MaterialPropertyValue::Color(g.color[pindex].color));
            } else {
                return None;
            }
        },
        None => {},
    }
    match find_by_id(&model.resources.texture2dgroup, pid) {
        Some(g) => {
            if pindex < g.tex2coord.len() {
                let t = g.tex2coord[pindex];
                return Some(MaterialPropertyValue::TextureCoord { u: t.u, v: t.v });
            } else {
                return None;
            }
        },
        None => {},
    }
    match find_by_id(&model.resources.compositematerials, pid) {
        Some(g) => {
            if pindex < g.composite.len() {
                return Some(
                    MaterialPropertyValue::Composite { values: copy_vec(&g.composite[pindex].values) },
                );
            } else {
                return None;
            }
        },
        None => {},
    }
    match find_by_id(&model.resources.multiproperties, pid) {
        Some(g) => {
            if pindex < g.multi.len() {
                return Some(
                    MaterialPropertyValue::Multi { indices: copy_vec(&g.multi[pindex].pindices) },
                );
            } else {
                return None;
            }
        },
        None => {},
    }
    match find_by_id(&model.resources.basematerials, pid) {
        Some(g) => {
            if pindex < g.base.len() {
                let b = &g.base[pindex];
                return Some(
                    MaterialPropertyValue::Base {
                        name: b.name.clone(),
                        displaycolor: b.displaycolor.clone(),
                    },
                );
            } else {
                return None;
            }
        },
        None => {},
    }
    None
}

} // verus!
