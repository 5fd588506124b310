//! The model builder: it hands out object and resource ids in order, enforces the rules
//! of the production extension, and derives the required extensions when it builds.

use vstd::prelude::*;

use crate::builder::errors::{
    BooleanShapeError, BuildError, ComponentsObjectError, CompositeMaterialsError, Disp2DGroupError,
    Displacement2DError, DisplacementMeshObjectError, ItemError, MeshObjectError, ModelError,
    MultiPropertiesError, ProductionExtensionError, SliceStackBuilderError, Texture2DError,
    Texture2DGroupError,
};
use crate::builder::extensions::{compute_required_extensions, required_extensions, with_extension};
use crate::builder::ids::{ObjectId, SliceStackId};
use crate::builder::leaf_builders::{item_error, ItemBuilder};
use crate::builder::object_builder::{
    components_error, fresh_object, id_listed, BooleanObjectBuilder, ComponentsObjectBuilder,
    DisplacementMeshObjectBuilder, MeshObjectBuilder,
};
use crate::builder::resource_builders::{
    composite_materials_built, disp2d_group_built, displacement2d_built, multi_properties_built,
    slice_stack_built, texture2d_built, texture2d_group_built, Displacement2DFields, Texture2DFields,
    BaseMaterialsBuilder, ColorGroupBuilder, CompositeMaterialsBuilder, Disp2DGroupBuilder,
    Displacement2DBuilder, MultiPropertiesBuilder, NormVectorGroupBuilder, SliceStackBuilder,
    Texture2DBuilder, Texture2DGroupBuilder,
};
use crate::domain::build_section::{Build, Item};
use crate::domain::boolean::{BooleanOperation, BooleanShape};
use crate::domain::component::Component;
use crate::domain::displacement::{Disp2DGroup, Displacement2D, NormVectorGroup};
use crate::domain::material::{ColorGroup, CompositeMaterials, MultiProperties, Texture2D, Texture2DGroup};
use crate::domain::slice::SliceStack;
use crate::domain::model::{Metadata, Model, Unit};
use crate::domain::object::{components_of, displacement_mesh_of, mesh_of, Object, ObjectKind};
use crate::domain::resources::{BaseMaterials, Resources};
use crate::namespaces::ThreemfNamespace;
use crate::text::{opt_chars, opt_str_chars};
use crate::types::{ResourceId, UuidResource};

verus! {

/// What a model builder holds: the parts of the model so far, the next id of each kind
/// of resource, whether it builds the root model, and whether the production extension
/// is required.
pub struct ModelBuilderState {
    pub unit: Option<Unit>,
    pub requiredextensions: Seq<ThreemfNamespace>,
    pub recommendedextensions: Seq<ThreemfNamespace>,
    pub metadata: Seq<Metadata>,
    pub resources: Resources,
    pub build: Option<Build>,
    pub is_root: bool,
    pub next_object_id: u32,
    pub next_slicestack_id: u32,
    pub next_colorgroup_id: u32,
    pub next_texture2dgroup_id: u32,
    pub next_texture2d_id: u32,
    pub next_composite_materials_id: u32,
    pub next_multi_properties_id: u32,
    pub next_basematerials_id: u32,
    pub next_displacement2d_id: u32,
    pub next_normvectorgroup_id: u32,
    pub next_disp2dgroup_id: u32,
    pub is_production_ext_required: bool,
}

/// The ids are 1, 2, 3, ... in order, and `next` is the one after the last.
pub open spec fn numbered(ids: Seq<u32>, next: u32) -> bool {
    &&& forall|i: int| 0 <= i < ids.len() ==> #[trigger] ids[i] == i + 1
    &&& next == ids.len() + 1
}

/// Every component of an object references an object listed before it.
pub open spec fn components_refer_back(objs: Seq<Object>) -> bool {
    forall|i: int, k: int|
        0 <= i < objs.len() && components_of(#[trigger] objs[i]) is Some && 0 <= k < components_of(objs[i])->0.component@.len()
            ==> {
            let c = #[trigger] components_of(objs[i])->0.component@[k];
            1 <= c.objectid <= i
        }
}

/// The objects have the ids 1, 2, 3, ... in order.
pub open spec fn ids_in_order(objs: Seq<Object>) -> bool {
    forall|i: int| 0 <= i < objs.len() ==> (#[trigger] objs[i]).id == i + 1
}

/// The ids of the objects.
pub open spec fn object_ids(objs: Seq<Object>) -> Seq<u32> {
    objs.map_values(|o: Object| o.id)
}

/// The builder's resources of each kind are numbered from 1 in order, and components
/// only reference objects added before them.
pub open spec fn builder_wf(s: ModelBuilderState) -> bool {
    &&& numbered(object_ids(s.resources.object@), s.next_object_id)
    &&& numbered(s.resources.slicestack@.map_values(|x: crate::domain::slice::SliceStack| x.id), s.next_slicestack_id)
    &&& numbered(s.resources.colorgroup@.map_values(|x: crate::domain::material::ColorGroup| x.id), s.next_colorgroup_id)
    &&& numbered(
        s.resources.texture2dgroup@.map_values(|x: crate::domain::material::Texture2DGroup| x.id),
        s.next_texture2dgroup_id,
    )
    &&& numbered(s.resources.texture2d@.map_values(|x: crate::domain::material::Texture2D| x.id), s.next_texture2d_id)
    &&& numbered(
        s.resources.compositematerials@.map_values(|x: crate::domain::material::CompositeMaterials| x.id),
        s.next_composite_materials_id,
    )
    &&& numbered(
        s.resources.multiproperties@.map_values(|x: crate::domain::material::MultiProperties| x.id),
        s.next_multi_properties_id,
    )
    &&& numbered(s.resources.basematerials@.map_values(|x: crate::domain::resources::BaseMaterials| x.id), s.next_basematerials_id)
    &&& numbered(
        s.resources.displacement2d@.map_values(|x: crate::domain::displacement::Displacement2D| x.id),
        s.next_displacement2d_id,
    )
    &&& numbered(
        s.resources.normvectorgroup@.map_values(|x: crate::domain::displacement::NormVectorGroup| x.id),
        s.next_normvectorgroup_id,
    )
    &&& numbered(
        s.resources.disp2dgroup@.map_values(|x: crate::domain::displacement::Disp2DGroup| x.id),
        s.next_disp2dgroup_id,
    )
    &&& components_refer_back(s.resources.object@)
}

/// Builds the build section of a root model.
pub struct BuildBuilder {
    build: Build,
}

impl View for BuildBuilder {
    type V = Build;

    closed spec fn view(&self) -> Build {
        self.build
    }
}

/// The error, if any, of a build with or without the production extension.
pub open spec fn build_error(b: Build, production: bool) -> Option<BuildError> {
    if production && b.uuid is None {
        Some(BuildError::BuildUuidNotSet)
    } else {
        None
    }
}

impl BuildBuilder {
    /// A build without UUID or items.
    pub fn new() -> (r: Self)
        ensures
            r@.uuid is None,
            r@.item@.len() == 0,
    {
        BuildBuilder { build: Build { uuid: None, item: Vec::new() } }
    }

    /// Sets the UUID of the build.
    pub fn uuid(&mut self, uuid: UuidResource) -> (r: &mut Self)
        ensures
            r@ == (Build { uuid: Some(uuid), ..old(self)@ }),
            *final(self) == *final(r),
    {
        self.build.uuid = Some(uuid);
        self
    }

    /// Adds the item placing `objectid`, configured by `f`, unless the item breaks the
    /// rules of the production extension.
    pub fn add_build_item<F>(&mut self, objectid: ObjectId, is_production_ext_enabled: bool, f: F) -> (r: Result<(), ItemError>)
        where
            F: FnOnce(&mut ItemBuilder),
        requires
            forall|b: &mut ItemBuilder| call_requires(f, (b,)),
        ensures
            r is Err ==> final(self)@ == old(self)@,
            r is Ok ==> {
                &&& final(self)@.uuid == old(self)@.uuid
                &&& final(self)@.item@.len() == old(self)@.item@.len() + 1
                &&& final(self)@.item@.take(old(self)@.item@.len() as int) == old(self)@.item@
                &&& item_error(final(self)@.item@.last(), is_production_ext_enabled) is None
            },
            exists|b: &mut ItemBuilder| {
                &&& call_ensures(f, (b,), ())
                &&& (*b)@ == (Item { objectid: objectid.0, transform: None, partnumber: None, path: None, uuid: None })
                &&& match item_error(mut_ref_future(b)@, is_production_ext_enabled) {
                    Some(e) => r == Err::<(), ItemError>(e),
                    None => r is Ok && final(self)@.item@ == old(self)@.item@.push(mut_ref_future(b)@),
                }
            },
    {
        let mut builder = ItemBuilder::new(objectid);
        let ghost fresh = builder;
        f(&mut builder);
        let ghost spec_item = builder@;
        assert(exists|w: &mut ItemBuilder| call_ensures(f, (w,), ()) && *w == fresh && mut_ref_future(w) == builder);
        match builder.build(is_production_ext_enabled) {
            Ok(item) => {
                let ghost before = self.build.item@;
                self.build.item.push(item);
                proof {
                    assert(self.build.item@.take(before.len() as int) =~= before);
                    assert(self.build.item@ =~= before.push(spec_item));
                }
                Ok(())
            },
            Err(e) => Err(e),
        }
    }

    /// `Ok` unless the production extension is enabled and the build has no UUID.
    pub fn can_build(&self, is_production_ext_enabled: bool) -> (r: Result<(), BuildError>)
        ensures
            match build_error(self@, is_production_ext_enabled) {
                Some(e) => r == Err::<(), BuildError>(e),
                None => r is Ok,
            },
    {
        if is_production_ext_enabled && self.build.uuid.is_none() {
            return Err(BuildError::BuildUuidNotSet);
        }
        Ok(())
    }

    /// The build, unless the production extension is required and it has no UUID.
    pub fn build(self, is_production_ext_required: bool) -> (r: Result<Build, BuildError>)
        ensures
            match build_error(self@, is_production_ext_required) {
                Some(e) => r == Err::<Build, BuildError>(e),
                None => r == Ok::<Build, BuildError>(self@),
            },
    {
        match self.can_build(is_production_ext_required) {
            Ok(()) => Ok(self.build),
            Err(e) => Err(e),
        }
    }
}

/// The production extension error, if any, of an object: a missing UUID, then a
/// component without UUID.
pub open spec fn object_production_error(o: Object) -> Option<ProductionExtensionError> {
    if o.uuid is None {
        Some(ProductionExtensionError::ObjectUuidNotSet)
    } else if components_of(o) matches Some(c) && exists|k: int| 0 <= k < c.component@.len() && (#[trigger] c.component@[k]).uuid is None {
        Some(ProductionExtensionError::ComponentUuidNotSet)
    } else {
        None
    }
}

/// The production extension error, if any, of the build: a missing UUID, then an item
/// without UUID.
pub open spec fn build_production_error(b: Option<Build>) -> Option<ProductionExtensionError> {
    match b {
        None => None,
        Some(b) => if b.uuid is None {
            Some(ProductionExtensionError::BuildUuidNotSet)
        } else if exists|k: int| 0 <= k < b.item@.len() && (#[trigger] b.item@[k]).uuid is None {
            Some(ProductionExtensionError::ItemUuidNotSet)
        } else {
            None
        },
    }
}

/// The first production extension error among the objects.
pub open spec fn first_object_production_error(objs: Seq<Object>) -> Option<ProductionExtensionError>
    decreases objs.len(),
{
    if objs.len() == 0 {
        None
    } else {
        match object_production_error(objs[0]) {
            Some(e) => Some(e),
            None => first_object_production_error(objs.drop_first()),
        }
    }
}

/// The error of requiring the production extension, if any: the first object is
/// checked, then the build, then the other objects; with no objects, the build.
pub open spec fn production_error(objs: Seq<Object>, b: Option<Build>) -> Option<ProductionExtensionError> {
    if objs.len() == 0 {
        build_production_error(b)
    } else {
        match object_production_error(objs[0]) {
            Some(e) => Some(e),
            None => match build_production_error(b) {
                Some(e) => Some(e),
                None => first_object_production_error(objs.drop_first()),
            },
        }
    }
}

/// The first error among the objects is that of the first object that has one.
proof fn lemma_first_object_error(objs: Seq<Object>, i: int)
    requires
        0 <= i <= objs.len(),
        forall|j: int| 0 <= j < i ==> object_production_error(#[trigger] objs[j]) is None,
    ensures
        i < objs.len() ==> first_object_production_error(objs) == (match object_production_error(objs[i]) {
            Some(e) => Some(e),
            None => first_object_production_error(objs.skip(i + 1)),
        }),
        i == objs.len() ==> first_object_production_error(objs) is None,
    decreases i,
{
    if i > 0 {
        let t = objs.drop_first();
        assert forall|j: int| 0 <= j < i - 1 implies object_production_error(#[trigger] t[j]) is None by {
            assert(t[j] == objs[j + 1]);
        }
        lemma_first_object_error(t, i - 1);
        if i < objs.len() {
            assert(t[i - 1] == objs[i]);
            assert(t.skip(i) =~= objs.skip(i + 1));
        }
    } else if objs.len() > 0 {
        assert(objs.skip(1) =~= objs.drop_first());
    }
}

/// True if every component has a UUID.
fn all_components_have_uuid(cs: &Vec<Component>) -> (r: bool)
    ensures
        r == !exists|k: int| 0 <= k < cs@.len() && (#[trigger] cs@[k]).uuid is None,
{
    let n = cs.len();
    for k in 0..n
        invariant
            n == cs@.len(),
            forall|j: int| 0 <= j < k ==> (#[trigger] cs@[j]).uuid is Some,
    {
        if cs[k].uuid.is_none() {
            assert(cs@[k as int].uuid is None);
            return false;
        }
    }
    true
}

/// True if every item has a UUID.
fn all_items_have_uuid(items: &Vec<Item>) -> (r: bool)
    ensures
        r == !exists|k: int| 0 <= k < items@.len() && (#[trigger] items@[k]).uuid is None,
{
    let n = items.len();
    for k in 0..n
        invariant
            n == items@.len(),
            forall|j: int| 0 <= j < k ==> (#[trigger] items@[j]).uuid is Some,
    {
        if items[k].uuid.is_none() {
            assert(items@[k as int].uuid is None);
            return false;
        }
    }
    true
}

/// True if every component of the object references an object among the first
/// `count` ids.
fn components_within(o: &Object, count: usize) -> (r: bool)
    ensures
        r == (components_of(*o) matches Some(c) ==> forall|k: int| 0 <= k < c.component@.len() ==> {
            let x = #[trigger] c.component@[k];
            1 <= x.objectid <= count
        }),
{
    match o.get_components_object() {
        Some(c) => {
            assert(components_of(*o) == Some(*c));
            let n = c.component.len();
            for k in 0..n
                invariant
                    n == c.component@.len(),
                    components_of(*o) == Some(*c),
                    forall|j: int| 0 <= j < k ==> {
                        let x = #[trigger] c.component@[j];
                        1 <= x.objectid <= count
                    },
            {
                let id = c.component[k].objectid;
                if id < 1 || id as usize > count {
                    assert(!(1 <= c.component@[k as int].objectid <= count));
                    assert(!(components_of(*o) matches Some(cc) ==> forall|k: int| 0 <= k < cc.component@.len() ==> {
                        let x = #[trigger] cc.component@[k];
                        1 <= x.objectid <= count
                    }));
                    return false;
                }
            }
            true
        },
        None => true,
    }
}

/// Holds the resources of a model while it is built.
pub struct ResourcesBuilder {
    resources: Resources,
}

impl View for ResourcesBuilder {
    type V = Resources;

    closed spec fn view(&self) -> Resources {
        self.resources
    }
}

impl ResourcesBuilder {
    /// No resources.
    fn new() -> (r: Self)
        ensures
            resources_empty(r@),
    {
        ResourcesBuilder { resources: Resources::empty() }
    }

    /// The resources.
    fn build(self) -> (r: Resources)
        ensures
            r == self@,
    {
        self.resources
    }
}

/// Builds models: a root model, which needs a build, or a sub-model, which cannot have
/// one.
pub struct ModelBuilder {
    unit: Option<Unit>,
    requiredextensions: Vec<ThreemfNamespace>,
    recommendedextensions: Vec<ThreemfNamespace>,
    metadata: Vec<Metadata>,
    resources: ResourcesBuilder,
    build: Option<BuildBuilder>,
    is_root: bool,
    next_object_id: ObjectId,
    next_slicestack_id: SliceStackId,
    next_colorgroup_id: ResourceId,
    next_texture2dgroup_id: ResourceId,
    next_texture2d_id: ResourceId,
    next_composite_materials_id: ResourceId,
    next_multi_properties_id: ResourceId,
    next_basematerials_id: ResourceId,
    next_displacement2d_id: ResourceId,
    next_normvectorgroup_id: ResourceId,
    next_disp2dgroup_id: ResourceId,
    is_production_ext_required: bool,
}

impl View for ModelBuilder {
    type V = ModelBuilderState;

    closed spec fn view(&self) -> ModelBuilderState {
        ModelBuilderState {
            unit: self.unit,
            requiredextensions: self.requiredextensions@,
            recommendedextensions: self.recommendedextensions@,
            metadata: self.metadata@,
            resources: self.resources@,
            build: match self.build {
                Some(b) => Some(b@),
                None => None,
            },
            is_root: self.is_root,
            next_object_id: self.next_object_id.0,
            next_slicestack_id: self.next_slicestack_id.0,
            next_colorgroup_id: self.next_colorgroup_id,
            next_texture2dgroup_id: self.next_texture2dgroup_id,
            next_texture2d_id: self.next_texture2d_id,
            next_composite_materials_id: self.next_composite_materials_id,
            next_multi_properties_id: self.next_multi_properties_id,
            next_basematerials_id: self.next_basematerials_id,
            next_displacement2d_id: self.next_displacement2d_id,
            next_normvectorgroup_id: self.next_normvectorgroup_id,
            next_disp2dgroup_id: self.next_disp2dgroup_id,
            is_production_ext_required: self.is_production_ext_required,
        }
    }
}

/// The resources hold nothing.
pub open spec fn resources_empty(r: Resources) -> bool {
    &&& r.object@.len() == 0
    &&& r.basematerials@.len() == 0
    &&& r.slicestack@.len() == 0
    &&& r.colorgroup@.len() == 0
    &&& r.texture2dgroup@.len() == 0
    &&& r.texture2d@.len() == 0
    &&& r.compositematerials@.len() == 0
    &&& r.multiproperties@.len() == 0
    &&& r.displacement2d@.len() == 0
    &&& r.normvectorgroup@.len() == 0
    &&& r.disp2dgroup@.len() == 0
}

/// The state of a new builder.
pub open spec fn fresh_state(s: ModelBuilderState, unit: Unit, is_root: bool) -> bool {
    &&& s.unit == Some(unit)
    &&& s.requiredextensions.len() == 0
    &&& s.recommendedextensions.len() == 0
    &&& s.metadata.len() == 0
    &&& resources_empty(s.resources)
    &&& s.build is None
    &&& s.is_root == is_root
    &&& s.next_object_id == 1
    &&& s.next_slicestack_id == 1
    &&& s.next_colorgroup_id == 1
    &&& s.next_texture2dgroup_id == 1
    &&& s.next_texture2d_id == 1
    &&& s.next_composite_materials_id == 1
    &&& s.next_multi_properties_id == 1
    &&& s.next_basematerials_id == 1
    &&& s.next_displacement2d_id == 1
    &&& s.next_normvectorgroup_id == 1
    &&& s.next_disp2dgroup_id == 1
    &&& !s.is_production_ext_required
}

/// `after` is `before` with the objects, the recommended extensions and the next object
/// id replaced.
pub open spec fn only_objects_changed(before: ModelBuilderState, after: ModelBuilderState) -> bool {
    after == (ModelBuilderState {
        resources: Resources { object: after.resources.object, ..before.resources },
        recommendedextensions: after.recommendedextensions,
        next_object_id: after.next_object_id,
        ..before
    })
}

/// The objects grew by one object with id `id`, the next object id.
pub open spec fn object_added(before: ModelBuilderState, after: ModelBuilderState, id: u32) -> bool {
    &&& id == before.next_object_id
    &&& after.resources.object@.len() == before.resources.object@.len() + 1
    &&& after.resources.object@.take(before.resources.object@.len() as int) == before.resources.object@
    &&& after.resources.object@.last().id == id
    &&& only_objects_changed(before, after)
}

/// A mesh object builder as the model builder hands it to a closure: the settings of a
/// new object with id `id`, an empty mesh, and the production requirement `production`.
pub open spec fn fresh_mesh_object_builder(b: MeshObjectBuilder, id: u32, production: bool) -> bool {
    &&& b.object_spec() == fresh_object(id)
    &&& b.production_required() == production
    &&& b.entity_spec()@.vertices.vertex@.len() == 0
    &&& b.entity_spec()@.triangles.triangle@.len() == 0
    &&& b.entity_spec()@.trianglesets is None
    &&& b.entity_spec()@.beamlattice is None
}

/// What adding a mesh object does once its closure returned `ran` and left the builder
/// as `b`: the closure's error, or the object's, leaves the state as it was; else the
/// object that `b` builds is added under the next object id.
pub open spec fn mesh_object_outcome(
    before: ModelBuilderState,
    after: ModelBuilderState,
    r: Result<ObjectId, MeshObjectError>,
    ran: Result<(), MeshObjectError>,
    b: MeshObjectBuilder,
) -> bool {
    match ran {
        Err(e) => r == Err::<ObjectId, MeshObjectError>(e) && after == before,
        Ok(_) => if b.production_required() && b.object_spec().uuid is None {
            r == Err::<ObjectId, MeshObjectError>(MeshObjectError::ObjectUuidNotSet) && after == before
        } else {
            &&& r == Ok::<ObjectId, MeshObjectError>(ObjectId(before.next_object_id))
            &&& after.resources.object@ == before.resources.object@.push(
                Object { id: before.next_object_id, kind: Some(ObjectKind::Mesh(b.entity_spec()@)), ..b.object_spec() },
            )
            &&& after.recommendedextensions == with_extension(
                before.recommendedextensions,
                ThreemfNamespace::CoreTriangleSet,
                b.entity_spec()@.trianglesets is Some,
            )
            &&& only_objects_changed(before, after)
        },
    }
}

/// A displacement mesh object builder as the model builder hands it to a closure: the
/// settings of a new object with id `id`, an empty displacement mesh, and the
/// production requirement `production`.
pub open spec fn fresh_displacement_mesh_object_builder(b: DisplacementMeshObjectBuilder, id: u32, production: bool) -> bool {
    &&& b.object_spec() == fresh_object(id)
    &&& b.production_required() == production
    &&& b.entity_spec()@.vertices.vertex@.len() == 0
    &&& b.entity_spec()@.triangles.triangle@.len() == 0
    &&& b.entity_spec()@.triangles.did.value is None
    &&& b.entity_spec()@.trianglesets is None
    &&& b.entity_spec()@.beamlattice is None
}

/// What adding a displacement mesh object does once its closure returned `ran` and left
/// the builder as `b`: the closure's error, or the object's, leaves the state as it was;
/// else the object that `b` builds is added under the next object id.
pub open spec fn displacement_mesh_object_outcome(
    before: ModelBuilderState,
    after: ModelBuilderState,
    r: Result<ObjectId, DisplacementMeshObjectError>,
    ran: Result<(), DisplacementMeshObjectError>,
    b: DisplacementMeshObjectBuilder,
) -> bool {
    match ran {
        Err(e) => r == Err::<ObjectId, DisplacementMeshObjectError>(e) && after == before,
        Ok(_) => if b.production_required() && b.object_spec().uuid is None {
            r == Err::<ObjectId, DisplacementMeshObjectError>(DisplacementMeshObjectError::ObjectUuidNotSet) && after == before
        } else {
            &&& r == Ok::<ObjectId, DisplacementMeshObjectError>(ObjectId(before.next_object_id))
            &&& after.resources.object@ == before.resources.object@.push(
                Object {
                    id: before.next_object_id,
                    kind: Some(ObjectKind::DisplacementMesh(b.entity_spec()@)),
                    ..b.object_spec()
                },
            )
            &&& after.recommendedextensions == with_extension(
                before.recommendedextensions,
                ThreemfNamespace::CoreTriangleSet,
                b.entity_spec()@.trianglesets is Some,
            )
            &&& only_objects_changed(before, after)
        },
    }
}

/// Every component of `cs` references one of the objects 1 to `count`.
pub open spec fn components_in_range(cs: Seq<Component>, count: nat) -> bool {
    forall|k: int| 0 <= k < cs.len() ==> 1 <= (#[trigger] cs[k]).objectid <= count
}

/// A components object builder as the model builder hands it to a closure: the
/// settings of a new object with id `id`, no components, the ids of the objects of
/// `s`, and the production requirement of `s`.
pub open spec fn fresh_components_object_builder(b: ComponentsObjectBuilder, s: ModelBuilderState) -> bool {
    &&& b.object_spec() == fresh_object(s.next_object_id)
    &&& b.production_required() == s.is_production_ext_required
    &&& b.entity_spec().components_spec().len() == 0
    &&& b.entity_spec().existing_ids() == existing_ids_spec(s)
}

/// What adding a components object does once its closure returned `ran` and left the
/// builder as `b`: the closure's error, or the object's, or a component that references
/// no object added before leaves the state as it was; else the object that `b` builds
/// is added under the next object id.
pub open spec fn components_object_outcome(
    before: ModelBuilderState,
    after: ModelBuilderState,
    r: Result<ObjectId, ComponentsObjectError>,
    ran: Result<(), ComponentsObjectError>,
    b: ComponentsObjectBuilder,
) -> bool {
    let cs = b.entity_spec().components_spec();
    match ran {
        Err(e) => r == Err::<ObjectId, ComponentsObjectError>(e) && after == before,
        Ok(_) => match components_error(cs, b.entity_spec().existing_ids(), b.production_required()) {
            Some(e) => r == Err::<ObjectId, ComponentsObjectError>(e) && after == before,
            None => if b.production_required() && b.object_spec().uuid is None {
                r == Err::<ObjectId, ComponentsObjectError>(ComponentsObjectError::ObjectUuidNotSet) && after == before
            } else if !components_in_range(cs, before.resources.object@.len()) {
                r == Err::<ObjectId, ComponentsObjectError>(ComponentsObjectError::ObjectReferenceNotFoundForComponent)
                    && after == before
            } else {
                &&& r == Ok::<ObjectId, ComponentsObjectError>(ObjectId(before.next_object_id))
                &&& object_added(before, after, before.next_object_id)
                &&& after.resources.object@.last() == (Object {
                    id: before.next_object_id,
                    kind: after.resources.object@.last().kind,
                    ..b.object_spec()
                })
                &&& components_of(after.resources.object@.last()) matches Some(c)
                &&& c.component@ == cs
                &&& after.recommendedextensions == before.recommendedextensions
            },
        },
    }
}

/// A boolean shape object builder as the model builder hands it to a closure: the
/// settings of a new object with id `id`, a union without base object or operands, and
/// the production requirement `production`.
pub open spec fn fresh_boolean_object_builder(b: BooleanObjectBuilder, id: u32, production: bool) -> bool {
    &&& b.object_spec() == fresh_object(id)
    &&& b.production_required() == production
    &&& b.entity_spec()@.base_object_id is None
    &&& b.entity_spec()@.operation == BooleanOperation::Union
    &&& b.entity_spec()@.base_transform is None
    &&& b.entity_spec()@.base_path is None
    &&& b.entity_spec()@.booleans@.len() == 0
}

/// What adding a boolean shape object does once its closure returned `ran` and left the
/// builder as `b`: the closure's error, or the shape's, or the object's, leaves the
/// state as it was; else the object that `b` builds is added under the next object id.
pub open spec fn boolean_object_outcome(
    before: ModelBuilderState,
    after: ModelBuilderState,
    r: Result<ObjectId, BooleanShapeError>,
    ran: Result<(), BooleanShapeError>,
    b: BooleanObjectBuilder,
) -> bool {
    let sh = b.entity_spec()@;
    match ran {
        Err(e) => r == Err::<ObjectId, BooleanShapeError>(e) && after == before,
        Ok(_) => if sh.base_object_id is None {
            r == Err::<ObjectId, BooleanShapeError>(BooleanShapeError::BaseObjectNotSet) && after == before
        } else if sh.booleans@.len() == 0 {
            r == Err::<ObjectId, BooleanShapeError>(BooleanShapeError::NoBooleanOperands) && after == before
        } else if b.production_required() && b.object_spec().uuid is None {
            r == Err::<ObjectId, BooleanShapeError>(BooleanShapeError::ObjectUuidNotSet) && after == before
        } else {
            &&& r == Ok::<ObjectId, BooleanShapeError>(ObjectId(before.next_object_id))
            &&& after.resources.object@ == before.resources.object@.push(
                Object {
                    id: before.next_object_id,
                    kind: Some(
                        ObjectKind::BooleanShape(
                            BooleanShape {
                                objectid: sh.base_object_id.unwrap().0,
                                operation: sh.operation,
                                transform: sh.base_transform,
                                path: sh.base_path,
                                booleans: sh.booleans,
                            },
                        ),
                    ),
                    ..b.object_spec()
                },
            )
            &&& after.recommendedextensions == before.recommendedextensions
            &&& only_objects_changed(before, after)
        },
    }
}

impl Default for ModelBuilder {
    fn default() -> (r: Self)
        ensures
            builder_wf(r@),
            fresh_state(r@, Unit::Millimeter, true),
    {
        Self::new(Unit::Millimeter, true)
    }
}

impl ModelBuilder {
    /// A builder of a model in `unit`, the root model where `is_root`.
    pub fn new(unit: Unit, is_root: bool) -> (r: Self)
        ensures
            builder_wf(r@),
            fresh_state(r@, unit, is_root),
    {
        let r = ModelBuilder {
            unit: Some(unit),
            requiredextensions: Vec::new(),
            recommendedextensions: Vec::new(),
            metadata: Vec::new(),
            resources: ResourcesBuilder::new(),
            build: None,
            is_root,
            next_object_id: ObjectId(1),
            next_slicestack_id: SliceStackId(1),
            next_colorgroup_id: 1,
            next_texture2dgroup_id: 1,
            next_texture2d_id: 1,
            next_composite_materials_id: 1,
            next_multi_properties_id: 1,
            next_basematerials_id: 1,
            next_displacement2d_id: 1,
            next_normvectorgroup_id: 1,
            next_disp2dgroup_id: 1,
            is_production_ext_required: false,
        };
        proof {
            assert(object_ids(r.resources@.object@) =~= Seq::<u32>::empty());
        }
        r
    }

    /// Sets the unit of the model.
    pub fn unit(&mut self, unit: Unit) -> (r: &mut Self)
        requires
            builder_wf(old(self)@),
        ensures
            r@ == (ModelBuilderState { unit: Some(unit), ..old(self)@ }),
            builder_wf(r@),
            *final(self) == *final(r),
    {
        self.unit = Some(unit);
        self
    }

    /// Makes the model the root model, or a sub-model.
    pub fn make_root(&mut self, is_root: bool) -> (r: &mut Self)
        requires
            builder_wf(old(self)@),
        ensures
            r@ == (ModelBuilderState { is_root, ..old(self)@ }),
            builder_wf(r@),
            *final(self) == *final(r),
    {
        self.is_root = is_root;
        self
    }

    /// The build error of requiring the production extension, if any.
    fn check_build_for_production(&self) -> (r: Option<ProductionExtensionError>)
        ensures
            r == build_production_error(self@.build),
    {
        match &self.build {
            Some(b) => {
                if b.build.uuid.is_some() {
                    if !all_items_have_uuid(&b.build.item) {
                        return Some(ProductionExtensionError::ItemUuidNotSet);
                    }
                    None
                } else {
                    Some(ProductionExtensionError::BuildUuidNotSet)
                }
            },
            None => None,
        }
    }

    /// The production extension error of the object, if any.
    fn check_object_for_production(o: &Object) -> (r: Option<ProductionExtensionError>)
        ensures
            r == object_production_error(*o),
    {
        if o.uuid.is_none() {
            return Some(ProductionExtensionError::ObjectUuidNotSet);
        }
        match o.get_components_object() {
            Some(c) => {
                assert(components_of(*o) == Some(*c));
                if !all_components_have_uuid(&c.component) {
                    assert(components_of(*o) matches Some(cc) && exists|k: int| 0 <= k < cc.component@.len() && (#[trigger] cc.component@[k]).uuid is None);
                    return Some(ProductionExtensionError::ComponentUuidNotSet);
                }
                None
            },
            None => None,
        }
    }

    /// Requires the production extension, after checking that the objects, their
    /// components, the build and its items added so far all have UUIDs.
    pub fn make_production_extension_required(&mut self) -> (r: Result<(), ProductionExtensionError>)
        requires
            builder_wf(old(self)@),
        ensures
            builder_wf(final(self)@),
            match production_error(old(self)@.resources.object@, old(self)@.build) {
                Some(e) => r == Err::<(), ProductionExtensionError>(e) && final(self)@ == old(self)@,
                None => r is Ok && final(self)@ == (ModelBuilderState { is_production_ext_required: true, ..old(self)@ }),
            },
    {
        let n = self.resources.resources.object.len();
        let ghost objs = self.resources.resources.object@;
        for i in 0..n
            invariant
                n == objs.len(),
                objs == self.resources.resources.object@,
                self@ == old(self)@,
                builder_wf(self@),
                forall|j: int| 0 <= j < i ==> object_production_error(#[trigger] objs[j]) is None,
                i > 0 ==> build_production_error(self@.build) is None,
        {
            match Self::check_object_for_production(&self.resources.resources.object[i]) {
                Some(e) => {
                    proof {
                        if i > 0 {
                            let t = objs.drop_first();
                            assert forall|j: int| 0 <= j < i - 1 implies object_production_error(#[trigger] t[j]) is None by {
                                assert(t[j] == objs[j + 1]);
                            }
                            lemma_first_object_error(t, i - 1);
                            assert(t[i - 1] == objs[i as int]);
                        }
                    }
                    return Err(e);
                },
                None => {},
            }
            match self.check_build_for_production() {
                Some(e) => {
                    return Err(e);
                },
                None => {},
            }
        }
        proof {
            if n > 0 {
                let t = objs.drop_first();
                assert forall|j: int| 0 <= j < n - 1 implies object_production_error(#[trigger] t[j]) is None by {
                    assert(t[j] == objs[j + 1]);
                }
                lemma_first_object_error(t, n - 1);
            }
        }
        match self.check_build_for_production() {
            Some(e) => {
                return Err(e);
            },
            None => {},
        }
        self.is_production_ext_required = true;
        Ok(())
    }

    /// Declares an extension as required; the core specification is never declared.
    pub fn add_required_extension(&mut self, extension: ThreemfNamespace) -> (r: &mut Self)
        requires
            builder_wf(old(self)@),
        ensures
            r@ == (ModelBuilderState {
                requiredextensions: if extension == ThreemfNamespace::Core {
                    old(self)@.requiredextensions
                } else {
                    old(self)@.requiredextensions.push(extension)
                },
                ..old(self)@
            }),
            builder_wf(r@),
            *final(self) == *final(r),
    {
        match extension {
            ThreemfNamespace::Core => {},
            _ => {
                self.requiredextensions.push(extension);
            },
        }
        self
    }

    /// Declares an extension as recommended; the core specification is never declared.
    pub fn add_recommended_extension(&mut self, extension: ThreemfNamespace) -> (r: &mut Self)
        requires
            builder_wf(old(self)@),
        ensures
            r@ == (ModelBuilderState {
                recommendedextensions: if extension == ThreemfNamespace::Core {
                    old(self)@.recommendedextensions
                } else {
                    old(self)@.recommendedextensions.push(extension)
                },
                ..old(self)@
            }),
            builder_wf(r@),
            *final(self) == *final(r),
    {
        match extension {
            ThreemfNamespace::Core => {},
            _ => {
                self.recommendedextensions.push(extension);
            },
        }
        self
    }

    /// Adds a metadata entry with the given name and value.
    pub fn add_metadata(&mut self, name: &str, value: Option<&str>) -> (r: &mut Self)
        requires
            builder_wf(old(self)@),
        ensures
            r@ == (ModelBuilderState { metadata: r@.metadata, ..old(self)@ }),
            r@.metadata.len() == old(self)@.metadata.len() + 1,
            r@.metadata.take(old(self)@.metadata.len() as int) == old(self)@.metadata,
            r@.metadata.last().name@ == name@,
            r@.metadata.last().preserve is None,
            opt_chars(r@.metadata.last().value) == opt_str_chars(value),
            builder_wf(r@),
            *final(self) == *final(r),
    {
        let v = match value {
            Some(s) => Some(s.to_owned()),
            None => None,
        };
        let ghost before = self.metadata@;
        self.metadata.push(Metadata { name: name.to_owned(), preserve: None, value: v });
        proof {
            assert(self.metadata@.take(before.len() as int) =~= before);
        }
        self
    }

    /// Adds the triangle set extension to the recommended ones, where the model has
    /// triangle sets and it is not there yet.
    fn set_recommended_namespaces_for_triangle_sets(&mut self, has_triangle_sets: bool)
        requires
            builder_wf(old(self)@),
        ensures
            final(self)@ == (ModelBuilderState {
                recommendedextensions: with_extension(
                    old(self)@.recommendedextensions,
                    ThreemfNamespace::CoreTriangleSet,
                    has_triangle_sets,
                ),
                ..old(self)@
            }),
            builder_wf(final(self)@),
    {
        if has_triangle_sets {
            let n = self.recommendedextensions.len();
            let mut found = false;
            for i in 0..n
                invariant
                    n == self.recommendedextensions@.len(),
                    found == exists|j: int| 0 <= j < i && self.recommendedextensions@[j] == ThreemfNamespace::CoreTriangleSet,
            {
                if self.recommendedextensions[i].is(&ThreemfNamespace::CoreTriangleSet) {
                    found = true;
                }
            }
            if !found {
                self.recommendedextensions.push(ThreemfNamespace::CoreTriangleSet);
            }
        }
    }

    /// Appends an object with the next id; its components, if any, reference objects
    /// added before it.
    fn push_object(&mut self, object: Object)
        requires
            builder_wf(old(self)@),
            object.id == old(self)@.next_object_id,
            old(self)@.next_object_id < u32::MAX,
            components_of(object) matches Some(c) ==> forall|k: int| 0 <= k < c.component@.len() ==> {
                let x = #[trigger] c.component@[k];
                1 <= x.objectid <= old(self)@.resources.object@.len()
            },
        ensures
            builder_wf(final(self)@),
            final(self)@.resources.object@ == old(self)@.resources.object@.push(object),
            final(self)@ == (ModelBuilderState {
                resources: Resources { object: final(self)@.resources.object, ..old(self)@.resources },
                next_object_id: (old(self)@.next_object_id + 1) as u32,
                ..old(self)@
            }),
    {
        let ghost before = self.resources.resources.object@;
        let id = object.id;
        self.resources.resources.object.push(object);
        self.next_object_id = ObjectId(id + 1);
        proof {
            let after = self.resources.resources.object@;
            assert(object_ids(after) =~= object_ids(before).push(id));
            assert forall|i: int, k: int|
                0 <= i < after.len() && components_of(#[trigger] after[i]) is Some && 0 <= k < components_of(after[i])->0.component@.len()
                implies {
                    let c = #[trigger] components_of(after[i])->0.component@[k];
                    1 <= c.objectid <= i
                } by {
                if i < before.len() {
                    assert(after[i] == before[i]);
                }
            }
        }
    }
}

/// The ids of the objects of the builder, as handed to a components builder.
pub open spec fn existing_ids_spec(s: ModelBuilderState) -> Seq<ObjectId> {
    s.resources.object@.map_values(|o: Object| ObjectId(o.id))
}

/// Under the numbering of the builder, an id listed among the objects is one of
/// 1 to the number of objects.
proof fn lemma_listed_in_range(s: ModelBuilderState, x: u32)
    requires
        builder_wf(s),
        id_listed(existing_ids_spec(s), x),
    ensures
        1 <= x <= s.resources.object@.len(),
{
    let ids = existing_ids_spec(s);
    let j = choose|j: int| 0 <= j < ids.len() && (#[trigger] ids[j]).0 == x;
    assert(object_ids(s.resources.object@)[j] == j + 1);
}

impl ModelBuilder {
    /// The ids of the objects added so far.
    fn existing_object_ids(&self) -> (r: Vec<ObjectId>)
        ensures
            r@ == existing_ids_spec(self@),
    {
        let n = self.resources.resources.object.len();
        let mut r: Vec<ObjectId> = Vec::new();
        for i in 0..n
            invariant
                n == self.resources.resources.object@.len(),
                r@ =~= self.resources.resources.object@.take(i as int).map_values(|o: Object| ObjectId(o.id)),
        {
            r.push(ObjectId(self.resources.resources.object[i].id));
            proof {
                assert(self.resources.resources.object@.take(i + 1) =~= self.resources.resources.object@.take(i as int).push(self.resources.resources.object@[i as int]));
            }
        }
        proof {
            assert(self.resources.resources.object@.take(n as int) =~= self.resources.resources.object@);
        }
        r
    }

    /// Adds a mesh object configured by `f`, with the next object id, which is
    /// returned. The triangle set extension becomes recommended where the mesh has
    /// triangle sets.
    pub fn add_mesh_object<F>(&mut self, f: F) -> (r: Result<ObjectId, MeshObjectError>)
        where
            F: FnOnce(&mut MeshObjectBuilder) -> Result<(), MeshObjectError>,
        requires
            builder_wf(old(self)@),
            old(self)@.next_object_id < u32::MAX,
            forall|b: &mut MeshObjectBuilder| call_requires(f, (b,)),
        ensures
            builder_wf(final(self)@),
            match r {
                Ok(id) => {
                    &&& object_added(old(self)@, final(self)@, id.0)
                    &&& mesh_of(final(self)@.resources.object@.last()) is Some
                    &&& final(self)@.recommendedextensions == with_extension(
                        old(self)@.recommendedextensions,
                        ThreemfNamespace::CoreTriangleSet,
                        mesh_of(final(self)@.resources.object@.last())->0.trianglesets is Some,
                    )
                },
                Err(_) => final(self)@ == old(self)@,
            },
            exists|b: &mut MeshObjectBuilder, ran: Result<(), MeshObjectError>| {
                &&& call_ensures(f, (b,), ran)
                &&& fresh_mesh_object_builder(*b, old(self)@.next_object_id, old(self)@.is_production_ext_required)
                &&& mesh_object_outcome(old(self)@, final(self)@, r, ran, mut_ref_future(b))
            },
    {
        let id = self.next_object_id;
        let mut builder = MeshObjectBuilder::new(id, self.is_production_ext_required);
        let ghost fresh = builder;
        let ran = f(&mut builder);
        let ghost built = builder;
        assert(exists|w: &mut MeshObjectBuilder| call_ensures(f, (w,), ran) && *w == fresh && mut_ref_future(w) == built);
        match ran {
            Ok(u) => {
                assert(u == ());
            },
            Err(e) => {
                assert(mesh_object_outcome(self@, self@, Err(e), ran, built));
                return Err(e);
            },
        }
        let mut object = match builder.build() {
            Ok(o) => o,
            Err(e) => {
                assert(mesh_object_outcome(self@, self@, Err(e), ran, built));
                return Err(e);
            },
        };
        object.id = id.0;
        let has_sets = match object.get_mesh() {
            Some(m) => m.trianglesets.is_some(),
            None => false,
        };
        self.set_recommended_namespaces_for_triangle_sets(has_sets);
        let ghost mid = self@;
        self.push_object(object);
        proof {
            assert(final(self)@.resources.object@.take(old(self)@.resources.object@.len() as int) =~= old(self)@.resources.object@);
            assert(mesh_object_outcome(old(self)@, self@, Ok(id), ran, built));
        }
        Ok(id)
    }

    /// Adds the mesh object that `builder` builds; the builder carries the next object
    /// id.
    pub fn add_mesh_object_from_builder(&mut self, builder: MeshObjectBuilder) -> (r: Result<ObjectId, MeshObjectError>)
        requires
            builder_wf(old(self)@),
            old(self)@.next_object_id < u32::MAX,
            builder.object_spec().id == old(self)@.next_object_id,
        ensures
            builder_wf(final(self)@),
            builder.production_required() && builder.object_spec().uuid is None ==> {
                &&& r == Err::<ObjectId, MeshObjectError>(MeshObjectError::ObjectUuidNotSet)
                &&& final(self)@ == old(self)@
            },
            !(builder.production_required() && builder.object_spec().uuid is None) ==> {
                &&& r == Ok::<ObjectId, MeshObjectError>(ObjectId(old(self)@.next_object_id))
                &&& final(self)@.resources.object@ == old(self)@.resources.object@.push(
                    Object { kind: Some(ObjectKind::Mesh(builder.entity_spec()@)), ..builder.object_spec() },
                )
                &&& final(self)@.recommendedextensions == with_extension(
                    old(self)@.recommendedextensions,
                    ThreemfNamespace::CoreTriangleSet,
                    builder.entity_spec()@.trianglesets is Some,
                )
                &&& only_objects_changed(old(self)@, final(self)@)
            },
    {
        let id = self.next_object_id;
        let object = match builder.build() {
            Ok(o) => o,
            Err(e) => return Err(e),
        };
        let has_sets = match object.get_mesh() {
            Some(m) => m.trianglesets.is_some(),
            None => false,
        };
        self.set_recommended_namespaces_for_triangle_sets(has_sets);
        self.push_object(object);
        Ok(id)
    }

    /// Adds a displacement mesh object configured by `f`, with the next object id,
    /// which is returned. The triangle set extension becomes recommended where the mesh
    /// has triangle sets.
    pub fn add_displacement_mesh_object<F>(&mut self, f: F) -> (r: Result<ObjectId, DisplacementMeshObjectError>)
        where
            F: FnOnce(&mut DisplacementMeshObjectBuilder) -> Result<(), DisplacementMeshObjectError>,
        requires
            builder_wf(old(self)@),
            old(self)@.next_object_id < u32::MAX,
            forall|b: &mut DisplacementMeshObjectBuilder| call_requires(f, (b,)),
        ensures
            builder_wf(final(self)@),
            match r {
                Ok(id) => {
                    &&& object_added(old(self)@, final(self)@, id.0)
                    &&& displacement_mesh_of(final(self)@.resources.object@.last()) is Some
                    &&& final(self)@.recommendedextensions == with_extension(
                        old(self)@.recommendedextensions,
                        ThreemfNamespace::CoreTriangleSet,
                        displacement_mesh_of(final(self)@.resources.object@.last())->0.trianglesets is Some,
                    )
                },
                Err(_) => final(self)@ == old(self)@,
            },
            exists|b: &mut DisplacementMeshObjectBuilder, ran: Result<(), DisplacementMeshObjectError>| {
                &&& call_ensures(f, (b,), ran)
                &&& fresh_displacement_mesh_object_builder(*b, old(self)@.next_object_id, old(self)@.is_production_ext_required)
                &&& displacement_mesh_object_outcome(old(self)@, final(self)@, r, ran, mut_ref_future(b))
            },
    {
        let id = self.next_object_id;
        let mut builder = DisplacementMeshObjectBuilder::new(id, self.is_production_ext_required);
        let ghost fresh = builder;
        let ran = f(&mut builder);
        let ghost built = builder;
        assert(exists|w: &mut DisplacementMeshObjectBuilder| call_ensures(f, (w,), ran) && *w == fresh && mut_ref_future(w) == built);
        let ghost w = choose|w: &mut DisplacementMeshObjectBuilder| call_ensures(f, (w,), ran) && *w == fresh && mut_ref_future(w) == built;
        match ran {
            Ok(u) => {
                assert(u == ());
            },
            Err(e) => {
                assert(displacement_mesh_object_outcome(self@, self@, Err(e), ran, mut_ref_future(w)));
                return Err(e);
            },
        }
        let mut object = match builder.build() {
            Ok(o) => o,
            Err(e) => {
                assert(displacement_mesh_object_outcome(self@, self@, Err(e), ran, mut_ref_future(w)));
                return Err(e);
            },
        };
        object.id = id.0;
        let has_sets = match object.get_displacement_mesh() {
            Some(m) => m.trianglesets.is_some(),
            None => false,
        };
        self.set_recommended_namespaces_for_triangle_sets(has_sets);
        self.push_object(object);
        proof {
            assert(final(self)@.resources.object@.take(old(self)@.resources.object@.len() as int) =~= old(self)@.resources.object@);
            assert(displacement_mesh_object_outcome(old(self)@, self@, Ok(id), ran, mut_ref_future(w)));
        }
        Ok(id)
    }

    /// Adds the displacement mesh object that `builder` builds; the builder carries the
    /// next object id.
    pub fn add_displacement_mesh_object_from_builder(&mut self, builder: DisplacementMeshObjectBuilder) -> (r: Result<ObjectId, DisplacementMeshObjectError>)
        requires
            builder_wf(old(self)@),
            old(self)@.next_object_id < u32::MAX,
            builder.object_spec().id == old(self)@.next_object_id,
        ensures
            builder_wf(final(self)@),
            builder.production_required() && builder.object_spec().uuid is None ==> {
                &&& r == Err::<ObjectId, DisplacementMeshObjectError>(DisplacementMeshObjectError::ObjectUuidNotSet)
                &&& final(self)@ == old(self)@
            },
            !(builder.production_required() && builder.object_spec().uuid is None) ==> {
                &&& r == Ok::<ObjectId, DisplacementMeshObjectError>(ObjectId(old(self)@.next_object_id))
                &&& final(self)@.resources.object@ == old(self)@.resources.object@.push(
                    Object { kind: Some(ObjectKind::DisplacementMesh(builder.entity_spec()@)), ..builder.object_spec() },
                )
                &&& final(self)@.recommendedextensions == with_extension(
                    old(self)@.recommendedextensions,
                    ThreemfNamespace::CoreTriangleSet,
                    builder.entity_spec()@.trianglesets is Some,
                )
                &&& only_objects_changed(old(self)@, final(self)@)
            },
    {
        let id = self.next_object_id;
        let object = match builder.build() {
            Ok(o) => o,
            Err(e) => return Err(e),
        };
        let has_sets = match object.get_displacement_mesh() {
            Some(m) => m.trianglesets.is_some(),
            None => false,
        };
        self.set_recommended_namespaces_for_triangle_sets(has_sets);
        self.push_object(object);
        Ok(id)
    }

    /// Adds a components object configured by `f`, with the next object id, which is
    /// returned. Its components may only reference objects added before it.
    pub fn add_components_object<F>(&mut self, f: F) -> (r: Result<ObjectId, ComponentsObjectError>)
        where
            F: FnOnce(&mut ComponentsObjectBuilder) -> Result<(), ComponentsObjectError>,
        requires
            builder_wf(old(self)@),
            old(self)@.next_object_id < u32::MAX,
            forall|b: &mut ComponentsObjectBuilder| call_requires(f, (b,)),
        ensures
            builder_wf(final(self)@),
            match r {
                Ok(id) => {
                    &&& object_added(old(self)@, final(self)@, id.0)
                    &&& components_of(final(self)@.resources.object@.last()) is Some
                    &&& final(self)@.recommendedextensions == old(self)@.recommendedextensions
                },
                Err(_) => final(self)@ == old(self)@,
            },
            exists|b: &mut ComponentsObjectBuilder, ran: Result<(), ComponentsObjectError>| {
                &&& call_ensures(f, (b,), ran)
                &&& fresh_components_object_builder(*b, old(self)@)
                &&& components_object_outcome(old(self)@, final(self)@, r, ran, mut_ref_future(b))
            },
    {
        let id = self.next_object_id;
        let existing = self.existing_object_ids();
        let mut builder = ComponentsObjectBuilder::new(id, existing, self.is_production_ext_required);
        let ghost fresh = builder;
        let ran = f(&mut builder);
        let ghost built = builder;
        assert(exists|w: &mut ComponentsObjectBuilder| call_ensures(f, (w,), ran) && *w == fresh && mut_ref_future(w) == built);
        let ghost w = choose|w: &mut ComponentsObjectBuilder| call_ensures(f, (w,), ran) && *w == fresh && mut_ref_future(w) == built;
        match ran {
            Ok(u) => {
                assert(u == ());
            },
            Err(e) => {
                assert(components_object_outcome(self@, self@, Err(e), ran, mut_ref_future(w)));
                return Err(e);
            },
        }
        let mut object = match builder.build() {
            Ok(o) => o,
            Err(e) => {
                assert(components_object_outcome(self@, self@, Err(e), ran, mut_ref_future(w)));
                return Err(e);
            },
        };
        object.id = id.0;
        if !components_within(&object, self.resources.resources.object.len()) {
            assert(components_object_outcome(
                self@,
                self@,
                Err(ComponentsObjectError::ObjectReferenceNotFoundForComponent),
                ran,
                mut_ref_future(w),
            ));
            return Err(ComponentsObjectError::ObjectReferenceNotFoundForComponent);
        }
        self.push_object(object);
        proof {
            assert(final(self)@.resources.object@.take(old(self)@.resources.object@.len() as int) =~= old(self)@.resources.object@);
            assert(components_object_outcome(old(self)@, self@, Ok(id), ran, mut_ref_future(w)));
        }
        Ok(id)
    }

    /// Adds the components object that `builder` builds; the builder carries the next
    /// object id and the ids of the objects added so far.
    pub fn add_composed_part_object_from_builder(&mut self, builder: ComponentsObjectBuilder) -> (r: Result<ObjectId, ComponentsObjectError>)
        requires
            builder_wf(old(self)@),
            old(self)@.next_object_id < u32::MAX,
            builder.object_spec().id == old(self)@.next_object_id,
            builder.entity_spec().existing_ids() == existing_ids_spec(old(self)@),
        ensures
            builder_wf(final(self)@),
            match components_error(builder.entity_spec().components_spec(), builder.entity_spec().existing_ids(), builder.production_required()) {
                Some(e) => r == Err::<ObjectId, ComponentsObjectError>(e) && final(self)@ == old(self)@,
                None => if builder.production_required() && builder.object_spec().uuid is None {
                    r == Err::<ObjectId, ComponentsObjectError>(ComponentsObjectError::ObjectUuidNotSet) && final(self)@ == old(self)@
                } else {
                    &&& r == Ok::<ObjectId, ComponentsObjectError>(ObjectId(old(self)@.next_object_id))
                    &&& object_added(old(self)@, final(self)@, old(self)@.next_object_id)
                    &&& final(self)@.resources.object@.last() == (Object {
                        kind: final(self)@.resources.object@.last().kind,
                        ..builder.object_spec()
                    })
                    &&& components_of(final(self)@.resources.object@.last()) matches Some(c)
                    &&& c.component@ == builder.entity_spec().components_spec()
                    &&& final(self)@.recommendedextensions == old(self)@.recommendedextensions
                },
            },
    {
        let id = self.next_object_id;
        let ghost cs = builder.entity_spec().components_spec();
        let object = match builder.build() {
            Ok(o) => o,
            Err(e) => return Err(e),
        };
        proof {
            assert forall|k: int| 0 <= k < cs.len() implies {
                let x = #[trigger] cs[k];
                1 <= x.objectid <= old(self)@.resources.object@.len()
            } by {
                lemma_listed_in_range(old(self)@, cs[k].objectid);
            }
        }
        self.push_object(object);
        proof {
            assert(final(self)@.resources.object@.take(old(self)@.resources.object@.len() as int) =~= old(self)@.resources.object@);
        }
        Ok(id)
    }

    /// Adds a boolean shape object configured by `f`, with the next object id, which is
    /// returned.
    pub fn add_booleanshape_object<F>(&mut self, f: F) -> (r: Result<ObjectId, BooleanShapeError>)
        where
            F: FnOnce(&mut BooleanObjectBuilder) -> Result<(), BooleanShapeError>,
        requires
            builder_wf(old(self)@),
            old(self)@.next_object_id < u32::MAX,
            forall|b: &mut BooleanObjectBuilder| call_requires(f, (b,)),
        ensures
            builder_wf(final(self)@),
            match r {
                Ok(id) => {
                    &&& object_added(old(self)@, final(self)@, id.0)
                    &&& crate::domain::object::boolean_shape_of(final(self)@.resources.object@.last()) is Some
                    &&& final(self)@.recommendedextensions == old(self)@.recommendedextensions
                },
                Err(_) => final(self)@ == old(self)@,
            },
            exists|b: &mut BooleanObjectBuilder, ran: Result<(), BooleanShapeError>| {
                &&& call_ensures(f, (b,), ran)
                &&& fresh_boolean_object_builder(*b, old(self)@.next_object_id, old(self)@.is_production_ext_required)
                &&& boolean_object_outcome(old(self)@, final(self)@, r, ran, mut_ref_future(b))
            },
    {
        let id = self.next_object_id;
        let mut builder = BooleanObjectBuilder::new(id, self.is_production_ext_required);
        let ghost fresh = builder;
        let ran = f(&mut builder);
        let ghost built = builder;
        assert(exists|w: &mut BooleanObjectBuilder| call_ensures(f, (w,), ran) && *w == fresh && mut_ref_future(w) == built);
        let ghost w = choose|w: &mut BooleanObjectBuilder| call_ensures(f, (w,), ran) && *w == fresh && mut_ref_future(w) == built;
        match ran {
            Ok(u) => {
                assert(u == ());
            },
            Err(e) => {
                assert(boolean_object_outcome(self@, self@, Err(e), ran, mut_ref_future(w)));
                return Err(e);
            },
        }
        let mut object = match builder.build() {
            Ok(o) => o,
            Err(e) => {
                assert(boolean_object_outcome(self@, self@, Err(e), ran, mut_ref_future(w)));
                return Err(e);
            },
        };
        object.id = id.0;
        self.push_object(object);
        proof {
            assert(final(self)@.resources.object@.take(old(self)@.resources.object@.len() as int) =~= old(self)@.resources.object@);
            assert(boolean_object_outcome(old(self)@, self@, Ok(id), ran, mut_ref_future(w)));
        }
        Ok(id)
    }

    /// Adds the boolean shape object that `builder` builds; the builder carries the
    /// next object id.
    pub fn add_booleanshape_object_from_builder(&mut self, builder: BooleanObjectBuilder) -> (r: Result<ObjectId, BooleanShapeError>)
        requires
            builder_wf(old(self)@),
            old(self)@.next_object_id < u32::MAX,
            builder.object_spec().id == old(self)@.next_object_id,
        ensures
            builder_wf(final(self)@),
            builder.entity_spec()@.base_object_id is None ==> r == Err::<ObjectId, BooleanShapeError>(
                BooleanShapeError::BaseObjectNotSet,
            ) && final(self)@ == old(self)@,
            builder.entity_spec()@.base_object_id is Some && builder.entity_spec()@.booleans@.len() == 0 ==> r
                == Err::<ObjectId, BooleanShapeError>(BooleanShapeError::NoBooleanOperands) && final(self)@ == old(self)@,
            builder.entity_spec()@.base_object_id is Some && builder.entity_spec()@.booleans@.len() > 0 ==> {
                if builder.production_required() && builder.object_spec().uuid is None {
                    r == Err::<ObjectId, BooleanShapeError>(BooleanShapeError::ObjectUuidNotSet) && final(self)@ == old(self)@
                } else {
                    &&& r == Ok::<ObjectId, BooleanShapeError>(ObjectId(old(self)@.next_object_id))
                    &&& object_added(old(self)@, final(self)@, old(self)@.next_object_id)
                    &&& final(self)@.recommendedextensions == old(self)@.recommendedextensions
                }
            },
    {
        let id = self.next_object_id;
        let object = match builder.build() {
            Ok(o) => o,
            Err(e) => return Err(e),
        };
        self.push_object(object);
        proof {
            assert(final(self)@.resources.object@.take(old(self)@.resources.object@.len() as int) =~= old(self)@.resources.object@);
        }
        Ok(id)
    }
}

/// Numbering one more resource keeps the numbering.
proof fn lemma_numbered_push<T>(s: Seq<T>, f: spec_fn(T) -> u32, x: T, next: u32)
    requires
        numbered(s.map_values(f), next),
        f(x) == next,
        next < u32::MAX,
    ensures
        numbered(s.push(x).map_values(f), (next + 1) as u32),
{
    assert(s.push(x).map_values(f) =~= s.map_values(f).push(f(x)));
}

/// `after` is `before` with one more resource of one kind, added at the end with the
/// next id of that kind.
pub open spec fn resource_added<T>(before: Seq<T>, after: Seq<T>, id_of: spec_fn(T) -> u32, id: u32) -> bool {
    &&& after.len() == before.len() + 1
    &&& after.take(before.len() as int) == before
    &&& id_of(after.last()) == id
}

impl ModelBuilder {

    /// Adds a color group configured by `f`, with the next id of its kind, which is returned.
    pub fn add_color_group<F>(&mut self, f: F) -> (r: ResourceId)
        where
            F: FnOnce(&mut ColorGroupBuilder),
        requires
            builder_wf(old(self)@),
            old(self)@.next_colorgroup_id < u32::MAX,
            forall|b: &mut ColorGroupBuilder| call_requires(f, (b,)),
        ensures
            builder_wf(final(self)@),
            r == old(self)@.next_colorgroup_id,
            resource_added(old(self)@.resources.colorgroup@, final(self)@.resources.colorgroup@, |x: crate::domain::material::ColorGroup| x.id, r),
            final(self)@ == (ModelBuilderState {
                resources: Resources { colorgroup: final(self)@.resources.colorgroup, ..old(self)@.resources },
                next_colorgroup_id: (r + 1) as u32,
                ..old(self)@
            }),
            exists|b: &mut ColorGroupBuilder| {
                &&& call_ensures(f, (b,), ())
                &&& (*b)@.id == old(self)@.next_colorgroup_id
                &&& (*b)@.color@.len() == 0
                &&& final(self)@.resources.colorgroup@.last() == (ColorGroup { id: r, ..mut_ref_future(b)@ })
            },
    {
        let id = self.next_colorgroup_id;
        let mut builder = ColorGroupBuilder::new(id);
        let ghost fresh = builder;
        f(&mut builder);
        let ghost made = builder;
        assert(exists|w: &mut ColorGroupBuilder| call_ensures(f, (w,), ()) && *w == fresh && mut_ref_future(w) == made);
        let mut value = builder.build();
        value.id = id;
        let ghost before = self.resources.resources.colorgroup@;
        proof {
            lemma_numbered_push(before, |x: crate::domain::material::ColorGroup| x.id, value, id);
        }
        self.resources.resources.colorgroup.push(value);
        self.next_colorgroup_id = id + 1;
        proof {
            assert(self.resources.resources.colorgroup@.take(before.len() as int) =~= before);
        }
        id
    }

    /// Adds a 2D texture configured by `f`, with the next id of its kind, which is returned.
    pub fn add_texture2d<F>(&mut self, f: F) -> (r: Result<ResourceId, Texture2DError>)
        where
            F: FnOnce(&mut Texture2DBuilder),
        requires
            builder_wf(old(self)@),
            old(self)@.next_texture2d_id < u32::MAX,
            forall|b: &mut Texture2DBuilder| call_requires(f, (b,)),
        ensures
            builder_wf(final(self)@),
            match r {
                Ok(id) => {
                    &&& id == old(self)@.next_texture2d_id
                    &&& resource_added(old(self)@.resources.texture2d@, final(self)@.resources.texture2d@, |x: crate::domain::material::Texture2D| x.id, id)
                    &&& final(self)@ == (ModelBuilderState {
                        resources: Resources { texture2d: final(self)@.resources.texture2d, ..old(self)@.resources },
                        next_texture2d_id: (id + 1) as u32,
                        ..old(self)@
                    })
                },
                Err(_) => final(self)@ == old(self)@,
            },
            exists|b: &mut Texture2DBuilder| {
                &&& call_ensures(f, (b,), ())
                &&& (*b)@ == (Texture2DFields { id: old(self)@.next_texture2d_id, path: None, contenttype: None, tilestyleu: None, tilestylev: None, filter: None })
                &&& match texture2d_built(mut_ref_future(b)@) {
                    Ok(v) => r is Ok && final(self)@.resources.texture2d@.last() == (Texture2D { id: old(self)@.next_texture2d_id, ..v }),
                    Err(e) => r == Err::<ResourceId, Texture2DError>(e),
                }
            },
    {
        let id = self.next_texture2d_id;
        let mut builder = Texture2DBuilder::new(id);
        let ghost fresh = builder;
        f(&mut builder);
        let ghost built = builder;
        assert(exists|w: &mut Texture2DBuilder| call_ensures(f, (w,), ()) && *w == fresh && mut_ref_future(w) == built);
        let ghost w = choose|w: &mut Texture2DBuilder| call_ensures(f, (w,), ()) && *w == fresh && mut_ref_future(w) == built;
        let mut value = match builder.build() {
            Ok(v) => v,
            Err(e) => {
                assert(texture2d_built(mut_ref_future(w)@) == Err::<Texture2D, Texture2DError>(e));
                return Err(e);
            },
        };
        let ghost made = value;
        value.id = id;
        let ghost before = self.resources.resources.texture2d@;
        proof {
            lemma_numbered_push(before, |x: crate::domain::material::Texture2D| x.id, value, id);
        }
        self.resources.resources.texture2d.push(value);
        self.next_texture2d_id = id + 1;
        proof {
            assert(self.resources.resources.texture2d@.take(before.len() as int) =~= before);
            assert(texture2d_built(mut_ref_future(w)@) == Ok::<Texture2D, Texture2DError>(made));
        }
        Ok(id)
    }

    /// Adds a texture coordinate group configured by `f`, with the next id of its kind, which is returned.
    pub fn add_texture2d_group<F>(&mut self, f: F) -> (r: Result<ResourceId, Texture2DGroupError>)
        where
            F: FnOnce(&mut Texture2DGroupBuilder),
        requires
            builder_wf(old(self)@),
            old(self)@.next_texture2dgroup_id < u32::MAX,
            forall|b: &mut Texture2DGroupBuilder| call_requires(f, (b,)),
        ensures
            builder_wf(final(self)@),
            match r {
                Ok(id) => {
                    &&& id == old(self)@.next_texture2dgroup_id
                    &&& resource_added(old(self)@.resources.texture2dgroup@, final(self)@.resources.texture2dgroup@, |x: crate::domain::material::Texture2DGroup| x.id, id)
                    &&& final(self)@ == (ModelBuilderState {
                        resources: Resources { texture2dgroup: final(self)@.resources.texture2dgroup, ..old(self)@.resources },
                        next_texture2dgroup_id: (id + 1) as u32,
                        ..old(self)@
                    })
                },
                Err(_) => final(self)@ == old(self)@,
            },
            exists|b: &mut Texture2DGroupBuilder| {
                &&& call_ensures(f, (b,), ())
                &&& (*b)@.id == old(self)@.next_texture2dgroup_id && (*b)@.texid is None && (*b)@.tex2coord@.len() == 0
                &&& match texture2d_group_built(mut_ref_future(b)@) {
                    Ok(v) => r is Ok && final(self)@.resources.texture2dgroup@.last() == (Texture2DGroup { id: old(self)@.next_texture2dgroup_id, ..v }),
                    Err(e) => r == Err::<ResourceId, Texture2DGroupError>(e),
                }
            },
    {
        let id = self.next_texture2dgroup_id;
        let mut builder = Texture2DGroupBuilder::new(id);
        let ghost fresh = builder;
        f(&mut builder);
        let ghost built = builder;
        assert(exists|w: &mut Texture2DGroupBuilder| call_ensures(f, (w,), ()) && *w == fresh && mut_ref_future(w) == built);
        let ghost w = choose|w: &mut Texture2DGroupBuilder| call_ensures(f, (w,), ()) && *w == fresh && mut_ref_future(w) == built;
        let mut value = match builder.build() {
            Ok(v) => v,
            Err(e) => {
                assert(texture2d_group_built(mut_ref_future(w)@) == Err::<Texture2DGroup, Texture2DGroupError>(e));
                return Err(e);
            },
        };
        let ghost made = value;
        value.id = id;
        let ghost before = self.resources.resources.texture2dgroup@;
        proof {
            lemma_numbered_push(before, |x: crate::domain::material::Texture2DGroup| x.id, value, id);
        }
        self.resources.resources.texture2dgroup.push(value);
        self.next_texture2dgroup_id = id + 1;
        proof {
            assert(self.resources.resources.texture2dgroup@.take(before.len() as int) =~= before);
            assert(texture2d_group_built(mut_ref_future(w)@) == Ok::<Texture2DGroup, Texture2DGroupError>(made));
        }
        Ok(id)
    }

    /// Adds composite materials configured by `f`, with the next id of its kind, which is returned.
    pub fn add_composite_materials<F>(&mut self, f: F) -> (r: Result<ResourceId, CompositeMaterialsError>)
        where
            F: FnOnce(&mut CompositeMaterialsBuilder),
        requires
            builder_wf(old(self)@),
            old(self)@.next_composite_materials_id < u32::MAX,
            forall|b: &mut CompositeMaterialsBuilder| call_requires(f, (b,)),
        ensures
            builder_wf(final(self)@),
            match r {
                Ok(id) => {
                    &&& id == old(self)@.next_composite_materials_id
                    &&& resource_added(old(self)@.resources.compositematerials@, final(self)@.resources.compositematerials@, |x: crate::domain::material::CompositeMaterials| x.id, id)
                    &&& final(self)@ == (ModelBuilderState {
                        resources: Resources { compositematerials: final(self)@.resources.compositematerials, ..old(self)@.resources },
                        next_composite_materials_id: (id + 1) as u32,
                        ..old(self)@
                    })
                },
                Err(_) => final(self)@ == old(self)@,
            },
            exists|b: &mut CompositeMaterialsBuilder| {
                &&& call_ensures(f, (b,), ())
                &&& (*b)@.id == old(self)@.next_composite_materials_id && (*b)@.matid is None && (*b)@.matindices@.len() == 0 && (*b)@.composite@.len() == 0
                &&& match composite_materials_built(mut_ref_future(b)@) {
                    Ok(v) => r is Ok && final(self)@.resources.compositematerials@.last() == (CompositeMaterials { id: old(self)@.next_composite_materials_id, ..v }),
                    Err(e) => r == Err::<ResourceId, CompositeMaterialsError>(e),
                }
            },
    {
        let id = self.next_composite_materials_id;
        let mut builder = CompositeMaterialsBuilder::new(id);
        let ghost fresh = builder;
        f(&mut builder);
        let ghost built = builder;
        assert(exists|w: &mut CompositeMaterialsBuilder| call_ensures(f, (w,), ()) && *w == fresh && mut_ref_future(w) == built);
        let ghost w = choose|w: &mut CompositeMaterialsBuilder| call_ensures(f, (w,), ()) && *w == fresh && mut_ref_future(w) == built;
        let mut value = match builder.build() {
            Ok(v) => v,
            Err(e) => {
                assert(composite_materials_built(mut_ref_future(w)@) == Err::<CompositeMaterials, CompositeMaterialsError>(e));
                return Err(e);
            },
        };
        let ghost made = value;
        value.id = id;
        let ghost before = self.resources.resources.compositematerials@;
        proof {
            lemma_numbered_push(before, |x: crate::domain::material::CompositeMaterials| x.id, value, id);
        }
        self.resources.resources.compositematerials.push(value);
        self.next_composite_materials_id = id + 1;
        proof {
            assert(self.resources.resources.compositematerials@.take(before.len() as int) =~= before);
            assert(composite_materials_built(mut_ref_future(w)@) == Ok::<CompositeMaterials, CompositeMaterialsError>(made));
        }
        Ok(id)
    }

    /// Adds multi-properties configured by `f`, with the next id of its kind, which is returned.
    pub fn add_multi_properties<F>(&mut self, f: F) -> (r: Result<ResourceId, MultiPropertiesError>)
        where
            F: FnOnce(&mut MultiPropertiesBuilder),
        requires
            builder_wf(old(self)@),
            old(self)@.next_multi_properties_id < u32::MAX,
            forall|b: &mut MultiPropertiesBuilder| call_requires(f, (b,)),
        ensures
            builder_wf(final(self)@),
            match r {
                Ok(id) => {
                    &&& id == old(self)@.next_multi_properties_id
                    &&& resource_added(old(self)@.resources.multiproperties@, final(self)@.resources.multiproperties@, |x: crate::domain::material::MultiProperties| x.id, id)
                    &&& final(self)@ == (ModelBuilderState {
                        resources: Resources { multiproperties: final(self)@.resources.multiproperties, ..old(self)@.resources },
                        next_multi_properties_id: (id + 1) as u32,
                        ..old(self)@
                    })
                },
                Err(_) => final(self)@ == old(self)@,
            },
            exists|b: &mut MultiPropertiesBuilder| {
                &&& call_ensures(f, (b,), ())
                &&& (*b)@.id == old(self)@.next_multi_properties_id && (*b)@.pids@.len() == 0 && (*b)@.blendmethods is None && (*b)@.multi@.len() == 0
                &&& match multi_properties_built(mut_ref_future(b)@) {
                    Ok(v) => r is Ok && final(self)@.resources.multiproperties@.last() == (MultiProperties { id: old(self)@.next_multi_properties_id, ..v }),
                    Err(e) => r == Err::<ResourceId, MultiPropertiesError>(e),
                }
            },
    {
        let id = self.next_multi_properties_id;
        let mut builder = MultiPropertiesBuilder::new(id);
        let ghost fresh = builder;
        f(&mut builder);
        let ghost built = builder;
        assert(exists|w: &mut MultiPropertiesBuilder| call_ensures(f, (w,), ()) && *w == fresh && mut_ref_future(w) == built);
        let ghost w = choose|w: &mut MultiPropertiesBuilder| call_ensures(f, (w,), ()) && *w == fresh && mut_ref_future(w) == built;
        let mut value = match builder.build() {
            Ok(v) => v,
            Err(e) => {
                assert(multi_properties_built(mut_ref_future(w)@) == Err::<MultiProperties, MultiPropertiesError>(e));
                return Err(e);
            },
        };
        let ghost made = value;
        value.id = id;
        let ghost before = self.resources.resources.multiproperties@;
        proof {
            lemma_numbered_push(before, |x: crate::domain::material::MultiProperties| x.id, value, id);
        }
        self.resources.resources.multiproperties.push(value);
        self.next_multi_properties_id = id + 1;
        proof {
            assert(self.resources.resources.multiproperties@.take(before.len() as int) =~= before);
            assert(multi_properties_built(mut_ref_future(w)@) == Ok::<MultiProperties, MultiPropertiesError>(made));
        }
        Ok(id)
    }

    /// Adds a base materials group configured by `f`, with the next id of its kind, which is returned.
    pub fn add_base_materials<F>(&mut self, f: F) -> (r: ResourceId)
        where
            F: FnOnce(&mut BaseMaterialsBuilder),
        requires
            builder_wf(old(self)@),
            old(self)@.next_basematerials_id < u32::MAX,
            forall|b: &mut BaseMaterialsBuilder| call_requires(f, (b,)),
        ensures
            builder_wf(final(self)@),
            r == old(self)@.next_basematerials_id,
            resource_added(old(self)@.resources.basematerials@, final(self)@.resources.basematerials@, |x: crate::domain::resources::BaseMaterials| x.id, r),
            final(self)@ == (ModelBuilderState {
                resources: Resources { basematerials: final(self)@.resources.basematerials, ..old(self)@.resources },
                next_basematerials_id: (r + 1) as u32,
                ..old(self)@
            }),
            exists|b: &mut BaseMaterialsBuilder| {
                &&& call_ensures(f, (b,), ())
                &&& (*b)@.id == old(self)@.next_basematerials_id
                &&& (*b)@.base@.len() == 0
                &&& final(self)@.resources.basematerials@.last() == (BaseMaterials { id: r, ..mut_ref_future(b)@ })
            },
    {
        let id = self.next_basematerials_id;
        let mut builder = BaseMaterialsBuilder::new(id);
        let ghost fresh = builder;
        f(&mut builder);
        let ghost made = builder;
        assert(exists|w: &mut BaseMaterialsBuilder| call_ensures(f, (w,), ()) && *w == fresh && mut_ref_future(w) == made);
        let mut value = builder.build();
        value.id = id;
        let ghost before = self.resources.resources.basematerials@;
        proof {
            lemma_numbered_push(before, |x: crate::domain::resources::BaseMaterials| x.id, value, id);
        }
        self.resources.resources.basematerials.push(value);
        self.next_basematerials_id = id + 1;
        proof {
            assert(self.resources.resources.basematerials@.take(before.len() as int) =~= before);
        }
        id
    }

    /// Adds a 2D displacement map configured by `f`, with the next id of its kind, which is returned.
    pub fn add_displacement2d<F>(&mut self, f: F) -> (r: Result<ResourceId, Displacement2DError>)
        where
            F: FnOnce(&mut Displacement2DBuilder),
        requires
            builder_wf(old(self)@),
            old(self)@.next_displacement2d_id < u32::MAX,
            forall|b: &mut Displacement2DBuilder| call_requires(f, (b,)),
        ensures
            builder_wf(final(self)@),
            match r {
                Ok(id) => {
                    &&& id == old(self)@.next_displacement2d_id
                    &&& resource_added(old(self)@.resources.displacement2d@, final(self)@.resources.displacement2d@, |x: crate::domain::displacement::Displacement2D| x.id, id)
                    &&& final(self)@ == (ModelBuilderState {
                        resources: Resources { displacement2d: final(self)@.resources.displacement2d, ..old(self)@.resources },
                        next_displacement2d_id: (id + 1) as u32,
                        ..old(self)@
                    })
                },
                Err(_) => final(self)@ == old(self)@,
            },
            exists|b: &mut Displacement2DBuilder| {
                &&& call_ensures(f, (b,), ())
                &&& (*b)@ == (Displacement2DFields { id: old(self)@.next_displacement2d_id, path: None, channel: None, tilestyleu: None, tilestylev: None, filter: None })
                &&& match displacement2d_built(mut_ref_future(b)@) {
                    Ok(v) => r is Ok && final(self)@.resources.displacement2d@.last() == (Displacement2D { id: old(self)@.next_displacement2d_id, ..v }),
                    Err(e) => r == Err::<ResourceId, Displacement2DError>(e),
                }
            },
    {
        let id = self.next_displacement2d_id;
        let mut builder = Displacement2DBuilder::new(id);
        let ghost fresh = builder;
        f(&mut builder);
        let ghost built = builder;
        assert(exists|w: &mut Displacement2DBuilder| call_ensures(f, (w,), ()) && *w == fresh && mut_ref_future(w) == built);
        let ghost w = choose|w: &mut Displacement2DBuilder| call_ensures(f, (w,), ()) && *w == fresh && mut_ref_future(w) == built;
        let mut value = match builder.build() {
            Ok(v) => v,
            Err(e) => {
                assert(displacement2d_built(mut_ref_future(w)@) == Err::<Displacement2D, Displacement2DError>(e));
                return Err(e);
            },
        };
        let ghost made = value;
        value.id = id;
        let ghost before = self.resources.resources.displacement2d@;
        proof {
            lemma_numbered_push(before, |x: crate::domain::displacement::Displacement2D| x.id, value, id);
        }
        self.resources.resources.displacement2d.push(value);
        self.next_displacement2d_id = id + 1;
        proof {
            assert(self.resources.resources.displacement2d@.take(before.len() as int) =~= before);
            assert(displacement2d_built(mut_ref_future(w)@) == Ok::<Displacement2D, Displacement2DError>(made));
        }
        Ok(id)
    }

    /// Adds a normal vector group configured by `f`, with the next id of its kind, which is returned.
    pub fn add_norm_vector_group<F>(&mut self, f: F) -> (r: ResourceId)
        where
            F: FnOnce(&mut NormVectorGroupBuilder),
        requires
            builder_wf(old(self)@),
            old(self)@.next_normvectorgroup_id < u32::MAX,
            forall|b: &mut NormVectorGroupBuilder| call_requires(f, (b,)),
        ensures
            builder_wf(final(self)@),
            r == old(self)@.next_normvectorgroup_id,
            resource_added(old(self)@.resources.normvectorgroup@, final(self)@.resources.normvectorgroup@, |x: crate::domain::displacement::NormVectorGroup| x.id, r),
            final(self)@ == (ModelBuilderState {
                resources: Resources { normvectorgroup: final(self)@.resources.normvectorgroup, ..old(self)@.resources },
                next_normvectorgroup_id: (r + 1) as u32,
                ..old(self)@
            }),
            exists|b: &mut NormVectorGroupBuilder| {
                &&& call_ensures(f, (b,), ())
                &&& (*b)@.id == old(self)@.next_normvectorgroup_id
                &&& (*b)@.normvector@.len() == 0
                &&& final(self)@.resources.normvectorgroup@.last() == (NormVectorGroup { id: r, ..mut_ref_future(b)@ })
            },
    {
        let id = self.next_normvectorgroup_id;
        let mut builder = NormVectorGroupBuilder::new(id);
        let ghost fresh = builder;
        f(&mut builder);
        let ghost made = builder;
        assert(exists|w: &mut NormVectorGroupBuilder| call_ensures(f, (w,), ()) && *w == fresh && mut_ref_future(w) == made);
        let mut value = builder.build();
        value.id = id;
        let ghost before = self.resources.resources.normvectorgroup@;
        proof {
            lemma_numbered_push(before, |x: crate::domain::displacement::NormVectorGroup| x.id, value, id);
        }
        self.resources.resources.normvectorgroup.push(value);
        self.next_normvectorgroup_id = id + 1;
        proof {
            assert(self.resources.resources.normvectorgroup@.take(before.len() as int) =~= before);
        }
        id
    }

    /// Adds a displacement coordinate group configured by `f`, with the next id of its kind, which is returned.
    pub fn add_disp2d_group<F>(&mut self, f: F) -> (r: Result<ResourceId, Disp2DGroupError>)
        where
            F: FnOnce(&mut Disp2DGroupBuilder),
        requires
            builder_wf(old(self)@),
            old(self)@.next_disp2dgroup_id < u32::MAX,
            forall|b: &mut Disp2DGroupBuilder| call_requires(f, (b,)),
        ensures
            builder_wf(final(self)@),
            match r {
                Ok(id) => {
                    &&& id == old(self)@.next_disp2dgroup_id
                    &&& resource_added(old(self)@.resources.disp2dgroup@, final(self)@.resources.disp2dgroup@, |x: crate::domain::displacement::Disp2DGroup| x.id, id)
                    &&& final(self)@ == (ModelBuilderState {
                        resources: Resources { disp2dgroup: final(self)@.resources.disp2dgroup, ..old(self)@.resources },
                        next_disp2dgroup_id: (id + 1) as u32,
                        ..old(self)@
                    })
                },
                Err(_) => final(self)@ == old(self)@,
            },
            exists|b: &mut Disp2DGroupBuilder| {
                &&& call_ensures(f, (b,), ())
                &&& (*b)@.id == old(self)@.next_disp2dgroup_id && (*b)@.dispid is None && (*b)@.nid is None && (*b)@.height is None && (*b)@.offset is None && (*b)@.coords@.len() == 0
                &&& match disp2d_group_built(mut_ref_future(b)@) {
                    Ok(v) => r is Ok && final(self)@.resources.disp2dgroup@.last() == (Disp2DGroup { id: old(self)@.next_disp2dgroup_id, ..v }),
                    Err(e) => r == Err::<ResourceId, Disp2DGroupError>(e),
                }
            },
    {
        let id = self.next_disp2dgroup_id;
        let mut builder = Disp2DGroupBuilder::new(id);
        let ghost fresh = builder;
        f(&mut builder);
        let ghost built = builder;
        assert(exists|w: &mut Disp2DGroupBuilder| call_ensures(f, (w,), ()) && *w == fresh && mut_ref_future(w) == built);
        let ghost w = choose|w: &mut Disp2DGroupBuilder| call_ensures(f, (w,), ()) && *w == fresh && mut_ref_future(w) == built;
        let mut value = match builder.build() {
            Ok(v) => v,
            Err(e) => {
                assert(disp2d_group_built(mut_ref_future(w)@) == Err::<Disp2DGroup, Disp2DGroupError>(e));
                return Err(e);
            },
        };
        let ghost made = value;
        value.id = id;
        let ghost before = self.resources.resources.disp2dgroup@;
        proof {
            lemma_numbered_push(before, |x: crate::domain::displacement::Disp2DGroup| x.id, value, id);
        }
        self.resources.resources.disp2dgroup.push(value);
        self.next_disp2dgroup_id = id + 1;
        proof {
            assert(self.resources.resources.disp2dgroup@.take(before.len() as int) =~= before);
            assert(disp2d_group_built(mut_ref_future(w)@) == Ok::<Disp2DGroup, Disp2DGroupError>(made));
        }
        Ok(id)
    }
}

/// The build item placing `objectid` with nothing else set.
pub open spec fn plain_item(objectid: u32) -> Item {
    Item { objectid, transform: None, partnumber: None, path: None, uuid: None }
}

/// The build of a model that is not the root: no UUID and no items.
pub open spec fn empty_build(b: Build) -> bool {
    b.uuid is None && b.item@.len() == 0
}

/// The error, if any, of building a model from the builder state `s`: a root model
/// needs a build, a sub-model cannot have one, and the build must meet the production
/// extension.
pub open spec fn model_error(s: ModelBuilderState) -> Option<ModelError> {
    if s.is_root && s.build is None {
        Some(ModelError::BuildItemNotSet)
    } else if !s.is_root && s.build is Some {
        Some(ModelError::BuildOnlyAllowedInRootModel)
    } else {
        match s.build {
            Some(b) => match build_error(b, s.is_production_ext_required) {
                Some(e) => Some(ModelError::BuildError(e)),
                None => None,
            },
            None => None,
        }
    }
}

impl ModelBuilder {
    /// Sets the build of a root model, with the given UUID and no items; with the
    /// production extension the UUID is needed.
    pub fn add_build(&mut self, uuid: Option<UuidResource>) -> (r: Result<(), ModelError>)
        requires
            builder_wf(old(self)@),
        ensures
            builder_wf(final(self)@),
            !old(self)@.is_root ==> r == Err::<(), ModelError>(ModelError::BuildOnlyAllowedInRootModel)
                && final(self)@ == old(self)@,
            old(self)@.is_root && old(self)@.is_production_ext_required && uuid is None ==> r == Err::<(), ModelError>(
                ModelError::BuildError(BuildError::BuildUuidNotSet),
            ) && final(self)@ == old(self)@,
            old(self)@.is_root && !(old(self)@.is_production_ext_required && uuid is None) ==> {
                &&& r is Ok
                &&& final(self)@ == (ModelBuilderState { build: final(self)@.build, ..old(self)@ })
                &&& final(self)@.build matches Some(b)
                &&& b.uuid == uuid
                &&& b.item@.len() == 0
            },
    {
        if !self.is_root {
            return Err(ModelError::BuildOnlyAllowedInRootModel);
        }
        let mut build_builder = BuildBuilder::new();
        match uuid {
            Some(u) => {
                build_builder.uuid(u);
            },
            None => {},
        }
        match build_builder.can_build(self.is_production_ext_required) {
            Ok(()) => {},
            Err(e) => return Err(ModelError::BuildError(e)),
        }
        self.build = Some(build_builder);
        Ok(())
    }

    /// Adds a build item placing `object_id`, with nothing else set.
    pub fn add_build_item(&mut self, object_id: ObjectId) -> (r: Result<(), ModelError>)
        requires
            builder_wf(old(self)@),
        ensures
            builder_wf(final(self)@),
            match old(self)@.build {
                None => r == Err::<(), ModelError>(ModelError::BuildItemNotSet) && final(self)@ == old(self)@,
                Some(b) => match item_error(plain_item(object_id.0), old(self)@.is_production_ext_required) {
                    Some(e) => r == Err::<(), ModelError>(ModelError::ItemError(e)) && final(self)@ == old(self)@,
                    None => {
                        &&& r is Ok
                        &&& final(self)@ == (ModelBuilderState { build: final(self)@.build, ..old(self)@ })
                        &&& final(self)@.build matches Some(nb)
                        &&& nb.uuid == b.uuid
                        &&& nb.item@ == b.item@.push(plain_item(object_id.0))
                    },
                },
            },
    {
        let production = self.is_production_ext_required;
        match self.build.take() {
            Some(mut b) => {
                let item = ItemBuilder::new(object_id);
                match item.build(production) {
                    Ok(it) => {
                        b.build.item.push(it);
                        self.build = Some(b);
                        Ok(())
                    },
                    Err(e) => {
                        self.build = Some(b);
                        Err(ModelError::ItemError(e))
                    },
                }
            },
            None => Err(ModelError::BuildItemNotSet),
        }
    }

    /// Adds a build item placing `object_id`, configured by `f`, unless it breaks the
    /// rules of the production extension.
    pub fn add_build_item_advanced<F>(&mut self, object_id: ObjectId, f: F) -> (r: Result<(), ModelError>)
        where
            F: FnOnce(&mut ItemBuilder),
        requires
            builder_wf(old(self)@),
            forall|b: &mut ItemBuilder| call_requires(f, (b,)),
        ensures
            builder_wf(final(self)@),
            match old(self)@.build {
                None => r == Err::<(), ModelError>(ModelError::BuildItemNotSet) && final(self)@ == old(self)@,
                Some(b) => match r {
                    Err(e) => e is ItemError && final(self)@ == old(self)@,
                    Ok(()) => {
                        &&& final(self)@ == (ModelBuilderState { build: final(self)@.build, ..old(self)@ })
                        &&& final(self)@.build matches Some(nb)
                        &&& nb.uuid == b.uuid
                        &&& nb.item@.len() == b.item@.len() + 1
                        &&& nb.item@.take(b.item@.len() as int) == b.item@
                        &&& item_error(nb.item@.last(), old(self)@.is_production_ext_required) is None
                    },
                },
            },
            old(self)@.build is Some ==> exists|b: &mut ItemBuilder| {
                &&& call_ensures(f, (b,), ())
                &&& (*b)@ == plain_item(object_id.0)
                &&& match item_error(mut_ref_future(b)@, old(self)@.is_production_ext_required) {
                    Some(e) => r == Err::<(), ModelError>(ModelError::ItemError(e)),
                    None => r is Ok && final(self)@.build->0.item@ == old(self)@.build->0.item@.push(mut_ref_future(b)@),
                }
            },
    {
        let production = self.is_production_ext_required;
        match self.build.take() {
            Some(mut b) => {
                let res = b.add_build_item(object_id, production, f);
                self.build = Some(b);
                match res {
                    Ok(()) => Ok(()),
                    Err(e) => Err(ModelError::ItemError(e)),
                }
            },
            None => Err(ModelError::BuildItemNotSet),
        }
    }

    /// Adds a slice stack configured by `f`, with the next slice stack id, which is
    /// returned, unless it has both slices and references to other stacks.
    pub fn add_slice_stack<F>(&mut self, f: F) -> (r: Result<SliceStackId, SliceStackBuilderError>)
        where
            F: FnOnce(&mut SliceStackBuilder),
        requires
            builder_wf(old(self)@),
            old(self)@.next_slicestack_id < u32::MAX,
            forall|b: &mut SliceStackBuilder| call_requires(f, (b,)),
        ensures
            builder_wf(final(self)@),
            match r {
                Ok(id) => {
                    &&& id.0 == old(self)@.next_slicestack_id
                    &&& resource_added(
                        old(self)@.resources.slicestack@,
                        final(self)@.resources.slicestack@,
                        |x: crate::domain::slice::SliceStack| x.id,
                        id.0,
                    )
                    &&& final(self)@ == (ModelBuilderState {
                        resources: Resources { slicestack: final(self)@.resources.slicestack, ..old(self)@.resources },
                        next_slicestack_id: (id.0 + 1) as u32,
                        ..old(self)@
                    })
                },
                Err(_) => final(self)@ == old(self)@,
            },
            exists|b: &mut SliceStackBuilder| {
                &&& call_ensures(f, (b,), ())
                &&& (*b)@.id.0 == old(self)@.next_slicestack_id && (*b)@.zbottom is None && (*b)@.slices@.len() == 0 && (*b)@.slicerefs@.len() == 0
                &&& match slice_stack_built(mut_ref_future(b)@) {
                    Ok(v) => r is Ok && final(self)@.resources.slicestack@.last() == (SliceStack { id: old(self)@.next_slicestack_id, ..v }),
                    Err(e) => r == Err::<SliceStackId, SliceStackBuilderError>(e),
                }
            },
    {
        let id = self.next_slicestack_id;
        let mut builder = SliceStackBuilder::new(id);
        let ghost fresh = builder;
        f(&mut builder);
        let ghost built = builder;
        assert(exists|w: &mut SliceStackBuilder| call_ensures(f, (w,), ()) && *w == fresh && mut_ref_future(w) == built);
        let ghost w = choose|w: &mut SliceStackBuilder| call_ensures(f, (w,), ()) && *w == fresh && mut_ref_future(w) == built;
        let mut stack = match builder.build() {
            Ok(s) => s,
            Err(e) => {
                assert(slice_stack_built(mut_ref_future(w)@) == Err::<SliceStack, SliceStackBuilderError>(e));
                return Err(e);
            },
        };
        let ghost made = stack;
        stack.id = id.0;
        let ghost before = self.resources.resources.slicestack@;
        proof {
            lemma_numbered_push(before, |x: crate::domain::slice::SliceStack| x.id, stack, id.0);
        }
        self.resources.resources.slicestack.push(stack);
        self.next_slicestack_id = SliceStackId(id.0 + 1);
        proof {
            assert(self.resources.resources.slicestack@.take(before.len() as int) =~= before);
            assert(slice_stack_built(mut_ref_future(w)@) == Ok::<SliceStack, SliceStackBuilderError>(made));
        }
        Ok(id)
    }

    /// Adds the slice stack that `builder` builds; the builder carries the next slice
    /// stack id.
    pub fn add_slice_stack_from_builder(&mut self, builder: SliceStackBuilder) -> (r: Result<SliceStackId, SliceStackBuilderError>)
        requires
            builder_wf(old(self)@),
            old(self)@.next_slicestack_id < u32::MAX,
            builder@.id.0 == old(self)@.next_slicestack_id,
        ensures
            builder_wf(final(self)@),
            builder@.slices@.len() > 0 && builder@.slicerefs@.len() > 0 ==> r == Err::<SliceStackId, SliceStackBuilderError>(
                SliceStackBuilderError::BothSliceAndSliceRefCannotBeSet,
            ) && final(self)@ == old(self)@,
            !(builder@.slices@.len() > 0 && builder@.slicerefs@.len() > 0) ==> {
                &&& r == Ok::<SliceStackId, SliceStackBuilderError>(builder@.id)
                &&& final(self)@.resources.slicestack@ == old(self)@.resources.slicestack@.push(
                    crate::domain::slice::SliceStack {
                        id: builder@.id.0,
                        zbottom: builder@.zbottom,
                        slice: builder@.slices,
                        sliceref: builder@.slicerefs,
                    },
                )
                &&& final(self)@ == (ModelBuilderState {
                    resources: Resources { slicestack: final(self)@.resources.slicestack, ..old(self)@.resources },
                    next_slicestack_id: (builder@.id.0 + 1) as u32,
                    ..old(self)@
                })
            },
    {
        let ghost id = builder@.id;
        let stack = match builder.build() {
            Ok(s) => s,
            Err(e) => return Err(e),
        };
        let sid = stack.id;
        let ghost before = self.resources.resources.slicestack@;
        proof {
            lemma_numbered_push(before, |x: crate::domain::slice::SliceStack| x.id, stack, sid);
        }
        self.resources.resources.slicestack.push(stack);
        self.next_slicestack_id = SliceStackId(sid + 1);
        Ok(SliceStackId(sid))
    }

    /// The required extensions of the model as built so far.
    fn process_required_extensions(&self) -> (r: Vec<ThreemfNamespace>)
        ensures
            r@ == required_extensions(self@.requiredextensions, self@.is_production_ext_required, self@.resources),
    {
        compute_required_extensions(&self.requiredextensions, self.is_production_ext_required, &self.resources.resources)
    }

    /// The model: a root model needs a build and a sub-model cannot have one; the build
    /// must meet the production extension. The required extensions are those declared
    /// and those that the model uses.
    pub fn build(self) -> (r: Result<Model, ModelError>)
        requires
            builder_wf(self@),
        ensures
            match model_error(self@) {
                Some(e) => r == Err::<Model, ModelError>(e),
                None => {
                    &&& r is Ok
                    &&& r->Ok_0.unit == self@.unit
                    &&& r->Ok_0.requiredextensions@ == required_extensions(
                        self@.requiredextensions,
                        self@.is_production_ext_required,
                        self@.resources,
                    )
                    &&& r->Ok_0.recommendedextensions@ == self@.recommendedextensions
                    &&& r->Ok_0.metadata@ == self@.metadata
                    &&& r->Ok_0.resources == self@.resources
                    &&& match self@.build {
                        Some(b) => r->Ok_0.build == b,
                        None => empty_build(r->Ok_0.build),
                    }
                },
            },
            r is Ok ==> numbered(object_ids(r->Ok_0.resources.object@), self@.next_object_id),
            r is Ok ==> ids_in_order(r->Ok_0.resources.object@),
            r is Ok ==> components_refer_back(r->Ok_0.resources.object@),
    {
        proof {
            let objs = self@.resources.object@;
            assert forall|i: int| 0 <= i < objs.len() implies (#[trigger] objs[i]).id == i + 1 by {
                assert(object_ids(objs)[i] == i + 1);
            }
        }
        let required = self.process_required_extensions();
        if self.is_root && self.build.is_none() {
            return Err(ModelError::BuildItemNotSet);
        }
        if !self.is_root && self.build.is_some() {
            return Err(ModelError::BuildOnlyAllowedInRootModel);
        }
        let build = match self.build {
            Some(b) => match b.build(self.is_production_ext_required) {
                Ok(b) => b,
                Err(e) => return Err(ModelError::BuildError(e)),
            },
            None => Build { uuid: None, item: Vec::new() },
        };
        Ok(
            Model {
                unit: self.unit,
                requiredextensions: required,
                recommendedextensions: self.recommendedextensions,
                metadata: self.metadata,
                resources: self.resources.build(),
                build,
            },
        )
    }
}

} // verus!
