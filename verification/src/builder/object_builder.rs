//! Builders of objects: the settings every object has, and the mesh, displacement
//! mesh, components and boolean shape that make its content.

use vstd::prelude::*;

use crate::builder::errors::{
    BooleanShapeError, ComponentsObjectError, DisplacementMeshObjectError, MeshObjectError,
};
use crate::builder::geometry::{DisplacementMeshBuilder, MeshBuilder};
use crate::builder::ids::{ObjectId, SliceStackId};
use crate::builder::leaf_builders::{BooleanBuilder, ComponentBuilder};
use crate::domain::boolean::{Boolean, BooleanOperation, BooleanShape};
use crate::domain::component::{Component, Components};
use crate::domain::object::{Object, ObjectKind, ObjectType};
use crate::domain::slice::MeshResolution;
use crate::domain::transform::Transform;
use crate::text::{opt_chars, opt_str_chars};
use crate::types::{OptionalResourceId, OptionalResourceIndex, ResourceId, ResourceIndex};

verus! {

/// Builds an object: its settings, and the builder `T` of its content.
pub struct ObjectBuilder<T> {
    entity: T,
    object: Object,
    is_production_ext_required: bool,
}

/// The settings of a new object with id `id`: a model object with nothing else set.
pub open spec fn fresh_object(id: u32) -> Object {
    Object {
        id,
        objecttype: Some(ObjectType::Model),
        thumbnail: None,
        partnumber: None,
        name: None,
        pid: OptionalResourceId { value: None },
        pindex: OptionalResourceIndex { value: None },
        uuid: None,
        slicestackid: OptionalResourceId { value: None },
        slicepath: None,
        meshresolution: None,
        kind: None,
    }
}

impl<T> ObjectBuilder<T> {
    /// The settings of the object; its content is not set here.
    pub closed spec fn object_spec(&self) -> Object {
        self.object
    }

    /// The builder of the object's content.
    pub closed spec fn entity_spec(&self) -> T {
        self.entity
    }

    /// Whether the production extension is required, so that a UUID must be set.
    pub closed spec fn production_required(&self) -> bool {
        self.is_production_ext_required
    }

    /// An object with id `object_id` whose content `entity` builds.
    fn with_entity(entity: T, object_id: ObjectId, is_production_ext_required: bool) -> (r: Self)
        ensures
            r.object_spec() == fresh_object(object_id.0),
            r.entity_spec() == entity,
            r.production_required() == is_production_ext_required,
    {
        ObjectBuilder {
            entity,
            object: Object {
                id: object_id.0,
                objecttype: Some(ObjectType::Model),
                thumbnail: None,
                partnumber: None,
                name: None,
                pid: OptionalResourceId::none(),
                pindex: OptionalResourceIndex::none(),
                uuid: None,
                slicestackid: OptionalResourceId::none(),
                slicepath: None,
                meshresolution: None,
                kind: None,
            },
            is_production_ext_required,
        }
    }

    /// The builder of the object's content.
    pub fn entity(&mut self) -> (r: &mut T)
        ensures
            *r == old(self).entity_spec(),
            final(self).entity_spec() == *final(r),
            final(self).object_spec() == old(self).object_spec(),
            final(self).production_required() == old(self).production_required(),
    {
        &mut self.entity
    }

    /// Sets the type of the object.
    pub fn object_type(&mut self, object_type: ObjectType) -> (r: &mut Self)
        ensures
            r.object_spec() == (Object { objecttype: Some(object_type), ..old(self).object_spec() }),
            r.entity_spec() == old(self).entity_spec(),
            r.production_required() == old(self).production_required(),
            *final(self) == *final(r),
    {
        self.object.objecttype = Some(object_type);
        self
    }

    /// Sets the path of the thumbnail of the object.
    pub fn thumbnail(&mut self, path: &str) -> (r: &mut Self)
        ensures
            r.object_spec() == (Object { thumbnail: r.object_spec().thumbnail, ..old(self).object_spec() }),
            opt_chars(r.object_spec().thumbnail) == Some(path@),
            r.entity_spec() == old(self).entity_spec(),
            r.production_required() == old(self).production_required(),
            *final(self) == *final(r),
    {
        self.object.thumbnail = Some(path.to_owned());
        self
    }

    /// Sets the name of the object.
    pub fn name(&mut self, name: &str) -> (r: &mut Self)
        ensures
            r.object_spec() == (Object { name: r.object_spec().name, ..old(self).object_spec() }),
            opt_chars(r.object_spec().name) == Some(name@),
            r.entity_spec() == old(self).entity_spec(),
            r.production_required() == old(self).production_required(),
            *final(self) == *final(r),
    {
        self.object.name = Some(name.to_owned());
        self
    }

    /// Sets the part number of the object.
    pub fn part_number(&mut self, part_number: &str) -> (r: &mut Self)
        ensures
            r.object_spec() == (Object { partnumber: r.object_spec().partnumber, ..old(self).object_spec() }),
            opt_chars(r.object_spec().partnumber) == Some(part_number@),
            r.entity_spec() == old(self).entity_spec(),
            r.production_required() == old(self).production_required(),
            *final(self) == *final(r),
    {
        self.object.partnumber = Some(part_number.to_owned());
        self
    }

    /// Sets the UUID of the object.
    pub fn uuid(&mut self, uuid: &str) -> (r: &mut Self)
        ensures
            r.object_spec() == (Object { uuid: r.object_spec().uuid, ..old(self).object_spec() }),
            opt_chars(r.object_spec().uuid) == Some(uuid@),
            r.entity_spec() == old(self).entity_spec(),
            r.production_required() == old(self).production_required(),
            *final(self) == *final(r),
    {
        self.object.uuid = Some(uuid.to_owned());
        self
    }

    /// Sets the property resource of the object.
    pub fn pid(&mut self, pid: ResourceId) -> (r: &mut Self)
        ensures
            r.object_spec() == (Object { pid: OptionalResourceId { value: Some(pid) }, ..old(self).object_spec() }),
            r.entity_spec() == old(self).entity_spec(),
            r.production_required() == old(self).production_required(),
            *final(self) == *final(r),
    {
        self.object.pid = OptionalResourceId::new(pid);
        self
    }

    /// Sets the property index of the object.
    pub fn pindex(&mut self, pindex: ResourceIndex) -> (r: &mut Self)
        ensures
            r.object_spec() == (Object { pindex: OptionalResourceIndex { value: Some(pindex) }, ..old(self).object_spec() }),
            r.entity_spec() == old(self).entity_spec(),
            r.production_required() == old(self).production_required(),
            *final(self) == *final(r),
    {
        self.object.pindex = OptionalResourceIndex::new(pindex);
        self
    }

    /// Sets the slice stack of the object.
    pub fn slice_stack_id(&mut self, slicestack_id: SliceStackId) -> (r: &mut Self)
        ensures
            r.object_spec() == (Object { slicestackid: OptionalResourceId { value: Some(slicestack_id.0) }, ..old(self).object_spec() }),
            r.entity_spec() == old(self).entity_spec(),
            r.production_required() == old(self).production_required(),
            *final(self) == *final(r),
    {
        self.object.slicestackid = OptionalResourceId::new(slicestack_id.0);
        self
    }

    /// Sets the path of the model that holds the object's slice stack.
    pub fn slicepath(&mut self, slicepath: &str) -> (r: &mut Self)
        ensures
            r.object_spec() == (Object { slicepath: r.object_spec().slicepath, ..old(self).object_spec() }),
            opt_chars(r.object_spec().slicepath) == Some(slicepath@),
            r.entity_spec() == old(self).entity_spec(),
            r.production_required() == old(self).production_required(),
            *final(self) == *final(r),
    {
        self.object.slicepath = Some(slicepath.to_owned());
        self
    }

    /// Sets the mesh resolution of the object.
    pub fn meshresolution(&mut self, resolution: MeshResolution) -> (r: &mut Self)
        ensures
            r.object_spec() == (Object { meshresolution: Some(resolution), ..old(self).object_spec() }),
            r.entity_spec() == old(self).entity_spec(),
            r.production_required() == old(self).production_required(),
            *final(self) == *final(r),
    {
        self.object.meshresolution = Some(resolution);
        self
    }

    /// Sets the slice stack of the object, and its path and mesh resolution where
    /// given.
    pub fn slice_stack(
        &mut self,
        slicestack_id: SliceStackId,
        slicepath: Option<&str>,
        meshresolution: Option<MeshResolution>,
    ) -> (r: &mut Self)
        ensures
            r.object_spec().slicestackid == (OptionalResourceId { value: Some(slicestack_id.0) }),
            slicepath is Some ==> opt_chars(r.object_spec().slicepath) == opt_str_chars(slicepath),
            slicepath is None ==> r.object_spec().slicepath == old(self).object_spec().slicepath,
            meshresolution is Some ==> r.object_spec().meshresolution == meshresolution,
            meshresolution is None ==> r.object_spec().meshresolution == old(self).object_spec().meshresolution,
            r.object_spec() == (Object {
                slicestackid: r.object_spec().slicestackid,
                slicepath: r.object_spec().slicepath,
                meshresolution: r.object_spec().meshresolution,
                ..old(self).object_spec()
            }),
            r.entity_spec() == old(self).entity_spec(),
            r.production_required() == old(self).production_required(),
            *final(self) == *final(r),
    {
        self.object.slicestackid = OptionalResourceId::new(slicestack_id.0);
        match slicepath {
            Some(p) => {
                self.object.slicepath = Some(p.to_owned());
            },
            None => {},
        }
        match meshresolution {
            Some(m) => {
                self.object.meshresolution = Some(m);
            },
            None => {},
        }
        self
    }
}

// ---------------------------------------------------------------------------------------
// Mesh objects
// ---------------------------------------------------------------------------------------

/// Builds an object with a triangle mesh.
pub type MeshObjectBuilder = ObjectBuilder<MeshBuilder>;

/// Builds an object with a displacement mesh.
pub type DisplacementMeshObjectBuilder = ObjectBuilder<DisplacementMeshBuilder>;

/// Builds an object made of components.
pub type ComponentsObjectBuilder = ObjectBuilder<ComponentsBuilder>;

/// Builds a boolean shape object.
pub type BooleanObjectBuilder = ObjectBuilder<BooleanShapeBuilder>;

impl ObjectBuilder<MeshBuilder> {
    /// A mesh object with id `object_id` and an empty mesh.
    pub(crate) fn new(object_id: ObjectId, is_production_ext_required: bool) -> (r: Self)
        ensures
            r.object_spec() == fresh_object(object_id.0),
            r.entity_spec()@.vertices.vertex@.len() == 0,
            r.entity_spec()@.triangles.triangle@.len() == 0,
            r.entity_spec()@.trianglesets is None,
            r.entity_spec()@.beamlattice is None,
            r.production_required() == is_production_ext_required,
    {
        Self::with_entity(MeshBuilder::new(), object_id, is_production_ext_required)
    }

    /// The mesh object, unless the production extension is required and no UUID is set.
    pub fn build(self) -> (r: Result<Object, MeshObjectError>)
        ensures
            self.production_required() && self.object_spec().uuid is None ==> r == Err::<Object, MeshObjectError>(
                MeshObjectError::ObjectUuidNotSet,
            ),
            !(self.production_required() && self.object_spec().uuid is None) ==> r == Ok::<Object, MeshObjectError>(
                Object { kind: Some(ObjectKind::Mesh(self.entity_spec()@)), ..self.object_spec() },
            ),
    {
        let mesh = self.entity.build_mesh();
        if self.is_production_ext_required && self.object.uuid.is_none() {
            return Err(MeshObjectError::ObjectUuidNotSet);
        }
        let mut object = self.object;
        object.kind = Some(ObjectKind::Mesh(mesh));
        Ok(object)
    }
}

impl ObjectBuilder<DisplacementMeshBuilder> {
    /// A displacement mesh object with id `object_id` and an empty mesh.
    pub(crate) fn new(object_id: ObjectId, is_production_ext_required: bool) -> (r: Self)
        ensures
            r.object_spec() == fresh_object(object_id.0),
            r.entity_spec()@.vertices.vertex@.len() == 0,
            r.entity_spec()@.triangles.triangle@.len() == 0,
            r.entity_spec()@.triangles.did.value is None,
            r.entity_spec()@.trianglesets is None,
            r.entity_spec()@.beamlattice is None,
            r.production_required() == is_production_ext_required,
    {
        Self::with_entity(DisplacementMeshBuilder::new(), object_id, is_production_ext_required)
    }

    /// The displacement mesh object, unless the production extension is required and
    /// no UUID is set.
    pub fn build(self) -> (r: Result<Object, DisplacementMeshObjectError>)
        ensures
            self.production_required() && self.object_spec().uuid is None ==> r == Err::<Object, DisplacementMeshObjectError>(
                DisplacementMeshObjectError::ObjectUuidNotSet,
            ),
            !(self.production_required() && self.object_spec().uuid is None) ==> r == Ok::<Object, DisplacementMeshObjectError>(
                Object { kind: Some(ObjectKind::DisplacementMesh(self.entity_spec()@)), ..self.object_spec() },
            ),
    {
        let mesh = self.entity.build_mesh();
        if self.is_production_ext_required && self.object.uuid.is_none() {
            return Err(DisplacementMeshObjectError::ObjectUuidNotSet);
        }
        let mut object = self.object;
        object.kind = Some(ObjectKind::DisplacementMesh(mesh));
        Ok(object)
    }
}

// ---------------------------------------------------------------------------------------
// Components objects
// ---------------------------------------------------------------------------------------

/// Builds the components of an object; they may only reference objects that existed
/// when the builder was made.
pub struct ComponentsBuilder {
    components: Vec<Component>,
    all_existing_object_ids: Vec<ObjectId>,
}

impl ComponentsBuilder {
    /// The components added so far.
    pub closed spec fn components_spec(&self) -> Seq<Component> {
        self.components@
    }

    /// The ids of the objects that existed when the builder was made.
    pub closed spec fn existing_ids(&self) -> Seq<ObjectId> {
        self.all_existing_object_ids@
    }

    /// No components, referencing only the objects `all_existing_object_ids`.
    pub(crate) fn new(all_existing_object_ids: Vec<ObjectId>) -> (r: Self)
        ensures
            r.components_spec().len() == 0,
            r.existing_ids() == all_existing_object_ids@,
    {
        ComponentsBuilder { components: Vec::new(), all_existing_object_ids }
    }

    /// Adds a component referencing `object_id`, with nothing else set.
    pub fn add_component(&mut self, object_id: ObjectId) -> (r: &mut Self)
        ensures
            r.components_spec() == old(self).components_spec().push(ComponentBuilder::new_spec(object_id)),
            r.existing_ids() == old(self).existing_ids(),
            *final(self) == *final(r),
    {
        self.components.push(ComponentBuilder::new(object_id).build());
        self
    }

    /// Adds a component referencing `object_id`, configured by `f`.
    pub fn add_component_advanced<F>(&mut self, object_id: ObjectId, f: F) -> (r: &mut Self)
        where
            F: FnOnce(&mut ComponentBuilder),
        requires
            forall|b: &mut ComponentBuilder| call_requires(f, (b,)),
        ensures
            r.components_spec().len() == old(self).components_spec().len() + 1,
            r.components_spec().take(old(self).components_spec().len() as int) == old(self).components_spec(),
            exists|b: &mut ComponentBuilder| {
                &&& call_ensures(f, (b,), ())
                &&& (*b)@ == ComponentBuilder::new_spec(object_id)
                &&& r.components_spec() == old(self).components_spec().push(mut_ref_future(b)@)
            },
            r.existing_ids() == old(self).existing_ids(),
            *final(self) == *final(r),
    {
        let mut builder = ComponentBuilder::new(object_id);
        let ghost fresh = builder;
        f(&mut builder);
        let ghost made = builder;
        assert(exists|w: &mut ComponentBuilder| call_ensures(f, (w,), ()) && *w == fresh && mut_ref_future(w) == made);
        let ghost before = self.components@;
        self.components.push(builder.build());
        proof {
            assert(self.components@.take(before.len() as int) =~= before);
        }
        self
    }

    /// The components, checked in this order: with the production extension every
    /// component has a UUID, without it none has a path; then every component
    /// references an existing object.
    pub fn build_components(self, is_production_ext_required: bool) -> (r: Result<Components, ComponentsObjectError>)
        ensures
            match components_error(self.components_spec(), self.existing_ids(), is_production_ext_required) {
                Some(e) => r == Err::<Components, ComponentsObjectError>(e),
                None => r is Ok && r->Ok_0.component@ == self.components_spec(),
            },
    {
        let n = self.components.len();
        if is_production_ext_required {
            for k in 0..n
                invariant
                    n == self.components@.len(),
                    is_production_ext_required,
                    forall|j: int| 0 <= j < k ==> (#[trigger] self.components@[j]).uuid is Some,
            {
                if self.components[k].uuid.is_none() {
                    proof {
                        assert(self.components@[k as int].uuid is None);
                    }
                    return Err(ComponentsObjectError::ComponentUuidNotSet);
                }
            }
        } else {
            for k in 0..n
                invariant
                    n == self.components@.len(),
                    !is_production_ext_required,
                    forall|j: int| 0 <= j < k ==> (#[trigger] self.components@[j]).path is None,
            {
                if self.components[k].path.is_some() {
                    proof {
                        assert(self.components@[k as int].path is Some);
                    }
                    return Err(ComponentsObjectError::PathSetWithoutProductionExtension);
                }
            }
        }
        for k in 0..n
            invariant
                n == self.components@.len(),
                is_production_ext_required ==> forall|j: int| 0 <= j < n ==> (#[trigger] self.components@[j]).uuid is Some,
                !is_production_ext_required ==> forall|j: int| 0 <= j < n ==> (#[trigger] self.components@[j]).path is None,
                forall|j: int| 0 <= j < k ==> id_listed(self.all_existing_object_ids@, (#[trigger] self.components@[j]).objectid),
        {
            let id = self.components[k].objectid;
            let m = self.all_existing_object_ids.len();
            let mut found = false;
            for i in 0..m
                invariant
                    m == self.all_existing_object_ids@.len(),
                    found == exists|x: int| 0 <= x < i && (#[trigger] self.all_existing_object_ids@[x]).0 == id,
            {
                if self.all_existing_object_ids[i].0 == id {
                    found = true;
                }
            }
            if !found {
                proof {
                    assert(!id_listed(self.all_existing_object_ids@, self.components@[k as int].objectid));
                }
                return Err(ComponentsObjectError::ObjectReferenceNotFoundForComponent);
            }
        }
        Ok(Components { component: self.components })
    }
}

impl ComponentBuilder {
    /// The component that [`ComponentBuilder::new`] starts from.
    pub open spec fn new_spec(object_id: ObjectId) -> Component {
        Component { objectid: object_id.0, transform: None, path: None, uuid: None }
    }
}

/// Some id of `ids` is `id`.
pub open spec fn id_listed(ids: Seq<ObjectId>, id: u32) -> bool {
    exists|x: int| 0 <= x < ids.len() && (#[trigger] ids[x]).0 == id
}

/// The error, if any, of building the components `cs` that may reference the objects
/// `ids`.
pub open spec fn components_error(cs: Seq<Component>, ids: Seq<ObjectId>, production: bool) -> Option<ComponentsObjectError> {
    if production && exists|j: int| 0 <= j < cs.len() && (#[trigger] cs[j]).uuid is None {
        Some(ComponentsObjectError::ComponentUuidNotSet)
    } else if !production && exists|j: int| 0 <= j < cs.len() && (#[trigger] cs[j]).path is Some {
        Some(ComponentsObjectError::PathSetWithoutProductionExtension)
    } else if exists|j: int| 0 <= j < cs.len() && !id_listed(ids, (#[trigger] cs[j]).objectid) {
        Some(ComponentsObjectError::ObjectReferenceNotFoundForComponent)
    } else {
        None
    }
}

impl ObjectBuilder<ComponentsBuilder> {
    /// A components object with id `object_id`, whose components may reference the
    /// objects `all_existing_object_ids`.
    pub(crate) fn new(object_id: ObjectId, all_existing_object_ids: Vec<ObjectId>, is_production_ext_required: bool) -> (r: Self)
        ensures
            r.object_spec() == fresh_object(object_id.0),
            r.entity_spec().components_spec().len() == 0,
            r.entity_spec().existing_ids() == all_existing_object_ids@,
            r.production_required() == is_production_ext_required,
    {
        Self::with_entity(ComponentsBuilder::new(all_existing_object_ids), object_id, is_production_ext_required)
    }

    /// The components object: the components are checked first, then, with the
    /// production extension, the UUID of the object.
    pub fn build(self) -> (r: Result<Object, ComponentsObjectError>)
        ensures
            match components_error(self.entity_spec().components_spec(), self.entity_spec().existing_ids(), self.production_required()) {
                Some(e) => r == Err::<Object, ComponentsObjectError>(e),
                None => if self.production_required() && self.object_spec().uuid is None {
                    r == Err::<Object, ComponentsObjectError>(ComponentsObjectError::ObjectUuidNotSet)
                } else {
                    &&& r is Ok
                    &&& r->Ok_0 == (Object { kind: r->Ok_0.kind, ..self.object_spec() })
                    &&& r->Ok_0.kind matches Some(ObjectKind::Components(c))
                    &&& c.component@ == self.entity_spec().components_spec()
                },
            },
    {
        let components = match self.entity.build_components(self.is_production_ext_required) {
            Ok(c) => c,
            Err(e) => return Err(e),
        };
        if self.is_production_ext_required && self.object.uuid.is_none() {
            return Err(ComponentsObjectError::ObjectUuidNotSet);
        }
        let mut object = self.object;
        object.kind = Some(ObjectKind::Components(components));
        Ok(object)
    }
}

// ---------------------------------------------------------------------------------------
// Boolean shape objects
// ---------------------------------------------------------------------------------------

/// What a boolean shape builder has been told.
pub struct BooleanShapeFields {
    pub base_object_id: Option<ObjectId>,
    pub operation: BooleanOperation,
    pub base_transform: Option<Transform>,
    pub base_path: Option<String>,
    pub booleans: Vec<Boolean>,
}

/// Builds a boolean shape: a base object and the operands applied to it.
pub struct BooleanShapeBuilder {
    fields: BooleanShapeFields,
}

impl View for BooleanShapeBuilder {
    type V = BooleanShapeFields;

    closed spec fn view(&self) -> BooleanShapeFields {
        self.fields
    }
}

impl BooleanShapeBuilder {
    /// A union without base object or operands.
    pub fn new() -> (r: Self)
        ensures
            r@.base_object_id is None,
            r@.operation == BooleanOperation::Union,
            r@.base_transform is None,
            r@.base_path is None,
            r@.booleans@.len() == 0,
    {
        BooleanShapeBuilder {
            fields: BooleanShapeFields {
                base_object_id: None,
                operation: BooleanOperation::Union,
                base_transform: None,
                base_path: None,
                booleans: Vec::new(),
            },
        }
    }

    /// Sets the base object and the operation applied to it.
    pub fn base_object(&mut self, object_id: ObjectId, operation: BooleanOperation) -> (r: &mut Self)
        ensures
            r@ == (BooleanShapeFields { base_object_id: Some(object_id), operation, ..old(self)@ }),
            *final(self) == *final(r),
    {
        self.fields.base_object_id = Some(object_id);
        self.fields.operation = operation;
        self
    }

    /// Sets the transform of the base object.
    pub fn base_transform(&mut self, transform: Transform) -> (r: &mut Self)
        ensures
            r@ == (BooleanShapeFields { base_transform: Some(transform), ..old(self)@ }),
            *final(self) == *final(r),
    {
        self.fields.base_transform = Some(transform);
        self
    }

    /// Sets the path of the model that holds the base object.
    pub fn base_path(&mut self, path: &str) -> (r: &mut Self)
        ensures
            r@ == (BooleanShapeFields { base_path: r@.base_path, ..old(self)@ }),
            opt_chars(r@.base_path) == Some(path@),
            *final(self) == *final(r),
    {
        self.fields.base_path = Some(path.to_owned());
        self
    }

    /// Adds an operand referencing `object_id`, with nothing else set.
    pub fn add_boolean(&mut self, object_id: ObjectId) -> (r: &mut Self)
        ensures
            r@ == (BooleanShapeFields { booleans: r@.booleans, ..old(self)@ }),
            r@.booleans@ == old(self)@.booleans@.push(Boolean { objectid: object_id.0, transform: None, path: None }),
            *final(self) == *final(r),
    {
        self.fields.booleans.push(BooleanBuilder::new(object_id).build());
        self
    }

    /// Adds an operand referencing `object_id`, configured by `f`.
    pub fn add_boolean_advanced<F>(&mut self, object_id: ObjectId, f: F) -> (r: &mut Self)
        where
            F: FnOnce(&mut BooleanBuilder),
        requires
            forall|b: &mut BooleanBuilder| call_requires(f, (b,)),
        ensures
            r@ == (BooleanShapeFields { booleans: r@.booleans, ..old(self)@ }),
            r@.booleans@.len() == old(self)@.booleans@.len() + 1,
            r@.booleans@.take(old(self)@.booleans@.len() as int) == old(self)@.booleans@,
            exists|b: &mut BooleanBuilder| {
                &&& call_ensures(f, (b,), ())
                &&& (*b)@ == (Boolean { objectid: object_id.0, transform: None, path: None })
                &&& r@.booleans@ == old(self)@.booleans@.push(mut_ref_future(b)@)
            },
            *final(self) == *final(r),
    {
        let mut builder = BooleanBuilder::new(object_id);
        let ghost fresh = builder;
        f(&mut builder);
        let ghost made = builder;
        assert(exists|w: &mut BooleanBuilder| call_ensures(f, (w,), ()) && *w == fresh && mut_ref_future(w) == made);
        let ghost before = self.fields.booleans@;
        self.fields.booleans.push(builder.build());
        proof {
            assert(self.fields.booleans@.take(before.len() as int) =~= before);
        }
        self
    }

    /// The boolean shape: a missing base object is reported first, then a shape
    /// without operands.
    pub fn build_boolean_shape(self) -> (r: Result<BooleanShape, BooleanShapeError>)
        ensures
            self@.base_object_id is None ==> r == Err::<BooleanShape, BooleanShapeError>(BooleanShapeError::BaseObjectNotSet),
            self@.base_object_id is Some && self@.booleans@.len() == 0 ==> r == Err::<BooleanShape, BooleanShapeError>(
                BooleanShapeError::NoBooleanOperands,
            ),
            self@.base_object_id is Some && self@.booleans@.len() > 0 ==> r == Ok::<BooleanShape, BooleanShapeError>(
                BooleanShape {
                    objectid: self@.base_object_id.unwrap().0,
                    operation: self@.operation,
                    transform: self@.base_transform,
                    path: self@.base_path,
                    booleans: self@.booleans,
                },
            ),
    {
        let f = self.fields;
        let base = match f.base_object_id {
            Some(b) => b,
            None => return Err(BooleanShapeError::BaseObjectNotSet),
        };
        if f.booleans.len() == 0 {
            return Err(BooleanShapeError::NoBooleanOperands);
        }
        Ok(
            BooleanShape {
                objectid: base.0,
                operation: f.operation,
                transform: f.base_transform,
                path: f.base_path,
                booleans: f.booleans,
            },
        )
    }
}

impl ObjectBuilder<BooleanShapeBuilder> {
    /// A boolean shape object with id `object_id` and nothing set.
    pub(crate) fn new(object_id: ObjectId, is_production_ext_required: bool) -> (r: Self)
        ensures
            r.object_spec() == fresh_object(object_id.0),
            r.entity_spec()@.base_object_id is None,
            r.entity_spec()@.operation == BooleanOperation::Union,
            r.entity_spec()@.base_transform is None,
            r.entity_spec()@.base_path is None,
            r.entity_spec()@.booleans@.len() == 0,
            r.production_required() == is_production_ext_required,
    {
        Self::with_entity(BooleanShapeBuilder::new(), object_id, is_production_ext_required)
    }

    /// The boolean shape object: the shape is checked first, then, with the production
    /// extension, the UUID of the object.
    pub fn build(self) -> (r: Result<Object, BooleanShapeError>)
        ensures
            self.entity_spec()@.base_object_id is None ==> r == Err::<Object, BooleanShapeError>(BooleanShapeError::BaseObjectNotSet),
            self.entity_spec()@.base_object_id is Some && self.entity_spec()@.booleans@.len() == 0 ==> r == Err::<Object, BooleanShapeError>(
                BooleanShapeError::NoBooleanOperands,
            ),
            self.entity_spec()@.base_object_id is Some && self.entity_spec()@.booleans@.len() > 0 ==> {
                if self.production_required() && self.object_spec().uuid is None {
                    r == Err::<Object, BooleanShapeError>(BooleanShapeError::ObjectUuidNotSet)
                } else {
                    r == Ok::<Object, BooleanShapeError>(
                        Object {
                            kind: Some(
                                ObjectKind::BooleanShape(
                                    BooleanShape {
                                        objectid: self.entity_spec()@.base_object_id.unwrap().0,
                                        operation: self.entity_spec()@.operation,
                                        transform: self.entity_spec()@.base_transform,
                                        path: self.entity_spec()@.base_path,
                                        booleans: self.entity_spec()@.booleans,
                                    },
                                ),
                            ),
                            ..self.object_spec()
                        },
                    )
                }
            },
    {
        let shape = match self.entity.build_boolean_shape() {
            Ok(s) => s,
            Err(e) => return Err(e),
        };
        if self.is_production_ext_required && self.object.uuid.is_none() {
            return Err(BooleanShapeError::ObjectUuidNotSet);
        }
        let mut object = self.object;
        object.kind = Some(ObjectKind::BooleanShape(shape));
        Ok(object)
    }
}

} // verus!
