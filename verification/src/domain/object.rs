//! Objects: meshes, assemblies, boolean shapes and displacement meshes.

use vstd::prelude::*;

use crate::domain::boolean::BooleanShape;
use crate::domain::component::Components;
use crate::domain::displacement::DisplacementMesh;
use crate::domain::mesh::Mesh;
use crate::domain::slice::MeshResolution;
use crate::types::{OptionalResourceId, OptionalResourceIndex, ResourceId};

verus! {

/// The purpose of an object.
#[derive(Debug, Clone, Copy, PartialEq, Eq, Structural)]
pub enum ObjectType {
    Model,
    Support,
    SolidSupport,
    Surface,
    Other,
}

/// The content of an object.
#[derive(Debug, Clone, PartialEq, Eq)]
pub enum ObjectKind {
    Mesh(Mesh),
    Components(Components),
    BooleanShape(BooleanShape),
    DisplacementMesh(DisplacementMesh),
}

/// An object resource.
#[derive(Debug, Clone, PartialEq, Eq)]
pub struct Object {
    pub id: ResourceId,
    pub objecttype: Option<ObjectType>,
    pub thumbnail: Option<String>,
    pub partnumber: Option<String>,
    pub name: Option<String>,
    pub pid: OptionalResourceId,
    pub pindex: OptionalResourceIndex,
    pub uuid: Option<String>,
    pub slicestackid: OptionalResourceId,
    pub slicepath: Option<String>,
    pub meshresolution: Option<MeshResolution>,
    pub kind: Option<ObjectKind>,
}

/// The mesh of an object, if it is a mesh object.
pub open spec fn mesh_of(o: Object) -> Option<Mesh> {
    match o.kind {
        Some(ObjectKind::Mesh(m)) => Some(m),
        _ => None,
    }
}

/// The components of an object, if it is an assembly.
pub open spec fn components_of(o: Object) -> Option<Components> {
    match o.kind {
        Some(ObjectKind::Components(c)) => Some(c),
        _ => None,
    }
}

/// The boolean shape of an object, if it is one.
pub open spec fn boolean_shape_of(o: Object) -> Option<BooleanShape> {
    match o.kind {
        Some(ObjectKind::BooleanShape(b)) => Some(b),
        _ => None,
    }
}

/// The displacement mesh of an object, if it is one.
pub open spec fn displacement_mesh_of(o: Object) -> Option<DisplacementMesh> {
    match o.kind {
        Some(ObjectKind::DisplacementMesh(d)) => Some(d),
        _ => None,
    }
}

impl Object {
    /// The mesh of the object, if it is a mesh object.
    pub fn get_mesh(&self) -> (r: Option<&Mesh>)
        ensures
            match r {
                Some(m) => mesh_of(*self) == Some(*m),
                None => mesh_of(*self) is None,
            },
    {
        match &self.kind {
            Some(ObjectKind::Mesh(m)) => Some(m),
            _ => None,
        }
    }

    /// The components of the object, if it is an assembly.
    pub fn get_components_object(&self) -> (r: Option<&Components>)
        ensures
            match r {
                Some(c) => components_of(*self) == Some(*c),
                None => components_of(*self) is None,
            },
    {
        match &self.kind {
            Some(ObjectKind::Components(c)) => Some(c),
            _ => None,
        }
    }

    /// The boolean shape of the object, if it is one.
    pub fn get_boolean_shape_object(&self) -> (r: Option<&BooleanShape>)
        ensures
            match r {
                Some(b) => boolean_shape_of(*self) == Some(*b),
                None => boolean_shape_of(*self) is None,
            },
    {
        match &self.kind {
            Some(ObjectKind::BooleanShape(b)) => Some(b),
            _ => None,
        }
    }

    /// The displacement mesh of the object, if it is one.
    pub fn get_displacement_mesh(&self) -> (r: Option<&DisplacementMesh>)
        ensures
            match r {
                Some(d) => displacement_mesh_of(*self) == Some(*d),
                None => displacement_mesh_of(*self) is None,
            },
    {
        match &self.kind {
            Some(ObjectKind::DisplacementMesh(d)) => Some(d),
            _ => None,
        }
    }
}

} // verus!
