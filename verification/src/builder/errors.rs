//! The errors of the builders.

use vstd::prelude::*;

verus! {

/// Errors of building a model.
#[derive(Debug, Clone, Copy, PartialEq, Eq, Structural)]
pub enum ModelError {
    /// A root model needs a build, and build items need one.
    BuildItemNotSet,
    /// A model that is not the root cannot have a build.
    BuildOnlyAllowedInRootModel,
    /// The build could not be made.
    BuildError(BuildError),
    /// A build item could not be made.
    ItemError(ItemError),
}

/// Errors of requiring the production extension.
#[derive(Debug, Clone, Copy, PartialEq, Eq, Structural)]
pub enum ProductionExtensionError {
    /// An object has no UUID.
    ObjectUuidNotSet,
    /// A component has no UUID.
    ComponentUuidNotSet,
    /// A build item has no UUID.
    ItemUuidNotSet,
    /// The build has no UUID.
    BuildUuidNotSet,
    /// A component has a path without the production extension.
    PathUsedOnComponent,
    /// A build item has a path without the production extension.
    PathUsedOnItem,
}

/// Errors of building the build.
#[derive(Debug, Clone, Copy, PartialEq, Eq, Structural)]
pub enum BuildError {
    /// The production extension is required and the build has no UUID.
    BuildUuidNotSet,
}

/// Errors of building a build item.
#[derive(Debug, Clone, Copy, PartialEq, Eq, Structural)]
pub enum ItemError {
    /// The item has a path without the production extension.
    ItemPathSetWithoutProductionExtension,
    /// The production extension is required and the item has no UUID.
    ItemUuidNotSet,
}

/// Errors of building a 2D texture.
#[derive(Debug, Clone, Copy, PartialEq, Eq, Structural)]
pub enum Texture2DError {
    PathNotSet,
    ContentTypeNotSet,
}

/// Errors of building a 2D texture group.
#[derive(Debug, Clone, Copy, PartialEq, Eq, Structural)]
pub enum Texture2DGroupError {
    TexIdNotSet,
}

/// Errors of building composite materials.
#[derive(Debug, Clone, Copy, PartialEq, Eq, Structural)]
pub enum CompositeMaterialsError {
    MatIdNotSet,
    MatIndicesEmpty,
}

/// Errors of building multi-properties.
#[derive(Debug, Clone, Copy, PartialEq, Eq, Structural)]
pub enum MultiPropertiesError {
    PidsEmpty,
}

/// Errors of building a 2D displacement map.
#[derive(Debug, Clone, Copy, PartialEq, Eq, Structural)]
pub enum Displacement2DError {
    PathNotSet,
}

/// Errors of building a 2D displacement group.
#[derive(Debug, Clone, Copy, PartialEq, Eq, Structural)]
pub enum Disp2DGroupError {
    DispIdNotSet,
    NormVectorGroupIdNotSet,
    HeightNotSet,
}

/// Errors of building a mesh object.
#[derive(Debug, Clone, Copy, PartialEq, Eq, Structural)]
pub enum MeshObjectError {
    /// The production extension is required and the object has no UUID.
    ObjectUuidNotSet,
}

/// Errors of building a displacement mesh object.
#[derive(Debug, Clone, Copy, PartialEq, Eq, Structural)]
pub enum DisplacementMeshObjectError {
    /// The production extension is required and the object has no UUID.
    ObjectUuidNotSet,
}

/// Errors of building a components object.
#[derive(Debug, Clone, Copy, PartialEq, Eq, Structural)]
pub enum ComponentsObjectError {
    /// The production extension is required and a component has no UUID.
    ComponentUuidNotSet,
    /// A component has a path without the production extension.
    PathSetWithoutProductionExtension,
    /// A component references an object that did not exist when the builder was made.
    ObjectReferenceNotFoundForComponent,
    /// The production extension is required and the object has no UUID.
    ObjectUuidNotSet,
}

/// Errors of building a boolean shape object.
#[derive(Debug, Clone, Copy, PartialEq, Eq, Structural)]
pub enum BooleanShapeError {
    BaseObjectNotSet,
    NoBooleanOperands,
    ObjectUuidNotSet,
}

/// Errors of building a slice stack.
#[derive(Debug, Clone, Copy, PartialEq, Eq, Structural)]
pub enum SliceStackBuilderError {
    BothSliceAndSliceRefCannotBeSet,
}

} // verus!
