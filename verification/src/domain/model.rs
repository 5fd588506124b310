//! The model: the root element of a 3MF model part.

use vstd::prelude::*;

use crate::domain::build_section::Build;
use crate::domain::resources::Resources;
use crate::namespaces::ThreemfNamespace;

verus! {

/// The unit of the coordinates of a model.
#[derive(Debug, Clone, Copy, PartialEq, Eq, Structural)]
pub enum Unit {
    Micron,
    Millimeter,
    Centimeter,
    Inch,
    Foot,
    Meter,
}

/// A metadata entry of a model.
#[derive(Debug, Clone, PartialEq, Eq)]
pub struct Metadata {
    pub name: String,
    pub preserve: Option<bool>,
    pub value: Option<String>,
}

/// A 3MF model.
#[derive(Debug, Clone, PartialEq, Eq)]
pub struct Model {
    pub unit: Option<Unit>,
    pub requiredextensions: Vec<ThreemfNamespace>,
    pub recommendedextensions: Vec<ThreemfNamespace>,
    pub metadata: Vec<Metadata>,
    pub resources: Resources,
    pub build: Build,
}

} // verus!
