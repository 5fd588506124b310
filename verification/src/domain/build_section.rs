//! The build: the objects to be manufactured.

use vstd::prelude::*;

use crate::domain::transform::Transform;

verus! {

/// The build section of a model.
#[derive(Debug, Clone, PartialEq, Eq)]
pub struct Build {
    pub uuid: Option<String>,
    pub item: Vec<Item>,
}

/// An object placed on the build plate.
#[derive(Debug, Clone, PartialEq, Eq)]
pub struct Item {
    pub objectid: u32,
    pub transform: Option<Transform>,
    pub partnumber: Option<String>,
    pub path: Option<String>,
    pub uuid: Option<String>,
}

} // verus!
