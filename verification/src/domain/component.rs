//! Components: references from an assembly object to other objects.

use vstd::prelude::*;

use crate::domain::transform::Transform;

verus! {

/// The components of an assembly object.
#[derive(Debug, Clone, PartialEq, Eq)]
pub struct Components {
    pub component: Vec<Component>,
}

/// A reference to an object, with an optional transform, path and UUID.
#[derive(Debug, Clone, PartialEq, Eq)]
pub struct Component {
    pub objectid: u32,
    pub transform: Option<Transform>,
    pub path: Option<String>,
    pub uuid: Option<String>,
}

} // verus!
