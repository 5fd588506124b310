//! The boolean operations extension.

use vstd::prelude::*;

use crate::domain::transform::Transform;

verus! {

/// The operation that combines the operands with the base object.
#[derive(Debug, Clone, Copy, PartialEq, Eq, Structural)]
pub enum BooleanOperation {
    Union,
    Difference,
    Intersection,
}

/// A boolean shape: a base object combined with operand objects.
#[derive(Debug, Clone, PartialEq, Eq)]
pub struct BooleanShape {
    pub objectid: u32,
    pub operation: BooleanOperation,
    pub transform: Option<Transform>,
    pub path: Option<String>,
    pub booleans: Vec<Boolean>,
}

/// An operand of a boolean shape.
#[derive(Debug, Clone, PartialEq, Eq)]
pub struct Boolean {
    pub objectid: u32,
    pub transform: Option<Transform>,
    pub path: Option<String>,
}

} // verus!
