//! Affine transforms.

use vstd::prelude::*;

use crate::types::Double;

verus! {

/// A 4x3 affine transformation matrix as 12 values in row-major order.
#[derive(Debug, Clone, Copy, PartialEq, Eq)]
pub struct Transform(pub [Double; 12]);

} // verus!
