//! The resources of a model.

use vstd::prelude::*;

use crate::domain::displacement::{Disp2DGroup, Displacement2D, NormVectorGroup};
use crate::domain::material::{
    ColorGroup, CompositeMaterials, MultiProperties, Texture2D, Texture2DGroup,
};
use crate::domain::object::Object;
use crate::domain::slice::SliceStack;
use crate::types::ResourceId;

verus! {

/// All resources of a model.
#[derive(Debug, Clone, PartialEq, Eq)]
pub struct Resources {
    pub object: Vec<Object>,
    pub basematerials: Vec<BaseMaterials>,
    pub slicestack: Vec<SliceStack>,
    pub colorgroup: Vec<ColorGroup>,
    pub texture2dgroup: Vec<Texture2DGroup>,
    pub texture2d: Vec<Texture2D>,
    pub compositematerials: Vec<CompositeMaterials>,
    pub multiproperties: Vec<MultiProperties>,
    pub displacement2d: Vec<Displacement2D>,
    pub normvectorgroup: Vec<NormVectorGroup>,
    pub disp2dgroup: Vec<Disp2DGroup>,
}

impl Resources {
    /// Resources with nothing in them.
    pub fn empty() -> (r: Self)
        ensures
            r.object@.len() == 0,
            r.basematerials@.len() == 0,
            r.slicestack@.len() == 0,
            r.colorgroup@.len() == 0,
            r.texture2dgroup@.len() == 0,
            r.texture2d@.len() == 0,
            r.compositematerials@.len() == 0,
            r.multiproperties@.len() == 0,
            r.displacement2d@.len() == 0,
            r.normvectorgroup@.len() == 0,
            r.disp2dgroup@.len() == 0,
    {
        Resources {
            object: Vec::new(),
            basematerials: Vec::new(),
            slicestack: Vec::new(),
            colorgroup: Vec::new(),
            texture2dgroup: Vec::new(),
            texture2d: Vec::new(),
            compositematerials: Vec::new(),
            multiproperties: Vec::new(),
            displacement2d: Vec::new(),
            normvectorgroup: Vec::new(),
            disp2dgroup: Vec::new(),
        }
    }
}

/// A group of named base materials.
#[derive(Debug, Clone, PartialEq, Eq)]
pub struct BaseMaterials {
    pub id: ResourceId,
    pub base: Vec<Base>,
}

/// A base material with its display color.
#[derive(Debug, Clone, PartialEq, Eq)]
pub struct Base {
    pub name: String,
    pub displaycolor: String,
}

} // verus!
