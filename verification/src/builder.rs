//! Building models programmatically: the model builder assigns object and resource ids,
//! checks the rules of the production extension, and derives the required extensions
//! from what the model uses.

pub mod errors;
pub mod ids;
pub mod leaf_builders;
pub mod geometry;
pub mod resource_builders;
pub mod object_builder;
pub mod extensions;
pub mod model_builder;
