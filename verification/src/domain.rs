//! The 3MF model as plain data: the model, its resources, objects, meshes, build,
//! and the material, slice, beam lattice, boolean and displacement extensions.

pub mod beamlattice;
pub mod boolean;
pub mod build_section;
pub mod component;
pub mod displacement;
pub mod displacement_attributes;
pub mod material;
pub mod mesh;
pub mod model;
pub mod object;
pub mod resources;
pub mod slice;
pub mod transform;
pub mod triangle_set;
