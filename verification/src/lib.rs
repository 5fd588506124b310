//! Reading, querying, validating and building 3MF (3D Manufacturing Format) models.
//!
//! The crate holds the 3MF model as plain data ([`domain`]), stable read-only views over
//! it ([`query`]), package-level queries ([`package_query`]), the validation rules
//! ([`validator`], [`validator_rules`]) and a builder that assigns identifiers and
//! derives the required extensions ([`builder`]).

pub mod types;
pub mod text;
pub mod namespaces;
pub mod xml_namespaces;
pub mod xml_scan;
pub mod used_namespaces;
pub mod domain;
pub mod query;
pub mod thumbnail_handle;
pub mod part_map;
pub mod content_types;
pub mod paths;
pub mod relationship;
pub mod package;
pub mod package_write;
pub mod package_query;
pub mod validator;
pub mod validator_rules;
pub mod builder;
pub mod laws;
pub mod thumbnail_scene;
