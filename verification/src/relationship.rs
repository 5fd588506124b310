//! The relationships of a package: which part is a model, a thumbnail or something else.

use vstd::prelude::*;

use crate::text::str_eq;

verus! {

/// What a relationship says its target part is.
#[derive(Debug, Clone, PartialEq, Eq)]
pub enum RelationshipType {
    Model,
    Thumbnail,
    Unknown(String),
}

/// A relationship from a package or a part to a target part.
#[derive(Debug, Clone, PartialEq, Eq)]
pub struct Relationship {
    pub id: String,
    pub target: String,
    pub relationship_type: RelationshipType,
}

/// The relationships of one relationship part.
#[derive(Debug, Clone, PartialEq, Eq)]
pub struct Relationships {
    pub relationships: Vec<Relationship>,
}

/// The target of the first model relationship, if there is one.
pub open spec fn first_model_target(rels: Seq<Relationship>) -> Option<Seq<char>>
    decreases rels.len(),
{
    if rels.len() == 0 {
        None
    } else if rels[0].relationship_type is Model {
        Some(rels[0].target@)
    } else {
        first_model_target(rels.drop_first())
    }
}

/// The path of the root model: the target of the first model relationship of the root
/// relationship part; `None` where it has none.
pub fn find_root_model_path(root_rels: &Relationships) -> (r: Option<String>)
    ensures
        match r {
            Some(p) => first_model_target(root_rels.relationships@) == Some(p@),
            None => first_model_target(root_rels.relationships@) is None,
        },
{
    let n = root_rels.relationships.len();
    let ghost d = root_rels.relationships@;
    proof {
        assert(d.skip(0) =~= d);
    }
    for i in 0..n
        invariant
            n == d.len(),
            d == root_rels.relationships@,
            first_model_target(d) == first_model_target(d.skip(i as int)),
    {
        proof {
            assert(d.skip(i as int).drop_first() =~= d.skip(i + 1));
            assert(d.skip(i as int)[0] == d[i as int]);
        }
        if let RelationshipType::Model = root_rels.relationships[i].relationship_type {
            return Some(root_rels.relationships[i].target.clone());
        }
    }
    proof {
        assert(d.skip(n as int).len() == 0);
    }
    None
}

/// The relationship type URI that a relationship part writes for a relationship type.
pub open spec fn relationship_type_name(t: RelationshipType) -> Seq<char> {
    match t {
        RelationshipType::Model => "http://schemas.microsoft.com/3dmanufacturing/2013/01/3dmodel"@,
        RelationshipType::Thumbnail => "http://schemas.openxmlformats.org/package/2006/relationships/metadata/thumbnail"@,
        RelationshipType::Unknown(s) => s@,
    }
}

impl RelationshipType {
    /// The type URI of the relationship type.
    pub fn name(&self) -> (r: &str)
        ensures
            r@ == relationship_type_name(*self),
    {
        proof {
            reveal_strlit("http://schemas.microsoft.com/3dmanufacturing/2013/01/3dmodel");
            reveal_strlit("http://schemas.openxmlformats.org/package/2006/relationships/metadata/thumbnail");
        }
        match self {
            RelationshipType::Model => "http://schemas.microsoft.com/3dmanufacturing/2013/01/3dmodel",
            RelationshipType::Thumbnail => "http://schemas.openxmlformats.org/package/2006/relationships/metadata/thumbnail",
            RelationshipType::Unknown(s) => s.as_str(),
        }
    }

    /// The relationship type of type URI `name`: one of the known ones, else unknown and
    /// carrying `name`. Its type URI is `name` again.
    pub fn from_name(name: &str) -> (r: Self)
        ensures
            relationship_type_name(r) == name@,
            name@ == "http://schemas.microsoft.com/3dmanufacturing/2013/01/3dmodel"@ ==> r is Model,
            name@ == "http://schemas.openxmlformats.org/package/2006/relationships/metadata/thumbnail"@ ==> r is Thumbnail,
    {
        proof {
            reveal_strlit("http://schemas.microsoft.com/3dmanufacturing/2013/01/3dmodel");
            reveal_strlit("http://schemas.openxmlformats.org/package/2006/relationships/metadata/thumbnail");
        }
        if str_eq(name, "http://schemas.microsoft.com/3dmanufacturing/2013/01/3dmodel") {
            RelationshipType::Model
        } else if str_eq(name, "http://schemas.openxmlformats.org/package/2006/relationships/metadata/thumbnail") {
            RelationshipType::Thumbnail
        } else {
            RelationshipType::Unknown(String::from_str(name))
        }
    }
}

} // verus!
