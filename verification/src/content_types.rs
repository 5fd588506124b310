//! The default content types of a package, keyed by file extension.

use vstd::prelude::*;

use crate::text::str_eq;

verus! {

/// A content type that a package gives to all parts with one extension.
#[derive(Debug, Clone, PartialEq, Eq)]
pub enum DefaultContentTypeEnum {
    Model,
    Relationship,
    ImagePng,
    ImageJpeg,
    Unknown(String),
}

/// An extension and the content type of the parts that have it.
#[derive(Debug, Clone, PartialEq, Eq)]
pub struct DefaultContentTypes {
    pub extension: String,
    pub content_type: DefaultContentTypeEnum,
}

/// The content types of a package.
#[derive(Debug, Clone, PartialEq, Eq)]
pub struct ContentTypes {
    pub defaults: Vec<DefaultContentTypes>,
}

/// The extension of relationship parts: that of the first default declared with the
/// relationship content type, or `rels` where there is none.
pub open spec fn relationships_extension(defaults: Seq<DefaultContentTypes>) -> Seq<char>
    decreases defaults.len(),
{
    if defaults.len() == 0 {
        "rels"@
    } else if defaults[0].content_type is Relationship {
        defaults[0].extension@
    } else {
        relationships_extension(defaults.drop_first())
    }
}

/// The extension under which the package keeps its relationship parts.
pub fn determine_relationships_extension(content_types: &ContentTypes) -> (r: String)
    ensures
        r@ == relationships_extension(content_types.defaults@),
{
    let n = content_types.defaults.len();
    let ghost d = content_types.defaults@;
    proof {
        assert(d.skip(0) =~= d);
    }
    for i in 0..n
        invariant
            n == d.len(),
            d == content_types.defaults@,
            relationships_extension(d) == relationships_extension(d.skip(i as int)),
    {
        proof {
            assert(d.skip(i as int).drop_first() =~= d.skip(i + 1));
            assert(d.skip(i as int)[0] == d[i as int]);
        }
        if let DefaultContentTypeEnum::Relationship = content_types.defaults[i].content_type {
            return content_types.defaults[i].extension.clone();
        }
    }
    proof {
        assert(d.skip(n as int).len() == 0);
    }
    String::from_str("rels")
}

/// The path of the root relationship part of a package whose relationship parts have
/// extension `rels_ext`.
pub fn root_relationships_filename(rels_ext: &str) -> (r: String)
    ensures
        r@ == "_rels/."@ + rels_ext@,
{
    let mut s = String::from_str("_rels/.");
    s.append(rels_ext);
    s
}

/// The media type that a package's content types part writes for a content type.
pub open spec fn content_type_name(c: DefaultContentTypeEnum) -> Seq<char> {
    match c {
        DefaultContentTypeEnum::Model => "application/vnd.ms-package.3dmanufacturing-3dmodel+xml"@,
        DefaultContentTypeEnum::Relationship => "application/vnd.openxmlformats-package.relationships+xml"@,
        DefaultContentTypeEnum::ImagePng => "image/png"@,
        DefaultContentTypeEnum::ImageJpeg => "image/jpeg"@,
        DefaultContentTypeEnum::Unknown(s) => s@,
    }
}

impl DefaultContentTypeEnum {
    /// The media type of the content type.
    pub fn name(&self) -> (r: &str)
        ensures
            r@ == content_type_name(*self),
    {
        proof {
            reveal_strlit("application/vnd.ms-package.3dmanufacturing-3dmodel+xml");
            reveal_strlit("application/vnd.openxmlformats-package.relationships+xml");
            reveal_strlit("image/png");
            reveal_strlit("image/jpeg");
        }
        match self {
            DefaultContentTypeEnum::Model => "application/vnd.ms-package.3dmanufacturing-3dmodel+xml",
            DefaultContentTypeEnum::Relationship => "application/vnd.openxmlformats-package.relationships+xml",
            DefaultContentTypeEnum::ImagePng => "image/png",
            DefaultContentTypeEnum::ImageJpeg => "image/jpeg",
            DefaultContentTypeEnum::Unknown(s) => s.as_str(),
        }
    }

    /// The content type of media type `name`: one of the known ones, else unknown and
    /// carrying `name`. Its media type is `name` again.
    pub fn from_name(name: &str) -> (r: Self)
        ensures
            content_type_name(r) == name@,
            name@ == "application/vnd.ms-package.3dmanufacturing-3dmodel+xml"@ ==> r is Model,
            name@ == "application/vnd.openxmlformats-package.relationships+xml"@ ==> r is Relationship,
            name@ == "image/png"@ ==> r is ImagePng,
            name@ == "image/jpeg"@ ==> r is ImageJpeg,
    {
        proof {
            reveal_strlit("application/vnd.ms-package.3dmanufacturing-3dmodel+xml");
            reveal_strlit("application/vnd.openxmlformats-package.relationships+xml");
            reveal_strlit("image/png");
            reveal_strlit("image/jpeg");
            assert("image/jpeg"@.len() == 10);
            assert("image/png"@.len() == 9);
        }
        if str_eq(name, "application/vnd.ms-package.3dmanufacturing-3dmodel+xml") {
            DefaultContentTypeEnum::Model
        } else if str_eq(name, "application/vnd.openxmlformats-package.relationships+xml") {
            DefaultContentTypeEnum::Relationship
        } else if str_eq(name, "image/png") {
            DefaultContentTypeEnum::ImagePng
        } else if str_eq(name, "image/jpeg") {
            DefaultContentTypeEnum::ImageJpeg
        } else {
            DefaultContentTypeEnum::Unknown(String::from_str(name))
        }
    }
}

} // verus!
