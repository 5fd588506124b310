//! A 3MF package: the root model and the other parts of the archive, each keyed by its
//! path, with the relationships and content types that tie them together.

use vstd::prelude::*;

use crate::content_types::{ContentTypes, DefaultContentTypeEnum, DefaultContentTypes};
use crate::domain::model::Model;
use crate::namespaces::XmlNamespace;
use crate::part_map::PartMap;
use crate::relationship::{Relationship, RelationshipType, Relationships};
use crate::text::{opt_str_chars, str_eq};
use crate::thumbnail_handle::{format_of_ext, ImageFormat, ImageFormatSpec, ThumbnailHandle};

verus! {

/// The key under which the namespaces of the root model are kept.
pub open spec fn root_model_key() -> Seq<char> {
    "root model"@
}

/// The key of the namespaces of the model at `model_path`, the root model where absent.
pub open spec fn namespaces_key(model_path: Option<Seq<char>>) -> Seq<char> {
    match model_path {
        Some(p) => p,
        None => root_model_key(),
    }
}

/// A copy of a namespace declaration.
pub fn clone_namespace(n: &XmlNamespace) -> (r: XmlNamespace)
    ensures
        r == *n,
{
    XmlNamespace {
        prefix: match &n.prefix {
            Some(p) => Some(p.clone()),
            None => None,
        },
        uri: n.uri.clone(),
    }
}

/// A copy of a list of namespace declarations.
pub fn clone_namespaces(v: &Vec<XmlNamespace>) -> (r: Vec<XmlNamespace>)
    ensures
        r@ == v@,
{
    let mut r: Vec<XmlNamespace> = Vec::new();
    let n = v.len();
    for i in 0..n
        invariant
            n == v@.len(),
            r@ == v@.take(i as int),
    {
        r.push(clone_namespace(&v[i]));
        proof {
            assert(v@.take(i + 1) =~= v@.take(i as int).push(v@[i as int]));
        }
    }
    proof {
        assert(v@.take(n as int) =~= v@);
    }
    r
}

/// A 3MF package. The parts of the archive other than the root model are kept in maps
/// keyed by their path in the archive.
pub struct ThreemfPackage {
    /// The root model.
    pub root: Model,
    /// The other models, keyed by path.
    pub sub_models: PartMap<Model>,
    /// The thumbnails, keyed by path.
    pub thumbnails: PartMap<ThumbnailHandle>,
    /// The bytes of parts reached through relationships of unknown type, keyed by path.
    pub unknown_parts: PartMap<Vec<u8>>,
    /// The relationship parts, keyed by path.
    pub relationships: PartMap<Relationships>,
    /// The default content types of the package.
    pub content_types: ContentTypes,
    /// The namespaces declared on each model when the package was read, keyed by the
    /// model's path, the root model's under [`root_model_key`].
    pub namespaces: PartMap<Vec<XmlNamespace>>,
}

impl ThreemfPackage {
    /// The namespaces declared on each model read from an archive, keyed by the model's
    /// path, the root model's under [`root_model_key`].
    pub open spec fn namespaces_spec(&self) -> Map<Seq<char>, Vec<XmlNamespace>> {
        self.namespaces@
    }

    /// A package of the given parts, with no recorded namespaces.
    pub fn new(
        root: Model,
        sub_models: PartMap<Model>,
        thumbnails: PartMap<ThumbnailHandle>,
        unknown_parts: PartMap<Vec<u8>>,
        relationships: PartMap<Relationships>,
        content_types: ContentTypes,
    ) -> (r: Self)
        ensures
            r.root == root,
            r.sub_models == sub_models,
            r.thumbnails == thumbnails,
            r.unknown_parts == unknown_parts,
            r.relationships == relationships,
            r.content_types == content_types,
            r.namespaces_spec() == Map::<Seq<char>, Vec<XmlNamespace>>::empty(),
    {
        ThreemfPackage {
            root,
            sub_models,
            thumbnails,
            unknown_parts,
            relationships,
            content_types,
            namespaces: PartMap::new(),
        }
    }

    /// A package of the given parts and namespaces.
    pub fn new_with_namespaces_map(
        root: Model,
        sub_models: PartMap<Model>,
        thumbnails: PartMap<ThumbnailHandle>,
        unknown_parts: PartMap<Vec<u8>>,
        relationships: PartMap<Relationships>,
        content_types: ContentTypes,
        namespaces: PartMap<Vec<XmlNamespace>>,
    ) -> (r: Self)
        ensures
            r.root == root,
            r.sub_models == sub_models,
            r.thumbnails == thumbnails,
            r.unknown_parts == unknown_parts,
            r.relationships == relationships,
            r.content_types == content_types,
            r.namespaces_spec() == namespaces@,
    {
        ThreemfPackage {
            root,
            sub_models,
            thumbnails,
            unknown_parts,
            relationships,
            content_types,
            namespaces,
        }
    }

    /// The namespaces declared on the model at `model_path` (the root model where
    /// `None`) when the package was read; `None` where none were recorded.
    pub fn get_namespaces_on_model(&self, model_path: Option<&str>) -> (r: Option<Vec<XmlNamespace>>)
        ensures
            match r {
                Some(v) => self.namespaces_spec().contains_key(namespaces_key(opt_str_chars(model_path)))
                    && v@ == self.namespaces_spec()[namespaces_key(opt_str_chars(model_path))]@,
                None => !self.namespaces_spec().contains_key(namespaces_key(opt_str_chars(model_path))),
            },
    {
        let path = match model_path {
            Some(p) => p,
            None => "root model",
        };
        match self.namespaces.get(path) {
            Some(v) => Some(clone_namespaces(v)),
            None => None,
        }
    }

    /// The package of a single root model, with the root relationship part
    /// `_rels/.rels` pointing at `3D/3dmodel.model` and the content types of models and
    /// relationships.
    pub fn from_model(model: Model) -> (r: Self)
        ensures
            r.root == model,
            r.sub_models@ == Map::<Seq<char>, Model>::empty(),
            r.thumbnails@ == Map::<Seq<char>, ThumbnailHandle>::empty(),
            r.unknown_parts@ == Map::<Seq<char>, Vec<u8>>::empty(),
            r.relationships@.dom() == set!["_rels/.rels"@],
            r.relationships@["_rels/.rels"@].relationships@.len() == 1,
            r.relationships@["_rels/.rels"@].relationships@[0].id@ == "rel0"@,
            r.relationships@["_rels/.rels"@].relationships@[0].target@ == "3D/3dmodel.model"@,
            r.relationships@["_rels/.rels"@].relationships@[0].relationship_type is Model,
            r.content_types.defaults@.len() == 2,
            r.content_types.defaults@[0].extension@ == "model"@,
            r.content_types.defaults@[0].content_type is Model,
            r.content_types.defaults@[1].extension@ == "rels"@,
            r.content_types.defaults@[1].content_type is Relationship,
            r.namespaces_spec() == Map::<Seq<char>, Vec<XmlNamespace>>::empty(),
    {
        let mut rels: PartMap<Relationships> = PartMap::new();
        let rel = Relationship {
            id: String::from_str("rel0"),
            target: String::from_str("3D/3dmodel.model"),
            relationship_type: RelationshipType::Model,
        };
        let mut list: Vec<Relationship> = Vec::new();
        list.push(rel);
        rels.insert(String::from_str("_rels/.rels"), Relationships { relationships: list });
        proof {
            assert(rels@.dom() =~= set!["_rels/.rels"@]);
        }
        let mut defaults: Vec<DefaultContentTypes> = Vec::new();
        defaults.push(
            DefaultContentTypes {
                extension: String::from_str("model"),
                content_type: DefaultContentTypeEnum::Model,
            },
        );
        defaults.push(
            DefaultContentTypes {
                extension: String::from_str("rels"),
                content_type: DefaultContentTypeEnum::Relationship,
            },
        );
        Self::new(
            model,
            PartMap::new(),
            PartMap::new(),
            PartMap::new(),
            rels,
            ContentTypes { defaults },
        )
    }
}

/// The format of a thumbnail read from a file with extension `ext`; a file without an
/// extension has an unknown format named by the empty string.
pub open spec fn thumbnail_format(ext: Option<Seq<char>>) -> ImageFormatSpec {
    match ext {
        Some(e) => format_of_ext(e),
        None => ImageFormatSpec::Unknown(Seq::empty()),
    }
}

/// Collects the parts of an archive, as its relationships reach them, into a package.
pub struct ThreemfPackageProcessor {
    pub root: Option<Model>,
    pub sub_models: PartMap<Model>,
    pub thumbnails: PartMap<ThumbnailHandle>,
    pub unknown_parts: PartMap<Vec<u8>>,
    pub relationships: PartMap<Relationships>,
    pub content_types: ContentTypes,
    pub namespaces_map: PartMap<Vec<XmlNamespace>>,
}

impl ThreemfPackageProcessor {
    /// A processor with the package's content types and relationship parts, and no
    /// part collected yet.
    pub fn new(content_types: ContentTypes, relationships: PartMap<Relationships>) -> (r: Self)
        ensures
            r.root is None,
            r.sub_models@ == Map::<Seq<char>, Model>::empty(),
            r.thumbnails@ == Map::<Seq<char>, ThumbnailHandle>::empty(),
            r.unknown_parts@ == Map::<Seq<char>, Vec<u8>>::empty(),
            r.namespaces_map@ == Map::<Seq<char>, Vec<XmlNamespace>>::empty(),
            r.relationships == relationships,
            r.content_types == content_types,
    {
        ThreemfPackageProcessor {
            root: None,
            sub_models: PartMap::new(),
            thumbnails: PartMap::new(),
            unknown_parts: PartMap::new(),
            relationships,
            content_types,
            namespaces_map: PartMap::new(),
        }
    }

    /// Records the thumbnail at `target`, read from a file whose extension is
    /// `extension`.
    pub fn add_thumbnail(&mut self, target: String, extension: Option<&str>, data: Vec<u8>)
        ensures
            final(self).thumbnails@ == old(self).thumbnails@.insert(target@, final(self).thumbnails@[target@]),
            final(self).thumbnails@[target@].data == data,
            final(self).thumbnails@[target@].format@ == thumbnail_format(opt_str_chars(extension)),
            final(self).root == old(self).root,
            final(self).sub_models == old(self).sub_models,
            final(self).unknown_parts == old(self).unknown_parts,
            final(self).relationships == old(self).relationships,
            final(self).content_types == old(self).content_types,
            final(self).namespaces_map == old(self).namespaces_map,
    {
        let format = match extension {
            Some(ext) => ImageFormat::from_ext(ext),
            None => ImageFormat::Unknown(String::new()),
        };
        self.thumbnails.insert(target, ThumbnailHandle { data, format });
    }

    /// Records the model at `target` with the namespaces declared on it: as the root
    /// model where `target` is `root_model_path`, else as a sub-model.
    pub fn add_model(&mut self, target: String, root_model_path: &str, model: Model, namespaces: Vec<XmlNamespace>)
        ensures
            target@ == root_model_path@ ==> {
                &&& final(self).root == Some(model)
                &&& final(self).sub_models == old(self).sub_models
                &&& final(self).namespaces_map@ == old(self).namespaces_map@.insert(root_model_key(), namespaces)
            },
            target@ != root_model_path@ ==> {
                &&& final(self).root == old(self).root
                &&& final(self).sub_models@ == old(self).sub_models@.insert(target@, model)
                &&& final(self).namespaces_map@ == old(self).namespaces_map@.insert(target@, namespaces)
            },
            final(self).thumbnails == old(self).thumbnails,
            final(self).unknown_parts == old(self).unknown_parts,
            final(self).relationships == old(self).relationships,
            final(self).content_types == old(self).content_types,
    {
        if str_eq(target.as_str(), root_model_path) {
            self.root = Some(model);
            self.namespaces_map.insert(String::from_str("root model"), namespaces);
        } else {
            let key = target.clone();
            self.sub_models.insert(target, model);
            self.namespaces_map.insert(key, namespaces);
        }
    }

    /// Records the bytes of the part at `target`, reached through a relationship of
    /// unknown type.
    pub fn add_unknown_part(&mut self, target: String, data: Vec<u8>)
        ensures
            final(self).unknown_parts@ == old(self).unknown_parts@.insert(target@, data),
            final(self).root == old(self).root,
            final(self).sub_models == old(self).sub_models,
            final(self).thumbnails == old(self).thumbnails,
            final(self).relationships == old(self).relationships,
            final(self).content_types == old(self).content_types,
            final(self).namespaces_map == old(self).namespaces_map,
    {
        self.unknown_parts.insert(target, data);
    }

    /// True once the root model has been recorded.
    pub fn has_root(&self) -> (r: bool)
        ensures
            r == self.root is Some,
    {
        self.root.is_some()
    }

    /// The package of the collected parts; the root model must have been recorded.
    pub fn into_threemf_package(self) -> (r: ThreemfPackage)
        requires
            self.root is Some,
        ensures
            Some(r.root) == self.root,
            r.sub_models == self.sub_models,
            r.thumbnails == self.thumbnails,
            r.unknown_parts == self.unknown_parts,
            r.relationships == self.relationships,
            r.content_types == self.content_types,
            r.namespaces_spec() == self.namespaces_map@,
    {
        let root = self.root.unwrap();
        ThreemfPackage::new_with_namespaces_map(
            root,
            self.sub_models,
            self.thumbnails,
            self.unknown_parts,
            self.relationships,
            self.content_types,
            self.namespaces_map,
        )
    }
}

} // verus!
