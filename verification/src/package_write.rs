//! Which files an archive written from a package holds, in which order, and where each
//! one's content comes from. The archive itself is written by the caller.

use vstd::prelude::*;

use crate::package::ThreemfPackage;
use crate::paths::{strip_leading_slash, try_strip_leading_slash};
use crate::relationship::{Relationship, RelationshipType, Relationships};
use crate::text::str_eq;

verus! {

/// The archive name of the content types part.
pub open spec fn content_types_filename() -> Seq<char> {
    "[Content_Types].xml"@
}

/// The path of the root relationship part.
pub open spec fn root_rels_path() -> Seq<char> {
    "_rels/.rels"@
}

/// Where the content of a file of the archive comes from.
#[derive(Debug, Clone, PartialEq, Eq)]
pub enum PartSource {
    /// The package's content types.
    ContentTypes,
    /// The relationship part kept under this path.
    Relationships(String),
    /// The root model.
    RootModel,
    /// The sub-model kept under this path.
    SubModel(String),
    /// The thumbnail kept under this path.
    Thumbnail(String),
    /// The bytes of the unknown part kept under this path.
    UnknownPart(String),
}

/// [`PartSource`] with its paths as character sequences.
pub enum PartSourceSpec {
    ContentTypes,
    Relationships(Seq<char>),
    RootModel,
    SubModel(Seq<char>),
    Thumbnail(Seq<char>),
    UnknownPart(Seq<char>),
}

impl View for PartSource {
    type V = PartSourceSpec;

    open spec fn view(&self) -> PartSourceSpec {
        match self {
            PartSource::ContentTypes => PartSourceSpec::ContentTypes,
            PartSource::Relationships(p) => PartSourceSpec::Relationships(p@),
            PartSource::RootModel => PartSourceSpec::RootModel,
            PartSource::SubModel(p) => PartSourceSpec::SubModel(p@),
            PartSource::Thumbnail(p) => PartSourceSpec::Thumbnail(p@),
            PartSource::UnknownPart(p) => PartSourceSpec::UnknownPart(p@),
        }
    }
}

/// One file of the archive: its name in the archive and where its content comes from.
#[derive(Debug, Clone, PartialEq, Eq)]
pub struct PartWrite {
    pub filename: String,
    pub source: PartSource,
}

impl View for PartWrite {
    type V = (Seq<char>, PartSourceSpec);

    open spec fn view(&self) -> (Seq<char>, PartSourceSpec) {
        (self.filename@, self.source@)
    }
}

/// A relationship whose target the package does not hold.
#[derive(Debug, Clone, PartialEq, Eq)]
pub enum PackageWriteError {
    /// No sub-model is kept under the target of a model relationship.
    MissingModel(String),
    /// No thumbnail is kept under the target of a thumbnail relationship.
    MissingThumbnail(String),
    /// No unknown part is kept under the target of a relationship of unknown type.
    MissingData(String),
}

/// [`PackageWriteError`] with its target as a character sequence.
pub enum PackageWriteErrorSpec {
    MissingModel(Seq<char>),
    MissingThumbnail(Seq<char>),
    MissingData(Seq<char>),
}

impl View for PackageWriteError {
    type V = PackageWriteErrorSpec;

    open spec fn view(&self) -> PackageWriteErrorSpec {
        match self {
            PackageWriteError::MissingModel(t) => PackageWriteErrorSpec::MissingModel(t@),
            PackageWriteError::MissingThumbnail(t) => PackageWriteErrorSpec::MissingThumbnail(t@),
            PackageWriteError::MissingData(t) => PackageWriteErrorSpec::MissingData(t@),
        }
    }
}

/// The text of a write error.
pub open spec fn write_error_message(e: PackageWriteErrorSpec) -> Seq<char> {
    match e {
        PackageWriteErrorSpec::MissingModel(t) => "No model found for relationship target "@ + t,
        PackageWriteErrorSpec::MissingThumbnail(t) => "No thumbnail image found for relationship target "@ + t,
        PackageWriteErrorSpec::MissingData(t) => "No data found for relationship target "@ + t,
    }
}

impl PackageWriteError {
    /// The text of the error.
    pub fn message(&self) -> (r: String)
        ensures
            r@ == write_error_message(self@),
    {
        let (mut s, t) = match self {
            PackageWriteError::MissingModel(t) => (String::from_str("No model found for relationship target "), t),
            PackageWriteError::MissingThumbnail(t) => (
                String::from_str("No thumbnail image found for relationship target "),
                t,
            ),
            PackageWriteError::MissingData(t) => (String::from_str("No data found for relationship target "), t),
        };
        proof {
            reveal_strlit("No model found for relationship target ");
            reveal_strlit("No thumbnail image found for relationship target ");
            reveal_strlit("No data found for relationship target ");
        }
        s.append(t.as_str());
        s
    }
}

/// The file written for relationship `rel` of the relationship part at `rels_path`: its
/// target without a leading `/`, with content from the root model (for a model
/// relationship of the root relationship part), else from the part of the relationship's
/// kind kept under the target; an error where the package keeps no such part.
pub open spec fn relationship_write(
    pkg: ThreemfPackage,
    rels_path: Seq<char>,
    rel: Relationship,
) -> Result<(Seq<char>, PartSourceSpec), PackageWriteErrorSpec> {
    let filename = strip_leading_slash(rel.target@);
    match rel.relationship_type {
        RelationshipType::Model => {
            if rels_path == root_rels_path() {
                Ok((filename, PartSourceSpec::RootModel))
            } else if pkg.sub_models@.contains_key(rel.target@) {
                Ok((filename, PartSourceSpec::SubModel(rel.target@)))
            } else {
                Err(PackageWriteErrorSpec::MissingModel(rel.target@))
            }
        },
        RelationshipType::Thumbnail => {
            if pkg.thumbnails@.contains_key(rel.target@) {
                Ok((filename, PartSourceSpec::Thumbnail(rel.target@)))
            } else {
                Err(PackageWriteErrorSpec::MissingThumbnail(rel.target@))
            }
        },
        RelationshipType::Unknown(_) => {
            if pkg.unknown_parts@.contains_key(rel.target@) {
                Ok((filename, PartSourceSpec::UnknownPart(rel.target@)))
            } else {
                Err(PackageWriteErrorSpec::MissingData(rel.target@))
            }
        },
    }
}

/// The files written for the relationships `rels`, in order; the error of the first
/// relationship that has one.
pub open spec fn relationship_writes(
    pkg: ThreemfPackage,
    rels_path: Seq<char>,
    rels: Seq<Relationship>,
) -> Result<Seq<(Seq<char>, PartSourceSpec)>, PackageWriteErrorSpec>
    decreases rels.len(),
{
    if rels.len() == 0 {
        Ok(Seq::empty())
    } else {
        match relationship_writes(pkg, rels_path, rels.drop_last()) {
            Err(e) => Err(e),
            Ok(ws) => match relationship_write(pkg, rels_path, rels.last()) {
                Err(e) => Err(e),
                Ok(w) => Ok(ws.push(w)),
            },
        }
    }
}

/// The files of the archive: the content types part, then for each relationship part
/// in `entries`, in order, the relationship part itself under its path followed by the
/// files of its relationships; the error of the first relationship that has one.
pub open spec fn package_writes(
    pkg: ThreemfPackage,
    entries: Seq<(String, Relationships)>,
) -> Result<Seq<(Seq<char>, PartSourceSpec)>, PackageWriteErrorSpec>
    decreases entries.len(),
{
    if entries.len() == 0 {
        Ok(seq![(content_types_filename(), PartSourceSpec::ContentTypes)])
    } else {
        match package_writes(pkg, entries.drop_last()) {
            Err(e) => Err(e),
            Ok(ws) => {
                let path = entries.last().0@;
                match relationship_writes(pkg, path, entries.last().1.relationships@) {
                    Err(e) => Err(e),
                    Ok(rws) => Ok(ws.push((path, PartSourceSpec::Relationships(path))) + rws),
                }
            },
        }
    }
}

/// The views of a list of files.
pub open spec fn writes_view(v: Seq<PartWrite>) -> Seq<(Seq<char>, PartSourceSpec)> {
    v.map_values(|w: PartWrite| w@)
}

impl ThreemfPackage {
    /// The file written for relationship `rel` of the relationship part at `rels_path`.
    pub fn relationship_write(&self, rels_path: &str, rel: &Relationship) -> (r: Result<PartWrite, PackageWriteError>)
        ensures
            match r {
                Ok(w) => relationship_write(*self, rels_path@, *rel) == Ok::<_, PackageWriteErrorSpec>(w@),
                Err(e) => relationship_write(*self, rels_path@, *rel) == Err::<(Seq<char>, PartSourceSpec), _>(e@),
            },
    {
        let filename = String::from_str(try_strip_leading_slash(rel.target.as_str()));
        match &rel.relationship_type {
            RelationshipType::Model => {
                proof {
                    reveal_strlit("_rels/.rels");
                }
                if str_eq(rels_path, "_rels/.rels") {
                    Ok(PartWrite { filename, source: PartSource::RootModel })
                } else if self.sub_models.contains_key(rel.target.as_str()) {
                    Ok(PartWrite { filename, source: PartSource::SubModel(rel.target.clone()) })
                } else {
                    Err(PackageWriteError::MissingModel(rel.target.clone()))
                }
            },
            RelationshipType::Thumbnail => {
                if self.thumbnails.contains_key(rel.target.as_str()) {
                    Ok(PartWrite { filename, source: PartSource::Thumbnail(rel.target.clone()) })
                } else {
                    Err(PackageWriteError::MissingThumbnail(rel.target.clone()))
                }
            },
            RelationshipType::Unknown(_) => {
                if self.unknown_parts.contains_key(rel.target.as_str()) {
                    Ok(PartWrite { filename, source: PartSource::UnknownPart(rel.target.clone()) })
                } else {
                    Err(PackageWriteError::MissingData(rel.target.clone()))
                }
            },
        }
    }

    /// The files of the archive written from the package, in the order in which they
    /// are written: the content types part `[Content_Types].xml`, then each relationship
    /// part followed by the targets of its relationships. Fails on the first
    /// relationship whose target the package does not hold.
    pub fn part_writes(&self) -> (r: Result<Vec<PartWrite>, PackageWriteError>)
        ensures
            match r {
                Ok(v) => package_writes(*self, self.relationships.entries_spec()) == Ok::<_, PackageWriteErrorSpec>(
                    writes_view(v@),
                ),
                Err(e) => package_writes(*self, self.relationships.entries_spec()) == Err::<
                    Seq<(Seq<char>, PartSourceSpec)>,
                    _,
                >(e@),
            },
    {
        let entries = self.relationships.entries();
        let ghost es = entries@;
        let mut out: Vec<PartWrite> = Vec::new();
        out.push(PartWrite { filename: String::from_str("[Content_Types].xml"), source: PartSource::ContentTypes });
        proof {
            reveal_strlit("[Content_Types].xml");
            assert(es.take(0).len() == 0);
            assert(writes_view(out@) =~= seq![(content_types_filename(), PartSourceSpec::ContentTypes)]);
        }
        let n = entries.len();
        for i in 0..n
            invariant
                n == es.len(),
                es == entries@,
                es == self.relationships.entries_spec(),
                package_writes(*self, es.take(i as int)) == Ok::<_, PackageWriteErrorSpec>(writes_view(out@)),
        {
            let path = &entries[i].0;
            let rels = &entries[i].1.relationships;
            proof {
                assert(es.take(i + 1).drop_last() =~= es.take(i as int));
                assert(es.take(i + 1).last() == es[i as int]);
            }
            let ghost before = writes_view(out@);
            out.push(PartWrite { filename: path.clone(), source: PartSource::Relationships(path.clone()) });
            proof {
                assert(writes_view(out@) =~= before.push((path@, PartSourceSpec::Relationships(path@))));
            }
            let ghost mid = writes_view(out@);
            proof {
                assert(rels@.take(0) =~= Seq::<Relationship>::empty());
                assert(writes_view(out@).skip(mid.len() as int) =~= Seq::empty());
                assert(writes_view(out@).take(mid.len() as int) =~= mid);
            }
            let m = rels.len();
            for j in 0..m
                invariant
                    m == rels@.len(),
                    relationship_writes(*self, path@, rels@.take(j as int)) == Ok::<_, PackageWriteErrorSpec>(
                        writes_view(out@).skip(mid.len() as int),
                    ),
                        writes_view(out@).take(mid.len() as int) == mid,
                    mid.len() <= out@.len(),
                    n == es.len(),
                    es == entries@,
                    es == self.relationships.entries_spec(),
                    i < n,
                    path@ == es[i as int].0@,
                    rels@ == es[i as int].1.relationships@,
                    package_writes(*self, es.take(i as int)) is Ok,
            {
                proof {
                    assert(rels@.take(j + 1).drop_last() =~= rels@.take(j as int));
                    assert(rels@.take(j + 1).last() == rels@[j as int]);
                }
                let ghost prev = writes_view(out@);
                match self.relationship_write(path.as_str(), &rels[j]) {
                    Ok(w) => {
                        out.push(w);
                        proof {
                            assert(writes_view(out@) =~= prev.push(w@));
                            assert(writes_view(out@).skip(mid.len() as int) =~= prev.skip(mid.len() as int).push(w@));
                            assert(writes_view(out@).take(mid.len() as int) =~= prev.take(mid.len() as int));
                        }
                    },
                    Err(e) => {
                        proof {
                            lemma_writes_error_propagates(*self, es, i as int, rels@, j as int);
                            assert(relationship_write(*self, path@, rels@[j as int]) == Err::<(Seq<char>, PartSourceSpec), _>(e@));
                            assert(package_writes(*self, es) == Err::<Seq<(Seq<char>, PartSourceSpec)>, _>(e@));
                        }
                        return Err(e);
                    },
                }
            }
            proof {
                assert(rels@.take(m as int) =~= rels@);
                assert(writes_view(out@) =~= mid + writes_view(out@).skip(mid.len() as int));
            }
        }
        proof {
            assert(es.take(n as int) =~= es);
        }
        Ok(out)
    }
}

/// Where the files of the first `i` relationship parts are written and the relationships
/// of part `i` before `j` succeed, an error at relationship `j` is the error of the whole.
proof fn lemma_writes_error_propagates(
    pkg: ThreemfPackage,
    es: Seq<(String, Relationships)>,
    i: int,
    rels: Seq<Relationship>,
    j: int,
)
    requires
        0 <= i < es.len(),
        rels == es[i].1.relationships@,
        0 <= j < rels.len(),
        package_writes(pkg, es.take(i)) is Ok,
        relationship_writes(pkg, es[i].0@, rels.take(j)) is Ok,
        relationship_write(pkg, es[i].0@, rels[j]) is Err,
    ensures
        package_writes(pkg, es) == Err::<Seq<(Seq<char>, PartSourceSpec)>, PackageWriteErrorSpec>(
            relationship_write(pkg, es[i].0@, rels[j])->Err_0,
        ),
{
    let path = es[i].0@;
    lemma_rels_error_extends(pkg, path, rels, j, rels.len() as int);
    assert(rels.take(rels.len() as int) =~= rels);
    assert(es.take(i + 1).drop_last() =~= es.take(i));
    assert(es.take(i + 1).last() == es[i]);
    lemma_package_error_extends(pkg, es, i + 1);
}

/// An error of the relationships before `k` is the error of those before `k2 >= k`.
proof fn lemma_rels_error_extends(pkg: ThreemfPackage, path: Seq<char>, rels: Seq<Relationship>, j: int, k2: int)
    requires
        0 <= j < rels.len(),
        j < k2 <= rels.len(),
        relationship_writes(pkg, path, rels.take(j)) is Ok,
        relationship_write(pkg, path, rels[j]) is Err,
    ensures
        relationship_writes(pkg, path, rels.take(k2)) == Err::<Seq<(Seq<char>, PartSourceSpec)>, PackageWriteErrorSpec>(
            relationship_write(pkg, path, rels[j])->Err_0,
        ),
    decreases k2 - j,
{
    if k2 == j + 1 {
        assert(rels.take(k2).drop_last() =~= rels.take(j));
    } else {
        lemma_rels_error_extends(pkg, path, rels, j, k2 - 1);
        assert(rels.take(k2).drop_last() =~= rels.take(k2 - 1));
    }
}

/// An error of the parts before `k` is the error of the whole.
proof fn lemma_package_error_extends(pkg: ThreemfPackage, es: Seq<(String, Relationships)>, k: int)
    requires
        0 < k <= es.len(),
        package_writes(pkg, es.take(k)) is Err,
    ensures
        package_writes(pkg, es) == package_writes(pkg, es.take(k)),
    decreases es.len() - k,
{
    if k < es.len() {
        assert(es.take(k + 1).drop_last() =~= es.take(k));
        lemma_package_error_extends(pkg, es, k + 1);
    } else {
        assert(es.take(k) =~= es);
    }
}

} // verus!
