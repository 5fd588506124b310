//! The XML namespaces of the 3MF core specification and of its extensions.

use vstd::prelude::*;

use crate::text::str_eq;

verus! {

/// A 3MF specification (core or extension), identified by its XML namespace; one that
/// the library does not know is given by its prefix and URI.
#[derive(Debug, Clone, PartialEq, Eq)]
pub enum ThreemfNamespace {
    Core,
    Material,
    Prod,
    BeamLattice,
    BeamLatticeBalls,
    Slice,
    Boolean,
    Displacement,
    CoreTriangleSet,
    Unknown { prefix: String, uri: String },
}

/// The namespace URI of a specification.
pub open spec fn namespace_uri(ns: ThreemfNamespace) -> Seq<char> {
    match ns {
        ThreemfNamespace::Core => "http://schemas.microsoft.com/3dmanufacturing/core/2015/02"@,
        ThreemfNamespace::Material => "http://schemas.microsoft.com/3dmanufacturing/material/2015/02"@,
        ThreemfNamespace::Prod => "http://schemas.microsoft.com/3dmanufacturing/production/2015/06"@,
        ThreemfNamespace::BeamLattice => "http://schemas.microsoft.com/3dmanufacturing/beamlattice/2017/02"@,
        ThreemfNamespace::BeamLatticeBalls => "http://schemas.microsoft.com/3dmanufacturing/beamlattice/balls/2020/07"@,
        ThreemfNamespace::Slice => "http://schemas.microsoft.com/3dmanufacturing/slice/2015/07"@,
        ThreemfNamespace::Boolean => "http://schemas.3mf.io/3dmanufacturing/booleanoperations/2023/07"@,
        ThreemfNamespace::Displacement => "http://schemas.3mf.io/3dmanufacturing/displacement/2023/10"@,
        ThreemfNamespace::CoreTriangleSet => "http://schemas.microsoft.com/3dmanufacturing/trianglesets/2021/07"@,
        ThreemfNamespace::Unknown { uri, .. } => uri@,
    }
}

/// The conventional prefix of a specification's namespace; the core specification is
/// the default namespace and has none.
pub open spec fn namespace_prefix(ns: ThreemfNamespace) -> Option<Seq<char>> {
    match ns {
        ThreemfNamespace::Core => None,
        ThreemfNamespace::Material => Some("m"@),
        ThreemfNamespace::Prod => Some("p"@),
        ThreemfNamespace::BeamLattice => Some("b"@),
        ThreemfNamespace::BeamLatticeBalls => Some("b2"@),
        ThreemfNamespace::Slice => Some("s"@),
        ThreemfNamespace::Boolean => Some("bo"@),
        ThreemfNamespace::Displacement => Some("d"@),
        ThreemfNamespace::CoreTriangleSet => Some("t"@),
        ThreemfNamespace::Unknown { prefix, .. } => Some(prefix@),
    }
}

/// The two namespaces are the same specification: equal where the library knows them,
/// and of the same prefix and URI where it does not.
pub open spec fn same_namespace(a: ThreemfNamespace, b: ThreemfNamespace) -> bool {
    match (a, b) {
        (ThreemfNamespace::Unknown { prefix: p1, uri: u1 }, ThreemfNamespace::Unknown { prefix: p2, uri: u2 }) => p1@
            == p2@ && u1@ == u2@,
        _ => a == b,
    }
}

impl ThreemfNamespace {
    /// A copy of the namespace.
    pub fn duplicate(&self) -> (r: Self)
        ensures
            r == *self,
    {
        match self {
            ThreemfNamespace::Core => ThreemfNamespace::Core,
            ThreemfNamespace::Material => ThreemfNamespace::Material,
            ThreemfNamespace::Prod => ThreemfNamespace::Prod,
            ThreemfNamespace::BeamLattice => ThreemfNamespace::BeamLattice,
            ThreemfNamespace::BeamLatticeBalls => ThreemfNamespace::BeamLatticeBalls,
            ThreemfNamespace::Slice => ThreemfNamespace::Slice,
            ThreemfNamespace::Boolean => ThreemfNamespace::Boolean,
            ThreemfNamespace::Displacement => ThreemfNamespace::Displacement,
            ThreemfNamespace::CoreTriangleSet => ThreemfNamespace::CoreTriangleSet,
            ThreemfNamespace::Unknown { prefix, uri } => ThreemfNamespace::Unknown {
                prefix: prefix.clone(),
                uri: uri.clone(),
            },
        }
    }

    /// True where the namespace is the specification `other`: the same known
    /// specification, or an unknown one with the same prefix and URI.
    pub fn is(&self, other: &ThreemfNamespace) -> (r: bool)
        ensures
            r == same_namespace(*self, *other),
            !(other is Unknown) ==> (r == (*self == *other)),
    {
        match (self, other) {
            (ThreemfNamespace::Core, ThreemfNamespace::Core) => true,
            (ThreemfNamespace::Material, ThreemfNamespace::Material) => true,
            (ThreemfNamespace::Prod, ThreemfNamespace::Prod) => true,
            (ThreemfNamespace::BeamLattice, ThreemfNamespace::BeamLattice) => true,
            (ThreemfNamespace::BeamLatticeBalls, ThreemfNamespace::BeamLatticeBalls) => true,
            (ThreemfNamespace::Slice, ThreemfNamespace::Slice) => true,
            (ThreemfNamespace::Boolean, ThreemfNamespace::Boolean) => true,
            (ThreemfNamespace::Displacement, ThreemfNamespace::Displacement) => true,
            (ThreemfNamespace::CoreTriangleSet, ThreemfNamespace::CoreTriangleSet) => true,
            (ThreemfNamespace::Unknown { prefix: p1, uri: u1 }, ThreemfNamespace::Unknown { prefix: p2, uri: u2 }) => {
                str_eq(p1.as_str(), p2.as_str()) && str_eq(u1.as_str(), u2.as_str())
            },
            _ => false,
        }
    }

    /// The namespace URI.
    pub fn uri(&self) -> (r: &str)
        ensures
            r@ == namespace_uri(*self),
    {
        proof {
            reveal_strlit("http://schemas.microsoft.com/3dmanufacturing/core/2015/02");
            reveal_strlit("http://schemas.microsoft.com/3dmanufacturing/material/2015/02");
            reveal_strlit("http://schemas.microsoft.com/3dmanufacturing/production/2015/06");
            reveal_strlit("http://schemas.microsoft.com/3dmanufacturing/beamlattice/2017/02");
            reveal_strlit("http://schemas.microsoft.com/3dmanufacturing/beamlattice/balls/2020/07");
            reveal_strlit("http://schemas.microsoft.com/3dmanufacturing/slice/2015/07");
            reveal_strlit("http://schemas.3mf.io/3dmanufacturing/booleanoperations/2023/07");
            reveal_strlit("http://schemas.3mf.io/3dmanufacturing/displacement/2023/10");
            reveal_strlit("http://schemas.microsoft.com/3dmanufacturing/trianglesets/2021/07");
        }
        match self {
            ThreemfNamespace::Core => "http://schemas.microsoft.com/3dmanufacturing/core/2015/02",
            ThreemfNamespace::Material => "http://schemas.microsoft.com/3dmanufacturing/material/2015/02",
            ThreemfNamespace::Prod => "http://schemas.microsoft.com/3dmanufacturing/production/2015/06",
            ThreemfNamespace::BeamLattice => "http://schemas.microsoft.com/3dmanufacturing/beamlattice/2017/02",
            ThreemfNamespace::BeamLatticeBalls => "http://schemas.microsoft.com/3dmanufacturing/beamlattice/balls/2020/07",
            ThreemfNamespace::Slice => "http://schemas.microsoft.com/3dmanufacturing/slice/2015/07",
            ThreemfNamespace::Boolean => "http://schemas.3mf.io/3dmanufacturing/booleanoperations/2023/07",
            ThreemfNamespace::Displacement => "http://schemas.3mf.io/3dmanufacturing/displacement/2023/10",
            ThreemfNamespace::CoreTriangleSet => "http://schemas.microsoft.com/3dmanufacturing/trianglesets/2021/07",
            ThreemfNamespace::Unknown { uri, .. } => uri.as_str(),
        }
    }

    /// The conventional prefix of the namespace; `None` for the core specification.
    pub fn prefix(&self) -> (r: Option<&str>)
        ensures
            match r {
                Some(p) => namespace_prefix(*self) == Some(p@),
                None => namespace_prefix(*self) is None,
            },
    {
        proof {
            reveal_strlit("m");
            reveal_strlit("p");
            reveal_strlit("b");
            reveal_strlit("b2");
            reveal_strlit("s");
            reveal_strlit("bo");
            reveal_strlit("d");
            reveal_strlit("t");
        }
        match self {
            ThreemfNamespace::Core => None,
            ThreemfNamespace::Material => Some("m"),
            ThreemfNamespace::Prod => Some("p"),
            ThreemfNamespace::BeamLattice => Some("b"),
            ThreemfNamespace::BeamLatticeBalls => Some("b2"),
            ThreemfNamespace::Slice => Some("s"),
            ThreemfNamespace::Boolean => Some("bo"),
            ThreemfNamespace::Displacement => Some("d"),
            ThreemfNamespace::CoreTriangleSet => Some("t"),
            ThreemfNamespace::Unknown { prefix, .. } => Some(prefix.as_str()),
        }
    }
}

/// A copy of a list of namespaces.
pub fn duplicate_namespaces(v: &Vec<ThreemfNamespace>) -> (r: Vec<ThreemfNamespace>)
    ensures
        r@ == v@,
{
    let mut r: Vec<ThreemfNamespace> = Vec::new();
    let n = v.len();
    for i in 0..n
        invariant
            n == v@.len(),
            r@ == v@.take(i as int),
    {
        r.push(v[i].duplicate());
        proof {
            assert(v@.take(i + 1) =~= v@.take(i as int).push(v@[i as int]));
        }
    }
    proof {
        assert(v@.take(n as int) =~= v@);
    }
    r
}

/// A generic XML namespace declaration with its prefix and URI.
#[derive(Debug, Clone, PartialEq, Eq)]
pub struct XmlNamespace {
    /// The namespace prefix (None for the default namespace).
    pub prefix: Option<String>,
    /// The namespace URI.
    pub uri: String,
}

/// The text of the prefixes of `exts`, each followed by a space, for the namespaces
/// whose URI does not occur earlier in `exts`; the core namespace has no prefix and adds
/// nothing.
pub open spec fn prefixes_text(exts: Seq<ThreemfNamespace>) -> Seq<char>
    decreases exts.len(),
{
    if exts.len() == 0 {
        Seq::empty()
    } else {
        let prev = prefixes_text(exts.drop_last());
        let e = exts.last();
        let seen = exts.drop_last().map_values(|n: ThreemfNamespace| namespace_uri(n)).contains(namespace_uri(e));
        match namespace_prefix(e) {
            Some(p) if !seen => prev + p + " "@,
            _ => prev,
        }
    }
}

/// The value of a `requiredextensions` or `recommendedextensions` attribute listing
/// `exts`: `None` where there are none.
pub open spec fn extensions_definition_spec(exts: Seq<ThreemfNamespace>) -> Option<Seq<char>> {
    if exts.len() == 0 {
        None
    } else {
        Some(prefixes_text(exts))
    }
}

/// True where a namespace among the first `k` of `exts` has the URI `uri`.
fn uri_among(exts: &[ThreemfNamespace], k: usize, uri: &str) -> (r: bool)
    requires
        k <= exts@.len(),
    ensures
        r == exts@.take(k as int).map_values(|n: ThreemfNamespace| namespace_uri(n)).contains(uri@),
{
    let ghost u = exts@.take(k as int).map_values(|n: ThreemfNamespace| namespace_uri(n));
    for i in 0..k
        invariant
            k <= exts@.len(),
            u == exts@.take(k as int).map_values(|n: ThreemfNamespace| namespace_uri(n)),
            forall|j: int| 0 <= j < i ==> u[j] != uri@,
    {
        if crate::text::str_eq(exts[i].uri(), uri) {
            proof {
                assert(u[i as int] == uri@);
            }
            return true;
        }
    }
    false
}

/// The value of a `requiredextensions` or `recommendedextensions` attribute listing the
/// extensions `exts`: the prefix of each, followed by a space, skipping repeated URIs
/// and the core namespace; `None` where there are no extensions.
pub fn extensions_definition(exts: &[ThreemfNamespace]) -> (r: Option<String>)
    ensures
        match r {
            Some(s) => extensions_definition_spec(exts@) == Some(s@),
            None => extensions_definition_spec(exts@) is None,
        },
{
    if exts.len() == 0 {
        return None;
    }
    let mut out = String::new();
    let n = exts.len();
    proof {
        assert(exts@.take(0) =~= Seq::<ThreemfNamespace>::empty());
    }
    for i in 0..n
        invariant
            n == exts@.len(),
            out@ == prefixes_text(exts@.take(i as int)),
    {
        let ghost t = exts@.take(i + 1);
        proof {
            assert(t.drop_last() =~= exts@.take(i as int));
            assert(t.last() == exts@[i as int]);
            reveal_strlit(" ");
        }
        let seen = uri_among(exts, i, exts[i].uri());
        match exts[i].prefix() {
            Some(p) => {
                if !seen {
                    out.append(p);
                    out.append(" ");
                }
            },
            None => {},
        }
    }
    proof {
        assert(exts@.take(n as int) =~= exts@);
    }
    Some(out)
}

} // verus!
