//! Reading the integer attributes of the displacement elements `triangle`, `triangles`
//! and `normvectorgroup`, one attribute (its local name and raw value) at a time.

use vstd::prelude::*;

use crate::domain::displacement::{NormVector, NormVectorGroup, Triangle, Triangles};
use crate::text::str_eq;
use crate::types::{decimal_u32, parse_decimal_u32, OptionalResourceId, OptionalResourceIndex};

verus! {

/// An attribute of an XML element: its local name and its raw value.
#[derive(Debug, Clone, PartialEq, Eq)]
pub struct XmlAttribute {
    pub name: String,
    pub value: Vec<u8>,
}

/// The number that `bytes` write, 0 where they write none.
pub open spec fn decimal_or_zero(bytes: Seq<u8>) -> u32 {
    match decimal_u32(bytes) {
        Some(v) => v,
        None => 0,
    }
}

/// The optional index that `bytes` write.
pub open spec fn opt_index(bytes: Seq<u8>) -> OptionalResourceIndex {
    OptionalResourceIndex { value: decimal_u32(bytes) }
}

/// The optional id that `bytes` write.
pub open spec fn opt_id(bytes: Seq<u8>) -> OptionalResourceId {
    OptionalResourceId { value: decimal_u32(bytes) }
}

/// The triangle before any attribute is read: vertex indices 0, no optional value.
pub open spec fn initial_triangle() -> Triangle {
    Triangle {
        v1: 0,
        v2: 0,
        v3: 0,
        d1: OptionalResourceIndex { value: None },
        d2: OptionalResourceIndex { value: None },
        d3: OptionalResourceIndex { value: None },
        did: OptionalResourceId { value: None },
        p1: OptionalResourceIndex { value: None },
        p2: OptionalResourceIndex { value: None },
        p3: OptionalResourceIndex { value: None },
        pid: OptionalResourceId { value: None },
    }
}

/// The triangle `t` after reading attribute `name` with value `value`: the vertex
/// indices `v1`..`v3` take the number written (0 where none is), the optional values
/// `d1`..`d3`, `did`, `p1`..`p3`, `pid` the number written (absent where none is); any
/// other attribute leaves `t` as it is.
pub open spec fn triangle_with_attribute(t: Triangle, name: Seq<char>, value: Seq<u8>) -> Triangle {
    if name == "v1"@ {
        Triangle { v1: decimal_or_zero(value), ..t }
    } else if name == "v2"@ {
        Triangle { v2: decimal_or_zero(value), ..t }
    } else if name == "v3"@ {
        Triangle { v3: decimal_or_zero(value), ..t }
    } else if name == "d1"@ {
        Triangle { d1: opt_index(value), ..t }
    } else if name == "d2"@ {
        Triangle { d2: opt_index(value), ..t }
    } else if name == "d3"@ {
        Triangle { d3: opt_index(value), ..t }
    } else if name == "did"@ {
        Triangle { did: opt_id(value), ..t }
    } else if name == "p1"@ {
        Triangle { p1: opt_index(value), ..t }
    } else if name == "p2"@ {
        Triangle { p2: opt_index(value), ..t }
    } else if name == "p3"@ {
        Triangle { p3: opt_index(value), ..t }
    } else if name == "pid"@ {
        Triangle { pid: opt_id(value), ..t }
    } else {
        t
    }
}

/// The triangle read from the attributes `attrs`, in order.
pub open spec fn triangle_from_attributes(attrs: Seq<XmlAttribute>) -> Triangle
    decreases attrs.len(),
{
    if attrs.len() == 0 {
        initial_triangle()
    } else {
        triangle_with_attribute(triangle_from_attributes(attrs.drop_last()), attrs.last().name@, attrs.last().value@)
    }
}

impl Triangle {
    /// Reads attribute `name` with value `value` into the triangle.
    pub fn read_attribute(&mut self, name: &str, value: &[u8])
        ensures
            *final(self) == triangle_with_attribute(*old(self), name@, value@),
    {
        proof {
            reveal_strlit("v1");
            reveal_strlit("v2");
            reveal_strlit("v3");
            reveal_strlit("d1");
            reveal_strlit("d2");
            reveal_strlit("d3");
            reveal_strlit("did");
            reveal_strlit("p1");
            reveal_strlit("p2");
            reveal_strlit("p3");
            reveal_strlit("pid");
        }
        if str_eq(name, "v1") {
            self.v1 = parse_decimal_u32(value).unwrap_or(0);
        } else if str_eq(name, "v2") {
            self.v2 = parse_decimal_u32(value).unwrap_or(0);
        } else if str_eq(name, "v3") {
            self.v3 = parse_decimal_u32(value).unwrap_or(0);
        } else if str_eq(name, "d1") {
            self.d1 = OptionalResourceIndex::from_bytes(value);
        } else if str_eq(name, "d2") {
            self.d2 = OptionalResourceIndex::from_bytes(value);
        } else if str_eq(name, "d3") {
            self.d3 = OptionalResourceIndex::from_bytes(value);
        } else if str_eq(name, "did") {
            self.did = OptionalResourceId::from_bytes(value);
        } else if str_eq(name, "p1") {
            self.p1 = OptionalResourceIndex::from_bytes(value);
        } else if str_eq(name, "p2") {
            self.p2 = OptionalResourceIndex::from_bytes(value);
        } else if str_eq(name, "p3") {
            self.p3 = OptionalResourceIndex::from_bytes(value);
        } else if str_eq(name, "pid") {
            self.pid = OptionalResourceId::from_bytes(value);
        }
    }

    /// The triangle read from the attributes of a `triangle` element, in order.
    pub fn from_attributes(attrs: &Vec<XmlAttribute>) -> (r: Triangle)
        ensures
            r == triangle_from_attributes(attrs@),
    {
        let mut t = Triangle {
            v1: 0,
            v2: 0,
            v3: 0,
            d1: OptionalResourceIndex::none(),
            d2: OptionalResourceIndex::none(),
            d3: OptionalResourceIndex::none(),
            did: OptionalResourceId::none(),
            p1: OptionalResourceIndex::none(),
            p2: OptionalResourceIndex::none(),
            p3: OptionalResourceIndex::none(),
            pid: OptionalResourceId::none(),
        };
        let n = attrs.len();
        proof {
            assert(attrs@.take(0) =~= Seq::<XmlAttribute>::empty());
        }
        for i in 0..n
            invariant
                n == attrs@.len(),
                t == triangle_from_attributes(attrs@.take(i as int)),
        {
            proof {
                assert(attrs@.take(i + 1).drop_last() =~= attrs@.take(i as int));
                assert(attrs@.take(i + 1).last() == attrs@[i as int]);
            }
            t.read_attribute(attrs[i].name.as_str(), attrs[i].value.as_slice());
        }
        proof {
            assert(attrs@.take(n as int) =~= attrs@);
        }
        t
    }
}

/// The default displacement group after reading attribute `name` with value `value`:
/// a non-empty `did` attribute sets it to the number written (absent where none is).
pub open spec fn did_with_attribute(did: OptionalResourceId, name: Seq<char>, value: Seq<u8>) -> OptionalResourceId {
    if name == "did"@ && value.len() > 0 {
        opt_id(value)
    } else {
        did
    }
}

/// The default displacement group read from the attributes `attrs`, in order.
pub open spec fn did_from_attributes(attrs: Seq<XmlAttribute>) -> OptionalResourceId
    decreases attrs.len(),
{
    if attrs.len() == 0 {
        OptionalResourceId { value: None }
    } else {
        did_with_attribute(did_from_attributes(attrs.drop_last()), attrs.last().name@, attrs.last().value@)
    }
}

impl Triangles {
    /// Reads attribute `name` with value `value` of a `triangles` element.
    pub fn read_attribute(&mut self, name: &str, value: &[u8])
        ensures
            final(self).did == did_with_attribute(old(self).did, name@, value@),
            final(self).triangle == old(self).triangle,
    {
        proof {
            reveal_strlit("did");
        }
        if str_eq(name, "did") && value.len() > 0 {
            self.did = OptionalResourceId::from_bytes(value);
        }
    }

    /// The triangles of a `triangles` element with attributes `attrs` and the
    /// triangles read from its children, in order.
    pub fn from_parts(attrs: &Vec<XmlAttribute>, triangle: Vec<Triangle>) -> (r: Triangles)
        ensures
            r.did == did_from_attributes(attrs@),
            r.triangle == triangle,
    {
        let mut r = Triangles { did: OptionalResourceId::none(), triangle };
        let n = attrs.len();
        proof {
            assert(attrs@.take(0) =~= Seq::<XmlAttribute>::empty());
        }
        for i in 0..n
            invariant
                n == attrs@.len(),
                r.did == did_from_attributes(attrs@.take(i as int)),
                r.triangle == triangle,
        {
            proof {
                assert(attrs@.take(i + 1).drop_last() =~= attrs@.take(i as int));
                assert(attrs@.take(i + 1).last() == attrs@[i as int]);
            }
            r.read_attribute(attrs[i].name.as_str(), attrs[i].value.as_slice());
        }
        proof {
            assert(attrs@.take(n as int) =~= attrs@);
        }
        r
    }
}

/// An attribute value that could not be read.
#[derive(Debug, Clone, Copy, PartialEq, Eq, Structural)]
pub enum AttributeError {
    /// The `id` attribute does not write a number.
    InvalidId,
}

impl AttributeError {
    /// The text of the error.
    pub fn message(&self) -> (r: &'static str)
        ensures
            r@ == "Invalid values as id"@,
    {
        "Invalid values as id"
    }
}

/// The id of a normal vector group after reading attribute `name` with value `value`:
/// a non-empty `id` attribute sets it to the number written, and is an error where it
/// writes none.
pub open spec fn group_id_with_attribute(id: u32, name: Seq<char>, value: Seq<u8>) -> Result<u32, AttributeError> {
    if name == "id"@ && value.len() > 0 {
        match decimal_u32(value) {
            Some(v) => Ok(v),
            None => Err(AttributeError::InvalidId),
        }
    } else {
        Ok(id)
    }
}

/// The id of a normal vector group read from the attributes `attrs`, in order; the
/// error of the first attribute that has one.
pub open spec fn group_id_from_attributes(attrs: Seq<XmlAttribute>) -> Result<u32, AttributeError>
    decreases attrs.len(),
{
    if attrs.len() == 0 {
        Ok(0)
    } else {
        match group_id_from_attributes(attrs.drop_last()) {
            Err(e) => Err(e),
            Ok(id) => group_id_with_attribute(id, attrs.last().name@, attrs.last().value@),
        }
    }
}

impl NormVectorGroup {
    /// Reads attribute `name` with value `value` of a `normvectorgroup` element.
    pub fn read_attribute(&mut self, name: &str, value: &[u8]) -> (r: Result<(), AttributeError>)
        ensures
            match group_id_with_attribute(old(self).id, name@, value@) {
                Ok(id) => r is Ok && final(self).id == id,
                Err(e) => r == Err::<(), AttributeError>(e) && final(self).id == old(self).id,
            },
            final(self).normvector == old(self).normvector,
    {
        proof {
            reveal_strlit("id");
        }
        if str_eq(name, "id") && value.len() > 0 {
            match parse_decimal_u32(value) {
                Some(v) => {
                    self.id = v;
                },
                None => {
                    return Err(AttributeError::InvalidId);
                },
            }
        }
        Ok(())
    }

    /// The group of an element with attributes `attrs` and the normal vectors read
    /// from its children, in order; the error of the first attribute that has one.
    pub fn from_parts(attrs: &Vec<XmlAttribute>, normvector: Vec<NormVector>) -> (r: Result<NormVectorGroup, AttributeError>)
        ensures
            match group_id_from_attributes(attrs@) {
                Ok(id) => r matches Ok(g) && g.id == id && g.normvector == normvector,
                Err(e) => r == Err::<NormVectorGroup, AttributeError>(e),
            },
    {
        let mut g = NormVectorGroup { id: 0, normvector };
        let n = attrs.len();
        proof {
            assert(attrs@.take(0) =~= Seq::<XmlAttribute>::empty());
        }
        for i in 0..n
            invariant
                n == attrs@.len(),
                group_id_from_attributes(attrs@.take(i as int)) == Ok::<u32, AttributeError>(g.id),
                g.normvector == normvector,
        {
            proof {
                assert(attrs@.take(i + 1).drop_last() =~= attrs@.take(i as int));
                assert(attrs@.take(i + 1).last() == attrs@[i as int]);
            }
            match g.read_attribute(attrs[i].name.as_str(), attrs[i].value.as_slice()) {
                Ok(()) => {},
                Err(e) => {
                    proof {
                        lemma_group_error_extends(attrs@, i + 1);
                    }
                    return Err(e);
                },
            }
        }
        proof {
            assert(attrs@.take(n as int) =~= attrs@);
        }
        Ok(g)
    }
}

/// An error among the first `k` attributes is the error of all of them.
proof fn lemma_group_error_extends(attrs: Seq<XmlAttribute>, k: int)
    requires
        0 < k <= attrs.len(),
        group_id_from_attributes(attrs.take(k)) is Err,
    ensures
        group_id_from_attributes(attrs) == group_id_from_attributes(attrs.take(k)),
    decreases attrs.len() - k,
{
    if k < attrs.len() {
        assert(attrs.take(k + 1).drop_last() =~= attrs.take(k));
        lemma_group_error_extends(attrs, k + 1);
    } else {
        assert(attrs.take(k) =~= attrs);
    }
}

} // verus!
