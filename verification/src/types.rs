//! Scalar types shared by the whole model: resource ids and indices, optional ids,
//! double values carried by their bit pattern, and sRGB colors.

use vstd::prelude::*;

use crate::text::{hex_byte, push_hex_byte};

verus! {

/// Identifier of a resource (object, material group, slice stack, ...).
pub type ResourceId = u32;

/// Index into the elements of a resource.
pub type ResourceIndex = u32;

/// A UUID, as written in a model.
pub type UuidResource = String;

/// A path of a part in a package, as written in a model.
pub type PathResource = String;

/// The byte is an ASCII decimal digit.
pub open spec fn is_digit_byte(b: u8) -> bool {
    48 <= b <= 57
}

/// The number that the decimal digits `d` write.
pub open spec fn digits_value(d: Seq<u8>) -> nat
    decreases d.len(),
{
    if d.len() == 0 {
        0
    } else {
        digits_value(d.drop_last()) * 10 + (d.last() - 48) as nat
    }
}

/// The number that `bytes` write in decimal: an optional `+` followed by at least one
/// ASCII digit and nothing else, of a value that fits in 32 bits.
pub open spec fn decimal_u32(bytes: Seq<u8>) -> Option<u32> {
    let d = if bytes.len() > 0 && bytes[0] == 43u8 {
        bytes.drop_first()
    } else {
        bytes
    };
    if d.len() > 0 && (forall|i: int| 0 <= i < d.len() ==> is_digit_byte(#[trigger] d[i])) && digits_value(d)
        <= u32::MAX {
        Some(digits_value(d) as u32)
    } else {
        None
    }
}

/// Parses a decimal number with `lexical_core::parse::<u32>`, which (in its standard
/// format) accepts an optional `+` followed by one or more ASCII digits, and fails on an
/// empty input, on any other byte, and on a value that does not fit in 32 bits.
#[verifier::external_body]
pub(crate) fn parse_decimal_u32(bytes: &[u8]) -> (r: Option<u32>)
    ensures
        r == decimal_u32(bytes@),
{
    lexical_core::parse::<u32>(bytes).ok()
}

/// A resource id that may be absent.
#[derive(Debug, Clone, Copy, PartialEq, Eq, Structural)]
pub struct OptionalResourceId {
    pub value: Option<u32>,
}

impl OptionalResourceId {
    /// The id written in decimal by the attribute value `bytes`; absent where `bytes`
    /// do not write one.
    pub fn from_bytes(bytes: &[u8]) -> (r: Self)
        ensures
            r.value == decimal_u32(bytes@),
    {
        OptionalResourceId { value: parse_decimal_u32(bytes) }
    }

    /// An id that is present.
    pub fn new(id: ResourceId) -> (r: Self)
        ensures
            r.value == Some(id),
    {
        OptionalResourceId { value: Some(id) }
    }

    /// An absent id.
    pub fn none() -> (r: Self)
        ensures
            r.value is None,
    {
        OptionalResourceId { value: None }
    }

    /// The id, if present.
    pub fn get(&self) -> (r: Option<ResourceId>)
        ensures
            r == self.value,
    {
        self.value
    }

    /// True if the id is present.
    pub fn is_some(&self) -> (r: bool)
        ensures
            r == (self.value is Some),
    {
        match self.value {
            Some(_) => true,
            None => false,
        }
    }

    /// True if the id is absent.
    pub fn is_none(&self) -> (r: bool)
        ensures
            r == (self.value is None),
    {
        match self.value {
            Some(_) => false,
            None => true,
        }
    }
}

/// A resource index that may be absent.
#[derive(Debug, Clone, Copy, PartialEq, Eq, Structural)]
pub struct OptionalResourceIndex {
    pub value: Option<u32>,
}

impl OptionalResourceIndex {
    /// The index written in decimal by the attribute value `bytes`; absent where
    /// `bytes` do not write one.
    pub fn from_bytes(bytes: &[u8]) -> (r: Self)
        ensures
            r.value == decimal_u32(bytes@),
    {
        OptionalResourceIndex { value: parse_decimal_u32(bytes) }
    }

    /// An index that is present.
    pub fn new(index: ResourceIndex) -> (r: Self)
        ensures
            r.value == Some(index),
    {
        OptionalResourceIndex { value: Some(index) }
    }

    /// An absent index.
    pub fn none() -> (r: Self)
        ensures
            r.value is None,
    {
        OptionalResourceIndex { value: None }
    }

    /// The index, if present.
    pub fn get(&self) -> (r: Option<ResourceIndex>)
        ensures
            r == self.value,
    {
        self.value
    }

    /// True if the index is present.
    pub fn is_some(&self) -> (r: bool)
        ensures
            r == (self.value is Some),
    {
        match self.value {
            Some(_) => true,
            None => false,
        }
    }

    /// True if the index is absent.
    pub fn is_none(&self) -> (r: bool)
        ensures
            r == (self.value is None),
    {
        match self.value {
            Some(_) => false,
            None => true,
        }
    }
}

/// A double-precision value of the model (a coordinate, a radius, a height, ...),
/// carried by its IEEE-754 bit pattern. The crate stores and copies such values but
/// does no arithmetic on them.
#[derive(Debug, Clone, Copy, PartialEq, Eq, Structural)]
pub struct Double {
    pub bits: u64,
}

impl Double {
    /// The value whose IEEE-754 bit pattern is `bits`.
    pub fn from_bits(bits: u64) -> (r: Self)
        ensures
            r.bits == bits,
    {
        Double { bits }
    }

    /// The IEEE-754 bit pattern of the value.
    pub fn to_bits(&self) -> (r: u64)
        ensures
            r == self.bits,
    {
        self.bits
    }
}

/// An sRGB color with an alpha channel.
#[derive(Debug, Clone, Copy, PartialEq, Eq, Structural)]
pub struct Color {
    pub r: u8,
    pub g: u8,
    pub b: u8,
    pub a: u8,
}

/// The color written as `#RRGGBB` in upper-case hexadecimal, followed by `AA` where
/// the color is not fully opaque.
pub open spec fn hex_compact(c: Color) -> Seq<char> {
    seq!['#'] + hex_byte(c.r) + hex_byte(c.g) + hex_byte(c.b) + if c.a == 255 {
        Seq::<char>::empty()
    } else {
        hex_byte(c.a)
    }
}

impl Color {
    /// The color written as `#RRGGBB`, or `#RRGGBBAA` where it is not fully opaque.
    pub fn to_hex_compact(&self) -> (r: String)
        ensures
            r@ == hex_compact(*self),
    {
        let mut s = String::from_str("#");
        proof {
            reveal_strlit("#");
        }
        push_hex_byte(&mut s, self.r);
        push_hex_byte(&mut s, self.g);
        push_hex_byte(&mut s, self.b);
        if self.a != 255 {
            push_hex_byte(&mut s, self.a);
        }
        proof {
            assert(s@ =~= hex_compact(*self));
        }
        s
    }
}

} // verus!
