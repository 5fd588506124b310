use threemf2::domain::displacement::{NormVectorGroup, Triangle, Triangles};
use threemf2::domain::displacement_attributes::{AttributeError, XmlAttribute};
use threemf2::types::{OptionalResourceId, OptionalResourceIndex};

fn attr(name: &str, value: &str) -> XmlAttribute {
    XmlAttribute {
        name: name.to_string(),
        value: value.as_bytes().to_vec(),
    }
}

#[test]
fn optional_values_are_read_in_decimal() {
    assert_eq!(OptionalResourceIndex::from_bytes(b"12").value, Some(12));
    assert_eq!(OptionalResourceIndex::from_bytes(b"+7").value, Some(7));
    assert_eq!(OptionalResourceIndex::from_bytes(b"007").value, Some(7));
    assert_eq!(OptionalResourceIndex::from_bytes(b"").value, None);
    assert_eq!(OptionalResourceIndex::from_bytes(b"-1").value, None);
    assert_eq!(OptionalResourceIndex::from_bytes(b"1a").value, None);
    assert_eq!(OptionalResourceIndex::from_bytes(b" 1").value, None);
    assert_eq!(OptionalResourceId::from_bytes(b"4294967295").value, Some(u32::MAX));
    assert_eq!(OptionalResourceId::from_bytes(b"4294967296").value, None);
}

#[test]
fn triangle_reads_its_attributes() {
    let t = Triangle::from_attributes(&vec![
        attr("v1", "3"),
        attr("v2", "4"),
        attr("v3", "x"),
        attr("d1", "1"),
        attr("did", "9"),
        attr("p2", "2"),
        attr("pid", ""),
        attr("other", "5"),
    ]);
    assert_eq!(t.v1, 3);
    assert_eq!(t.v2, 4);
    assert_eq!(t.v3, 0);
    assert_eq!(t.d1, OptionalResourceIndex::new(1));
    assert_eq!(t.d2, OptionalResourceIndex::none());
    assert_eq!(t.did, OptionalResourceId::new(9));
    assert_eq!(t.p1, OptionalResourceIndex::none());
    assert_eq!(t.p2, OptionalResourceIndex::new(2));
    assert_eq!(t.pid, OptionalResourceId::none());
}

#[test]
fn later_attributes_override_earlier_ones() {
    let t = Triangle::from_attributes(&vec![attr("v1", "3"), attr("v1", "8")]);
    assert_eq!(t.v1, 8);
    let empty = Triangle::from_attributes(&vec![]);
    assert_eq!(empty.v1, 0);
    assert_eq!(empty.pid, OptionalResourceId::none());
}

#[test]
fn triangles_read_their_default_group() {
    let t = Triangles::from_parts(&vec![attr("did", "5")], vec![]);
    assert_eq!(t.did, OptionalResourceId::new(5));
    let kept = Triangles::from_parts(&vec![attr("did", "5"), attr("did", "")], vec![]);
    assert_eq!(kept.did, OptionalResourceId::new(5));
    let none = Triangles::from_parts(&vec![attr("did", "x")], vec![]);
    assert_eq!(none.did, OptionalResourceId::none());
}

#[test]
fn norm_vector_group_needs_a_numeric_id() {
    let g = NormVectorGroup::from_parts(&vec![attr("id", "12")], vec![]).unwrap();
    assert_eq!(g.id, 12);
    let unset = NormVectorGroup::from_parts(&vec![attr("id", "")], vec![]).unwrap();
    assert_eq!(unset.id, 0);
    let err = NormVectorGroup::from_parts(&vec![attr("id", "abc")], vec![]).unwrap_err();
    assert_eq!(err, AttributeError::InvalidId);
    assert_eq!(err.message(), "Invalid values as id");
}

#[test]
fn triangles_element_attributes_read_as_expected() {
    // <triangles did="5"><triangle v1="0" v2="1" v3="2" d1="0" d2="1" d3="2" did="6" p1="0" p2="1" p3="2" pid="6" /></triangles>
    let triangle = Triangle::from_attributes(&vec![
        attr("v1", "0"),
        attr("v2", "1"),
        attr("v3", "2"),
        attr("d1", "0"),
        attr("d2", "1"),
        attr("d3", "2"),
        attr("did", "6"),
        attr("p1", "0"),
        attr("p2", "1"),
        attr("p3", "2"),
        attr("pid", "6"),
    ]);
    let triangles = Triangles::from_parts(&vec![attr("did", "5")], vec![triangle]);
    assert_eq!(
        triangles,
        Triangles {
            did: OptionalResourceId::new(5),
            triangle: vec![Triangle {
                v1: 0,
                v2: 1,
                v3: 2,
                d1: OptionalResourceIndex::new(0),
                d2: OptionalResourceIndex::new(1),
                d3: OptionalResourceIndex::new(2),
                did: OptionalResourceId::new(6),
                p1: OptionalResourceIndex::new(0),
                p2: OptionalResourceIndex::new(1),
                p3: OptionalResourceIndex::new(2),
                pid: OptionalResourceId::new(6),
            }],
        }
    );
}
