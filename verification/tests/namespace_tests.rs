use threemf2::domain::build_section::Build;
use threemf2::domain::model::Model;
use threemf2::domain::object::Object;
use threemf2::domain::resources::Resources;
use threemf2::namespaces::{ThreemfNamespace, XmlNamespace};
use threemf2::types::{OptionalResourceId, OptionalResourceIndex};
use threemf2::xml_namespaces::{
    filter_unused_namespaces, parse_xmlns_attributes, tag_xmlns_declarations,
};

const CORE: &str = "http://schemas.microsoft.com/3dmanufacturing/core/2015/02";
const MATERIAL: &str = "http://schemas.microsoft.com/3dmanufacturing/material/2015/02";
const PROD: &str = "http://schemas.microsoft.com/3dmanufacturing/production/2015/06";

fn ns(prefix: Option<&str>, uri: &str) -> XmlNamespace {
    XmlNamespace {
        prefix: prefix.map(|p| p.to_string()),
        uri: uri.to_string(),
    }
}

fn empty_model() -> Model {
    Model {
        unit: None,
        requiredextensions: Vec::new(),
        recommendedextensions: Vec::new(),
        metadata: Vec::new(),
        resources: Resources::empty(),
        build: Build {
            uuid: None,
            item: Vec::new(),
        },
    }
}

fn object(id: u32, uuid: Option<&str>) -> Object {
    Object {
        id,
        objecttype: None,
        thumbnail: None,
        partnumber: None,
        name: None,
        pid: OptionalResourceId::none(),
        pindex: OptionalResourceIndex::none(),
        uuid: uuid.map(|u| u.to_string()),
        slicestackid: OptionalResourceId::none(),
        slicepath: None,
        meshresolution: None,
        kind: None,
    }
}

#[test]
fn xmlns_attributes_are_parsed_in_order() {
    let tag = format!(
        r#"<model unit="millimeter" xml:lang="en-US" xmlns="{}" xmlns:p="{}">"#,
        CORE, PROD
    );
    assert_eq!(
        parse_xmlns_attributes(&tag),
        vec![ns(None, CORE), ns(Some("p"), PROD)]
    );
    assert_eq!(parse_xmlns_attributes("<model unit=\"mm\">"), vec![]);
    // a declaration without a quoted value or with an empty prefix is not one
    assert_eq!(parse_xmlns_attributes("<model xmlns=core xmlns:=\"u\">"), vec![]);
}

#[test]
fn unused_declarations_are_dropped_from_the_model_tag() {
    let mut xml = format!(
        r#"<model unit="millimeter" xmlns="{}" xmlns:m="{}" xmlns:p="{}"><resources/></model>"#,
        CORE, MATERIAL, PROD
    );
    filter_unused_namespaces(&mut xml, &[ThreemfNamespace::Core, ThreemfNamespace::Prod]);
    assert_eq!(
        xml,
        format!(
            r#"<model xmlns="{}" xmlns:p="{}" unit="millimeter"><resources/></model>"#,
            CORE, PROD
        )
    );
}

#[test]
fn text_before_and_after_the_model_tag_is_kept() {
    let mut xml = format!(
        r#"<?xml version="1.0"?><model xmlns="{}" xmlns:m="{}"><build/></model>"#,
        CORE, MATERIAL
    );
    filter_unused_namespaces(&mut xml, &[ThreemfNamespace::Core]);
    assert_eq!(
        xml,
        format!(r#"<?xml version="1.0"?><model xmlns="{}"><build/></model>"#, CORE)
    );
}

#[test]
fn text_without_a_model_tag_is_unchanged() {
    let mut xml = String::from("<relationships xmlns=\"x\"></relationships>");
    filter_unused_namespaces(&mut xml, &[]);
    assert_eq!(xml, "<relationships xmlns=\"x\"></relationships>");
    let mut unclosed = String::from("<model xmlns=\"x\"");
    filter_unused_namespaces(&mut unclosed, &[]);
    assert_eq!(unclosed, "<model xmlns=\"x\"");
}

#[test]
fn custom_namespaces_are_kept_by_uri() {
    let mut xml = String::from(r#"<model xmlns:t="urn:test" xmlns:o="urn:other">"#);
    filter_unused_namespaces(
        &mut xml,
        &[ThreemfNamespace::Unknown {
            prefix: "t".to_string(),
            uri: "urn:test".to_string(),
        }],
    );
    assert_eq!(xml, r#"<model xmlns:t="urn:test">"#);
}

#[test]
fn used_namespaces_of_an_empty_model_is_core() {
    assert_eq!(empty_model().used_namespaces(), vec![ThreemfNamespace::Core]);
}

#[test]
fn used_namespaces_follow_declarations_and_content() {
    let mut m = empty_model();
    m.requiredextensions = vec![ThreemfNamespace::Material, ThreemfNamespace::Core];
    m.recommendedextensions = vec![ThreemfNamespace::Material];
    m.resources.object = vec![object(1, Some("uuid"))];
    assert_eq!(
        m.used_namespaces(),
        vec![
            ThreemfNamespace::Core,
            ThreemfNamespace::Material,
            ThreemfNamespace::Prod
        ]
    );
    let mut b = empty_model();
    b.build.uuid = Some("build".to_string());
    assert_eq!(
        b.used_namespaces(),
        vec![ThreemfNamespace::Core, ThreemfNamespace::Prod]
    );
}

#[test]
fn namespaces_of_a_document_are_those_of_its_model_tag() {
    let xml = format!(
        r#"<?xml version="1.0" encoding="UTF-8"?><model unit="millimeter" xmlns="{}" xmlns:m="{}"><resources><m:colorgroup xmlns:x="urn:x"/></resources></model>"#,
        CORE, MATERIAL
    );
    assert_eq!(
        parse_xmlns_attributes(&xml),
        vec![ns(None, CORE), ns(Some("m"), MATERIAL)]
    );
    assert_eq!(
        tag_xmlns_declarations(r#"<relationships xmlns="urn:r">"#),
        vec![ns(None, "urn:r")]
    );
    assert_eq!(
        parse_xmlns_attributes(r#"<relationships xmlns="urn:r">"#),
        vec![ns(None, "urn:r")]
    );
}

#[test]
fn filtered_text_declares_exactly_the_kept_namespaces() {
    let source = format!(
        r#"<?xml version="1.0"?><model unit="millimeter" xmlns="{}" xmlns:m="{}" xmlns:p="{}" xmlns:x="urn:x"><build/></model>"#,
        CORE, MATERIAL, PROD
    );
    let keep = [ThreemfNamespace::Prod, ThreemfNamespace::Core];
    let mut filtered = source.clone();
    filter_unused_namespaces(&mut filtered, &keep);
    let kept: Vec<XmlNamespace> = parse_xmlns_attributes(&source)
        .into_iter()
        .filter(|n| keep.iter().any(|k| k.uri() == n.uri))
        .collect();
    assert_eq!(parse_xmlns_attributes(&filtered), kept);
    assert_eq!(kept, vec![ns(None, CORE), ns(Some("p"), PROD)]);
}
