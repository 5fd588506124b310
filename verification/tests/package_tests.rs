use threemf2::content_types::{
    determine_relationships_extension, root_relationships_filename, ContentTypes,
    DefaultContentTypeEnum, DefaultContentTypes,
};
use threemf2::domain::build_section::{Build, Item};
use threemf2::domain::model::Model;
use threemf2::domain::object::Object;
use threemf2::domain::resources::Resources;
use threemf2::namespaces::XmlNamespace;
use threemf2::package::{ThreemfPackage, ThreemfPackageProcessor};
use threemf2::package_write::{PackageWriteError, PartSource, PartWrite};
use threemf2::thumbnail_handle::ThumbnailHandle;
use threemf2::package_query::{
    get_item_by_uuid, get_items, get_items_by_objectid, get_models, get_objects, iter_models,
};
use threemf2::part_map::PartMap;
use threemf2::paths::{
    discover_relationship_files, name_extension, path_file_name, relationship_file_path,
    try_strip_leading_slash,
};
use threemf2::relationship::{find_root_model_path, Relationship, RelationshipType, Relationships};
use threemf2::thumbnail_handle::ImageFormat;
use threemf2::types::{OptionalResourceId, OptionalResourceIndex};
use threemf2::validator::{ValidationRule, Validator};

fn object(id: u32) -> Object {
    Object {
        id,
        objecttype: None,
        thumbnail: None,
        partnumber: None,
        name: None,
        pid: OptionalResourceId::none(),
        pindex: OptionalResourceIndex::none(),
        uuid: None,
        slicestackid: OptionalResourceId::none(),
        slicepath: None,
        meshresolution: None,
        kind: None,
    }
}

fn model(objects: Vec<Object>, items: Vec<Item>) -> Model {
    Model {
        unit: None,
        requiredextensions: Vec::new(),
        recommendedextensions: Vec::new(),
        metadata: Vec::new(),
        resources: Resources {
            object: objects,
            ..Resources::empty()
        },
        build: Build {
            uuid: None,
            item: items,
        },
    }
}

fn item(objectid: u32, path: Option<&str>, uuid: Option<&str>) -> Item {
    Item {
        objectid,
        transform: None,
        partnumber: None,
        path: path.map(String::from),
        uuid: uuid.map(String::from),
    }
}

fn namespace(prefix: Option<&str>, uri: &str) -> XmlNamespace {
    XmlNamespace {
        prefix: prefix.map(String::from),
        uri: uri.to_string(),
    }
}

fn two_model_package() -> ThreemfPackage {
    let root = model(
        vec![object(1)],
        vec![item(1, None, Some("a")), item(7, Some("/3D/sub.model"), Some("b"))],
    );
    let sub = model(vec![object(7), object(8)], vec![]);
    let mut subs = PartMap::new();
    subs.insert("/3D/sub.model".to_string(), sub);
    let mut p = ThreemfPackage::from_model(root);
    p.sub_models = subs;
    p
}

#[test]
fn part_map_reads_back_what_was_written() {
    let mut m: PartMap<u32> = PartMap::new();
    assert!(!m.contains_key("a"));
    m.insert("a".to_string(), 1);
    m.insert("b".to_string(), 2);
    assert_eq!(m.get("a"), Some(&1));
    assert_eq!(m.get("b"), Some(&2));
    m.insert("a".to_string(), 3);
    assert_eq!(m.get("a"), Some(&3));
    assert_eq!(m.len(), 2);
    assert_eq!(m.entries()[0].0, "a");
    assert_eq!(m.get("c"), None);
}

#[test]
fn paths_split_names_and_extensions() {
    assert_eq!(path_file_name("3D/_rels/3dmodel.model.rels"), "3dmodel.model.rels");
    assert_eq!(path_file_name("plain"), "plain");
    assert_eq!(name_extension("3dmodel.model.rels"), Some("rels"));
    assert_eq!(name_extension(".rels"), None);
    assert_eq!(name_extension("noext"), None);
    assert_eq!(name_extension("file."), Some(""));
    assert_eq!(try_strip_leading_slash("/3D/a.model"), "3D/a.model");
    assert_eq!(try_strip_leading_slash("3D/a.model"), "3D/a.model");
}

#[test]
fn relationship_parts_are_found_by_extension() {
    assert_eq!(
        relationship_file_path("3D/_rels/3dmodel.model.rels", "rels", "_rels/.rels"),
        Some("/3D/_rels/3dmodel.model.rels".to_string())
    );
    assert_eq!(relationship_file_path("_rels/.rels", "rels", "_rels/.rels"), None);
    assert_eq!(relationship_file_path("3D/3dmodel.model", "rels", "_rels/.rels"), None);
    assert_eq!(
        relationship_file_path("a/b.xml", "xml", "a/b.xml"),
        None
    );
}

#[test]
fn relationship_extension_comes_from_content_types() {
    let ct = ContentTypes {
        defaults: vec![
            DefaultContentTypes {
                extension: "model".to_string(),
                content_type: DefaultContentTypeEnum::Model,
            },
            DefaultContentTypes {
                extension: "xml".to_string(),
                content_type: DefaultContentTypeEnum::Relationship,
            },
        ],
    };
    assert_eq!(determine_relationships_extension(&ct), "xml");
    assert_eq!(
        determine_relationships_extension(&ContentTypes { defaults: vec![] }),
        "rels"
    );
    assert_eq!(root_relationships_filename("xml"), "_rels/.xml");
}

#[test]
fn root_model_path_is_the_first_model_relationship() {
    let rels = Relationships {
        relationships: vec![
            Relationship {
                id: "t".to_string(),
                target: "/Metadata/thumbnail.png".to_string(),
                relationship_type: RelationshipType::Thumbnail,
            },
            Relationship {
                id: "m".to_string(),
                target: "/3D/3dmodel.model".to_string(),
                relationship_type: RelationshipType::Model,
            },
            Relationship {
                id: "m2".to_string(),
                target: "/3D/other.model".to_string(),
                relationship_type: RelationshipType::Model,
            },
        ],
    };
    assert_eq!(find_root_model_path(&rels), Some("/3D/3dmodel.model".to_string()));
    assert_eq!(find_root_model_path(&Relationships { relationships: vec![] }), None);
}

#[test]
fn package_from_model_has_root_relationship() {
    let p = ThreemfPackage::from_model(model(vec![object(1)], vec![]));
    let rels = p.relationships.get("_rels/.rels").unwrap();
    assert_eq!(rels.relationships.len(), 1);
    assert_eq!(rels.relationships[0].id, "rel0");
    assert_eq!(rels.relationships[0].target, "3D/3dmodel.model");
    assert_eq!(rels.relationships[0].relationship_type, RelationshipType::Model);
    assert_eq!(p.content_types.defaults.len(), 2);
    assert_eq!(p.content_types.defaults[1].extension, "rels");
    assert_eq!(p.get_namespaces_on_model(None), None);
    assert_eq!(p.sub_models.len(), 0);
}

#[test]
fn processor_sorts_parts_by_relationship() {
    let mut proc = ThreemfPackageProcessor::new(ContentTypes { defaults: vec![] }, PartMap::new());
    assert!(!proc.has_root());
    proc.add_model(
        "/3D/3dmodel.model".to_string(),
        "/3D/3dmodel.model",
        model(vec![object(1)], vec![]),
        vec![namespace(None, "http://schemas.microsoft.com/3dmanufacturing/core/2015/02")],
    );
    proc.add_model(
        "/3D/sub.model".to_string(),
        "/3D/3dmodel.model",
        model(vec![object(2)], vec![]),
        vec![namespace(Some("p"), "x"), namespace(Some("q"), "y")],
    );
    proc.add_thumbnail("/Metadata/thumbnail.PNG".to_string(), Some("PNG"), vec![1, 2, 3]);
    proc.add_thumbnail("/Metadata/raw".to_string(), None, vec![4]);
    proc.add_unknown_part("/Metadata/data.bin".to_string(), vec![9, 9]);
    assert!(proc.has_root());
    let p = proc.into_threemf_package();
    assert_eq!(p.root.resources.object[0].id, 1);
    assert_eq!(p.sub_models.get("/3D/sub.model").unwrap().resources.object[0].id, 2);
    let t = p.thumbnails.get("/Metadata/thumbnail.PNG").unwrap();
    assert_eq!(t.format, ImageFormat::Png);
    assert_eq!(t.data, vec![1, 2, 3]);
    assert_eq!(
        p.thumbnails.get("/Metadata/raw").unwrap().format,
        ImageFormat::Unknown(String::new())
    );
    assert_eq!(p.unknown_parts.get("/Metadata/data.bin"), Some(&vec![9, 9]));
    assert_eq!(p.get_namespaces_on_model(None).unwrap().len(), 1);
    let sub_ns = p.get_namespaces_on_model(Some("/3D/sub.model")).unwrap();
    assert_eq!(sub_ns.len(), 2);
    assert_eq!(sub_ns[1].prefix.as_deref(), Some("q"));
    assert_eq!(p.get_namespaces_on_model(Some("/3D/none.model")), None);
}

#[test]
fn package_queries_walk_root_then_sub_models() {
    let p = two_model_package();
    let models = iter_models(&p);
    assert_eq!(models.len(), 2);
    assert_eq!(models[0].path, None);
    assert_eq!(models[1].path, Some("/3D/sub.model"));
    assert_eq!(get_models(&p).len(), 2);
    let objects = get_objects(&p);
    let ids: Vec<(u32, Option<&str>)> = objects
        .iter()
        .map(|o| (o.view.id(), o.origin_model_path))
        .collect();
    assert_eq!(
        ids,
        vec![(1, None), (7, Some("/3D/sub.model")), (8, Some("/3D/sub.model"))]
    );
    assert_eq!(get_items(&p).len(), 2);
    assert_eq!(get_items_by_objectid(&p, 7).len(), 1);
    assert_eq!(get_items_by_objectid(&p, 9).len(), 0);
    assert_eq!(get_item_by_uuid(&p, "b").unwrap().view.object_id(), 7);
    assert!(get_item_by_uuid(&p, "zzz").is_none());
}

#[test]
fn package_validation_resolves_items_in_sub_models() {
    let p = two_model_package();
    let v = Validator::new()
        .with_rule(ValidationRule::ObjectIdReference)
        .with_rule(ValidationRule::BuildItemReference);
    let result = v.validate_package(&p);
    assert!(result.is_valid, "{:?}", result.issues);
    assert!(result.issues.is_empty());

    let empty = ThreemfPackage::from_model(model(vec![object(1)], vec![]));
    let result = Validator::new()
        .with_rule(ValidationRule::BuildItemReference)
        .validate_package(&empty);
    assert!(!result.is_valid);
    assert_eq!(result.issues[0].message, "Package does not contain any Build Items");
}

#[test]
fn validate_model_concatenates_rule_issues_in_order() {
    let m = model(vec![object(0), object(1)], vec![item(5, None, None)]);
    let v = Validator::new()
        .with_rule(ValidationRule::BuildItemReference)
        .with_rule(ValidationRule::ObjectIdReference);
    let result = v.validate_model(&m);
    assert_eq!(result.issues.len(), 2);
    assert!(result.issues[0].message.starts_with("A Build Item"));
    assert!(result.issues[1].message.starts_with("Object ID cannot be 0"));
    assert!(!result.is_valid);
    assert!(Validator::new().validate_model(&m).is_valid);
}

fn rel(id: &str, target: &str, relationship_type: RelationshipType) -> Relationship {
    Relationship {
        id: id.to_string(),
        target: target.to_string(),
        relationship_type,
    }
}

fn write(filename: &str, source: PartSource) -> PartWrite {
    PartWrite {
        filename: filename.to_string(),
        source,
    }
}

#[test]
fn part_writes_follow_the_relationships() {
    let mut pkg = ThreemfPackage::from_model(model(vec![object(1)], vec![]));
    let mut thumbnails = PartMap::new();
    thumbnails.insert(
        "/Thumbnails/t.png".to_string(),
        ThumbnailHandle {
            data: vec![1, 2, 3],
            format: ImageFormat::Png,
        },
    );
    pkg.thumbnails = thumbnails;
    let mut unknown = PartMap::new();
    unknown.insert("/Metadata/test.txt".to_string(), vec![7u8]);
    pkg.unknown_parts = unknown;
    let mut sub_models = PartMap::new();
    sub_models.insert("/3D/other.model".to_string(), model(vec![object(2)], vec![]));
    pkg.sub_models = sub_models;
    let mut rels = PartMap::new();
    rels.insert(
        "_rels/.rels".to_string(),
        Relationships {
            relationships: vec![
                rel("rel0", "/3D/3dmodel.model", RelationshipType::Model),
                rel("rel1", "/Thumbnails/t.png", RelationshipType::Thumbnail),
                rel("rel2", "/Metadata/test.txt", RelationshipType::Unknown("Metadata/text".to_string())),
            ],
        },
    );
    rels.insert(
        "/3D/_rels/3dmodel.model.rels".to_string(),
        Relationships {
            relationships: vec![rel("rel3", "/3D/other.model", RelationshipType::Model)],
        },
    );
    pkg.relationships = rels;

    let writes = pkg.part_writes().unwrap();
    assert_eq!(
        writes,
        vec![
            write("[Content_Types].xml", PartSource::ContentTypes),
            write("_rels/.rels", PartSource::Relationships("_rels/.rels".to_string())),
            write("3D/3dmodel.model", PartSource::RootModel),
            write("Thumbnails/t.png", PartSource::Thumbnail("/Thumbnails/t.png".to_string())),
            write("Metadata/test.txt", PartSource::UnknownPart("/Metadata/test.txt".to_string())),
            write(
                "/3D/_rels/3dmodel.model.rels",
                PartSource::Relationships("/3D/_rels/3dmodel.model.rels".to_string())
            ),
            write("3D/other.model", PartSource::SubModel("/3D/other.model".to_string())),
        ]
    );
}

#[test]
fn part_writes_fail_on_a_missing_target() {
    let pkg = ThreemfPackage::from_model(model(vec![], vec![]));
    let mut missing_thumbnail = ThreemfPackage::from_model(model(vec![], vec![]));
    let mut rels = PartMap::new();
    rels.insert(
        "_rels/.rels".to_string(),
        Relationships {
            relationships: vec![
                rel("rel0", "3D/3dmodel.model", RelationshipType::Model),
                rel("rel1", "/Thumbnails/t.png", RelationshipType::Thumbnail),
                rel("rel2", "/x.bin", RelationshipType::Unknown("x".to_string())),
            ],
        },
    );
    missing_thumbnail.relationships = rels;
    let err = missing_thumbnail.part_writes().unwrap_err();
    assert_eq!(err, PackageWriteError::MissingThumbnail("/Thumbnails/t.png".to_string()));
    assert_eq!(
        err.message(),
        "No thumbnail image found for relationship target /Thumbnails/t.png"
    );

    let mut missing_model = pkg;
    let mut rels = PartMap::new();
    rels.insert(
        "/3D/_rels/a.model.rels".to_string(),
        Relationships {
            relationships: vec![rel("rel0", "/3D/a.model", RelationshipType::Model)],
        },
    );
    missing_model.relationships = rels;
    let err = missing_model.part_writes().unwrap_err();
    assert_eq!(err.message(), "No model found for relationship target /3D/a.model");
    assert_eq!(
        PackageWriteError::MissingData("/x.bin".to_string()).message(),
        "No data found for relationship target /x.bin"
    );
}

#[test]
fn relationship_parts_are_discovered_among_archive_names() {
    let names: Vec<String> = vec![
        "[Content_Types].xml",
        "_rels/.rels",
        "3D/_rels/3dmodel.model.rels",
        "3D/3dmodel.model",
        "3D/Objects/_rels/part.model.rels",
        "Thumbnails/a.png",
    ]
    .into_iter()
    .map(String::from)
    .collect();
    assert_eq!(
        discover_relationship_files(&names, "rels", "_rels/.rels"),
        vec![
            "/3D/_rels/3dmodel.model.rels".to_string(),
            "/3D/Objects/_rels/part.model.rels".to_string()
        ]
    );
    assert_eq!(discover_relationship_files(&names, "xml", "_rels/.rels"), vec!["/[Content_Types].xml".to_string()]);
}

#[test]
fn content_and_relationship_types_round_trip_their_names() {
    for name in [
        "application/vnd.ms-package.3dmanufacturing-3dmodel+xml",
        "application/vnd.openxmlformats-package.relationships+xml",
        "image/png",
        "image/jpeg",
        "Metadata/text",
    ] {
        assert_eq!(DefaultContentTypeEnum::from_name(name).name(), name);
    }
    assert_eq!(DefaultContentTypeEnum::from_name("image/png"), DefaultContentTypeEnum::ImagePng);
    assert_eq!(
        DefaultContentTypeEnum::from_name("text/plain"),
        DefaultContentTypeEnum::Unknown("text/plain".to_string())
    );
    assert_eq!(
        DefaultContentTypeEnum::Model.name(),
        "application/vnd.ms-package.3dmanufacturing-3dmodel+xml"
    );
    assert_eq!(
        RelationshipType::from_name("http://schemas.microsoft.com/3dmanufacturing/2013/01/3dmodel"),
        RelationshipType::Model
    );
    assert_eq!(
        RelationshipType::Thumbnail.name(),
        "http://schemas.openxmlformats.org/package/2006/relationships/metadata/thumbnail"
    );
    assert_eq!(
        RelationshipType::from_name("urn:custom"),
        RelationshipType::Unknown("urn:custom".to_string())
    );
    assert_eq!(RelationshipType::from_name("urn:custom").name(), "urn:custom");
}
