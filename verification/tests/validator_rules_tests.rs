use threemf2::domain::build_section::{Build, Item};
use threemf2::domain::component::{Component, Components};
use threemf2::domain::mesh::{Mesh, Triangles, Vertices};
use threemf2::domain::model::Model;
use threemf2::domain::object::{Object, ObjectKind};
use threemf2::domain::resources::{BaseMaterials, Resources};
use threemf2::types::{OptionalResourceId, OptionalResourceIndex};
use threemf2::validator::{Severity, ValidationRule};
use threemf2::validator_rules::{
    run_rule_for_model, validate_build_item_references, validate_component_references,
    validate_object_id_reference, validate_resource_id_reference,
};

fn resources(object: Vec<Object>, basematerials: Vec<BaseMaterials>) -> Resources {
    Resources {
        object,
        basematerials,
        ..Resources::empty()
    }
}

fn create_test_model(resources: Resources, build: Build) -> Model {
    Model {
        unit: None,
        requiredextensions: Vec::new(),
        recommendedextensions: Vec::new(),
        metadata: Vec::new(),
        resources,
        build,
    }
}

fn create_test_object(id: u32) -> Object {
    Object {
        id,
        objecttype: None,
        thumbnail: None,
        partnumber: None,
        name: None,
        pid: OptionalResourceId::none(),
        pindex: OptionalResourceIndex::none(),
        uuid: None,
        slicestackid: OptionalResourceId::none(),
        slicepath: None,
        meshresolution: None,
        kind: None,
    }
}

fn create_test_object_with_pid(id: u32, pid: u32) -> Object {
    Object {
        pid: OptionalResourceId::new(pid),
        ..create_test_object(id)
    }
}

fn create_empty_build() -> Build {
    Build {
        uuid: None,
        item: Vec::new(),
    }
}

fn create_test_build_with_items(items: Vec<Item>) -> Build {
    Build {
        uuid: None,
        item: items,
    }
}

fn create_test_build_item(objectid: u32) -> Item {
    Item {
        objectid,
        transform: None,
        partnumber: None,
        path: None,
        uuid: None,
    }
}

fn create_test_component(objectid: u32) -> Component {
    Component {
        objectid,
        transform: None,
        path: None,
        uuid: None,
    }
}

fn create_test_object_with_components(id: u32, components: Vec<Component>) -> Object {
    Object {
        kind: Some(ObjectKind::Components(Components {
            component: components,
        })),
        ..create_test_object(id)
    }
}

fn create_test_mesh_object(id: u32) -> Object {
    Object {
        kind: Some(ObjectKind::Mesh(Mesh {
            vertices: Vertices { vertex: vec![] },
            triangles: Triangles { triangle: vec![] },
            trianglesets: None,
            beamlattice: None,
        })),
        ..create_test_object(id)
    }
}

#[test]
fn test_object_id_unique_valid() {
    let res = resources(
        vec![
            create_test_object(1),
            create_test_object(2),
            create_test_object(3),
        ],
        Vec::new(),
    );
    let model = create_test_model(res, create_empty_build());

    let issues = validate_object_id_reference(&model, None);
    assert!(issues.is_empty());
}

#[test]
fn test_object_id_duplicate() {
    let res = resources(vec![create_test_object(1), create_test_object(1)], Vec::new());
    let model = create_test_model(res, create_empty_build());

    let issues = validate_object_id_reference(&model, None);
    assert_eq!(issues.len(), 1);
    assert_eq!(issues[0].severity, Severity::Error);
    assert!(issues[0].message.contains("Duplicate object ID 1"));
}

#[test]
fn test_object_id_zero() {
    let res = resources(vec![create_test_object(0)], Vec::new());
    let model = create_test_model(res, create_empty_build());

    let issues = validate_object_id_reference(&model, None);
    assert_eq!(issues.len(), 1);
    assert_eq!(issues[0].severity, Severity::Error);
    assert!(issues[0].message.contains("Object ID cannot be 0"));
}

#[test]
fn test_object_id_out_of_range() {
    let res = resources(vec![create_test_object(2_147_483_648)], Vec::new());
    let model = create_test_model(res, create_empty_build());

    let issues = validate_object_id_reference(&model, None);
    assert_eq!(issues.len(), 1);
    assert_eq!(issues[0].severity, Severity::Error);
    assert!(issues[0].message.contains("exceeds maximum allowed value"));
}

#[test]
fn test_object_id_multiple_issues() {
    let res = resources(
        vec![
            create_test_object(0),
            create_test_object(1),
            create_test_object(1),
            create_test_object(2_147_483_648),
        ],
        Vec::new(),
    );
    let model = create_test_model(res, create_empty_build());

    let issues = validate_object_id_reference(&model, None);
    assert_eq!(issues.len(), 3);
    assert!(issues.iter().all(|i| i.severity == Severity::Error));
}

#[test]
fn test_resource_id_valid_pid() {
    let basematerials = vec![BaseMaterials {
        id: 10,
        base: vec![],
    }];
    let res = resources(vec![create_test_object_with_pid(1, 10)], basematerials);
    let model = create_test_model(res, create_empty_build());

    let issues = validate_resource_id_reference(&model, None);
    assert!(issues.is_empty());
}

#[test]
fn test_resource_id_missing_pid_reference() {
    let res = resources(vec![create_test_object_with_pid(1, 10)], Vec::new());
    let model = create_test_model(res, create_empty_build());

    let issues = validate_resource_id_reference(&model, None);
    assert_eq!(issues.len(), 1);
    assert_eq!(issues[0].severity, Severity::Error);
    assert!(issues[0]
        .message
        .contains("no BaseMaterials with that ID exists"));
}

#[test]
fn test_resource_id_no_pid() {
    let res = resources(vec![create_test_object(1)], Vec::new());
    let model = create_test_model(res, create_empty_build());

    let issues = validate_resource_id_reference(&model, None);
    assert!(issues.is_empty());
}

#[test]
fn test_pindex_without_pid() {
    let object = Object {
        pindex: OptionalResourceIndex::new(0),
        ..create_test_object(1)
    };
    let res = resources(vec![object], Vec::new());
    let model = create_test_model(res, create_empty_build());

    let issues = validate_resource_id_reference(&model, None);
    assert_eq!(issues.len(), 1);
    assert_eq!(issues[0].severity, Severity::Error);
    assert!(issues[0].message.contains("pindex but no pid"));
}

#[test]
fn test_multiple_objects_with_pid_issues() {
    let basematerials = vec![BaseMaterials {
        id: 5,
        base: vec![],
    }];
    let res = resources(
        vec![
            create_test_object_with_pid(1, 5),
            create_test_object_with_pid(2, 10),
            create_test_object(3),
            create_test_object_with_pid(4, 5),
        ],
        basematerials,
    );
    let model = create_test_model(res, create_empty_build());

    let issues = validate_resource_id_reference(&model, None);
    assert_eq!(issues.len(), 1);
    assert!(issues[0]
        .message
        .contains("no BaseMaterials with that ID exists"));
}

#[test]
fn test_run_rule_dispatcher() {
    let res = resources(vec![create_test_object(1)], Vec::new());
    let model = create_test_model(res, create_empty_build());

    let object_issues = run_rule_for_model(&ValidationRule::ObjectIdReference, &model);
    assert!(object_issues.is_empty());

    let resource_issues = run_rule_for_model(&ValidationRule::ResourceIdReference, &model);
    assert!(resource_issues.is_empty());
}

#[test]
fn test_build_item_reference_valid() {
    let res = resources(vec![create_test_mesh_object(1)], Vec::new());
    let build = create_test_build_with_items(vec![create_test_build_item(1)]);
    let model = create_test_model(res, build);

    let issues = validate_build_item_references(&model, None);
    assert!(
        issues.is_empty(),
        "Expected no issues for valid build item reference"
    );
}

#[test]
fn test_build_item_reference_missing_object() {
    let res = resources(vec![create_test_mesh_object(1)], Vec::new());
    let build = create_test_build_with_items(vec![create_test_build_item(2)]);
    let model = create_test_model(res, build);

    let issues = validate_build_item_references(&model, None);
    assert_eq!(
        issues.len(),
        1,
        "Expected one warning for missing object reference"
    );
    assert_eq!(issues[0].severity, Severity::Warning);
    assert!(issues[0].message.contains("unknown Object with Id: 2"));
}

#[test]
fn test_build_item_reference_multiple_items() {
    let res = resources(
        vec![create_test_mesh_object(1), create_test_mesh_object(2)],
        Vec::new(),
    );
    let build = create_test_build_with_items(vec![
        create_test_build_item(1),
        create_test_build_item(2),
        create_test_build_item(3),
        create_test_build_item(4),
    ]);
    let model = create_test_model(res, build);

    let issues = validate_build_item_references(&model, None);
    assert_eq!(
        issues.len(),
        2,
        "Expected two warnings for missing object references"
    );
    assert!(issues.iter().all(|i| i.severity == Severity::Warning));
    assert!(issues[0].message.contains("Id: 3") || issues[0].message.contains("Id: 4"));
}

#[test]
fn test_build_item_reference_empty_build() {
    let res = resources(vec![create_test_mesh_object(1)], Vec::new());
    let build = create_test_build_with_items(vec![]);
    let model = create_test_model(res, build);

    let issues = validate_build_item_references(&model, None);
    assert!(
        issues.is_empty(),
        "Empty build should have no validation issues"
    );
}

#[test]
fn test_component_reference_valid() {
    let res = resources(
        vec![
            create_test_mesh_object(1),
            create_test_object_with_components(2, vec![create_test_component(1)]),
        ],
        Vec::new(),
    );
    let model = create_test_model(res, create_empty_build());

    let issues = validate_component_references(&model, None);
    assert!(
        issues.is_empty(),
        "Expected no issues for valid component reference"
    );
}

#[test]
fn test_component_reference_missing_object() {
    let res = resources(
        vec![
            create_test_mesh_object(1),
            create_test_object_with_components(2, vec![create_test_component(999)]),
        ],
        Vec::new(),
    );
    let model = create_test_model(res, create_empty_build());

    let issues = validate_component_references(&model, None);
    assert_eq!(
        issues.len(),
        1,
        "Expected one warning for missing object reference"
    );
    assert_eq!(issues[0].severity, Severity::Warning);
    assert!(issues[0].message.contains("unknown Object with Id: 999"));
}

#[test]
fn test_component_reference_multiple_components() {
    let res = resources(
        vec![
            create_test_mesh_object(1),
            create_test_mesh_object(2),
            create_test_object_with_components(
                3,
                vec![
                    create_test_component(1),
                    create_test_component(2),
                    create_test_component(10),
                    create_test_component(20),
                ],
            ),
        ],
        Vec::new(),
    );
    let model = create_test_model(res, create_empty_build());

    let issues = validate_component_references(&model, None);
    assert_eq!(
        issues.len(),
        2,
        "Expected two warnings for missing object references"
    );
    assert!(issues.iter().all(|i| i.severity == Severity::Warning));
}

#[test]
fn test_component_reference_no_components() {
    let res = resources(
        vec![create_test_mesh_object(1), create_test_mesh_object(2)],
        Vec::new(),
    );
    let model = create_test_model(res, create_empty_build());

    let issues = validate_component_references(&model, None);
    assert!(
        issues.is_empty(),
        "Model without components should have no issues"
    );
}

#[test]
fn test_component_reference_self_referential() {
    let res = resources(
        vec![create_test_object_with_components(
            1,
            vec![create_test_component(1)],
        )],
        Vec::new(),
    );
    let model = create_test_model(res, create_empty_build());

    let issues = validate_component_references(&model, None);
    assert!(
        issues.is_empty(),
        "Self-reference should be valid since object exists"
    );
}

#[test]
fn test_component_reference_cross_reference() {
    let res = resources(
        vec![
            create_test_object_with_components(1, vec![create_test_component(2)]),
            create_test_object_with_components(2, vec![create_test_component(1)]),
        ],
        Vec::new(),
    );
    let model = create_test_model(res, create_empty_build());

    let issues = validate_component_references(&model, None);
    assert!(
        issues.is_empty(),
        "Cross-references between existing objects should be valid"
    );
}

#[test]
fn test_run_rule_for_model_build_item_reference() {
    let res = resources(vec![create_test_mesh_object(1)], Vec::new());
    let build = create_test_build_with_items(vec![create_test_build_item(1)]);
    let model = create_test_model(res, build);

    let issues = run_rule_for_model(&ValidationRule::BuildItemReference, &model);
    assert!(issues.is_empty());
}

#[test]
fn test_run_rule_for_model_component_reference() {
    let res = resources(
        vec![
            create_test_mesh_object(1),
            create_test_object_with_components(2, vec![create_test_component(1)]),
        ],
        Vec::new(),
    );
    let model = create_test_model(res, create_empty_build());

    let issues = run_rule_for_model(&ValidationRule::ComponentReference, &model);
    assert!(issues.is_empty());
}

#[test]
fn test_all_new_rules_with_issues() {
    let res = resources(
        vec![
            create_test_mesh_object(1),
            create_test_object_with_components(2, vec![create_test_component(999)]),
        ],
        Vec::new(),
    );
    let build = create_test_build_with_items(vec![
        create_test_build_item(1),
        create_test_build_item(998),
    ]);
    let model = create_test_model(res, build);

    let build_issues = run_rule_for_model(&ValidationRule::BuildItemReference, &model);
    let component_issues = run_rule_for_model(&ValidationRule::ComponentReference, &model);

    assert_eq!(build_issues.len(), 1);
    assert_eq!(component_issues.len(), 1);
    assert!(build_issues[0].message.contains("998"));
    assert!(component_issues[0].message.contains("999"));
}

#[test]
fn object_id_messages_are_exact() {
    let res = resources(
        vec![
            create_test_object(0),
            create_test_object(7),
            create_test_object(7),
            create_test_object(4_000_000_000),
        ],
        Vec::new(),
    );
    let model = create_test_model(res, create_empty_build());
    let issues = validate_object_id_reference(&model, None);
    assert_eq!(issues.len(), 3);
    assert_eq!(
        issues[0].message,
        "Object ID cannot be 0. Object IDs must start at 1. Found at path: root"
    );
    assert_eq!(issues[1].message, "Duplicate object ID 7 found in model resources.");
    assert_eq!(
        issues[2].message,
        "Object ID 4000000000 exceeds maximum allowed value of 2147483647."
    );
}

#[test]
fn resource_id_errors_come_pid_first_then_pindex() {
    let object = Object {
        pindex: OptionalResourceIndex::new(3),
        ..create_test_object(2)
    };
    let res = resources(vec![object, create_test_object_with_pid(5, 42)], Vec::new());
    let model = create_test_model(res, create_empty_build());
    let issues = validate_resource_id_reference(&model, None);
    assert_eq!(issues.len(), 2);
    assert_eq!(
        issues[0].message,
        "Object 5 references pid=42 but no BaseMaterials with that ID exists."
    );
    assert_eq!(
        issues[1].message,
        "Object 2 has pindex but no pid. pindex requires pid to be specified."
    );
}

#[test]
fn unknown_references_name_the_path_in_quotes() {
    let mut item = create_test_build_item(5);
    item.path = Some("/3D/other.model".to_string());
    let res = resources(
        vec![
            create_test_mesh_object(5),
            create_test_object_with_components(6, vec![create_test_component(9)]),
        ],
        Vec::new(),
    );
    let model = create_test_model(res, create_test_build_with_items(vec![item]));
    let items = validate_build_item_references(&model, None);
    assert_eq!(items.len(), 1);
    assert_eq!(
        items[0].message,
        "A Build Item is referencing an unknown Object with Id: 5 at path: \"/3D/other.model\""
    );
    let comps = validate_component_references(&model, None);
    assert_eq!(comps.len(), 1);
    assert_eq!(
        comps[0].message,
        "A Component in Components Object with Id: 6 at path: root is referencing an unknown Object with Id: 9 at path: \"root\""
    );
}
