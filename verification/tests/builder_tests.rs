use threemf2::builder::errors::{
    BooleanShapeError, BuildError, ComponentsObjectError, CompositeMaterialsError, Disp2DGroupError,
    DisplacementMeshObjectError,
    Displacement2DError, ItemError, MeshObjectError, ModelError, MultiPropertiesError,
    ProductionExtensionError, SliceStackBuilderError, Texture2DError, Texture2DGroupError,
};
use threemf2::builder::geometry::{BeamLatticeBuilder, MeshBuilder};
use threemf2::builder::ids::{ObjectId, SliceStackId};
use threemf2::builder::leaf_builders::{BallBuilder, BeamBuilder, BeamSetBuilder};
use threemf2::builder::model_builder::ModelBuilder;
use threemf2::domain::beamlattice::{BallMode, CapMode, ClippingMode};
use threemf2::domain::boolean::BooleanOperation;
use threemf2::domain::material::{BlendMethod, TextureContentType};
use threemf2::domain::model::Unit;
use threemf2::domain::object::ObjectType;
use threemf2::domain::slice::MeshResolution;
use threemf2::domain::transform::Transform;
use threemf2::namespaces::{extensions_definition, ThreemfNamespace};
use threemf2::types::{Color, Double, OptionalResourceId, OptionalResourceIndex};
use threemf2::validator::ValidationRule;
use threemf2::validator_rules::run_rule_for_model;

fn d(x: f64) -> Double {
    Double::from_bits(x.to_bits())
}

fn v3(x: f64, y: f64, z: f64) -> [Double; 3] {
    [d(x), d(y), d(z)]
}

fn same_set(a: &[ThreemfNamespace], b: &[ThreemfNamespace]) -> bool {
    a.len() == b.len() && a.iter().all(|x| b.contains(x))
}

#[test]
fn builder_test_model_builder_basic() {
    let mut builder = ModelBuilder::new(Unit::Millimeter, true);
    builder.unit(Unit::Millimeter);
    builder.add_metadata("Application", Some("Test App"));
    builder.add_build(None).unwrap();

    let cube_id = builder
        .add_mesh_object(|obj| {
            obj.name("Cube");
            obj.object_type(ObjectType::Model);
            obj.entity()
                .add_vertex(&v3(0.0, 0.0, 0.0))
                .add_vertex(&v3(10.0, 0.0, 0.0))
                .add_vertex(&v3(10.0, 10.0, 0.0))
                .add_vertex(&v3(0.0, 10.0, 0.0))
                .add_triangle(&[0, 1, 2])
                .add_triangle(&[0, 2, 3]);
            Ok(())
        })
        .unwrap();

    builder.add_build_item(cube_id).unwrap();
    let model = builder.build().unwrap();

    assert_eq!(model.unit, Some(Unit::Millimeter));
    assert_eq!(model.metadata.len(), 1);
    assert_eq!(model.metadata[0].name, "Application");
    assert_eq!(model.resources.object.len(), 1);
    assert_eq!(model.resources.object[0].name.as_deref(), Some("Cube"));
    assert_eq!(model.build.item.len(), 1);
    assert_eq!(model.build.item[0].objectid, 1);
}

#[test]
fn builder_test_object_id_assignment() {
    let mut builder = ModelBuilder::new(Unit::Millimeter, false);
    let id1 = builder
        .add_mesh_object(|obj| {
            obj.name("Obj1");
            Ok(())
        })
        .unwrap();
    let id2 = builder
        .add_mesh_object(|obj| {
            obj.name("Obj2");
            Ok(())
        })
        .unwrap();
    assert_eq!(id1.0, 1);
    assert_eq!(id2.0, 2);
    let model = builder.build().unwrap();
    assert_eq!(model.resources.object.len(), 2);
    assert_eq!(model.resources.object[0].id, 1);
    assert_eq!(model.resources.object[1].id, 2);
}

#[test]
fn builder_test_multiple_passes() {
    let mut builder = ModelBuilder::new(Unit::Millimeter, true);
    builder.unit(Unit::Centimeter);
    let obj1_id = builder
        .add_mesh_object(|obj| {
            obj.name("First");
            Ok(())
        })
        .unwrap();
    builder.add_metadata("Pass", Some("Second"));
    let obj2_id = builder
        .add_mesh_object(|obj| {
            obj.name("Second");
            Ok(())
        })
        .unwrap();
    builder.add_build(None).unwrap();
    builder.add_build_item(obj1_id).unwrap();
    builder.add_build_item(obj2_id).unwrap();
    let model = builder.build().unwrap();
    assert_eq!(model.unit, Some(Unit::Centimeter));
    assert_eq!(model.metadata.len(), 1);
    assert_eq!(model.resources.object.len(), 2);
    assert_eq!(model.build.item.len(), 2);
}

#[test]
fn builder_test_error_cases_for_build_in_model() {
    let mut builder = ModelBuilder::new(Unit::Millimeter, true);
    builder.add_mesh_object(|_obj| Ok(())).unwrap();
    assert!(matches!(builder.build(), Err(ModelError::BuildItemNotSet)));

    let mut builder = ModelBuilder::new(Unit::Millimeter, false);
    assert!(matches!(
        builder.add_build(None),
        Err(ModelError::BuildOnlyAllowedInRootModel)
    ));
}

#[test]
fn builder_test_production_ext_add_prod_ns_to_required_extensions() {
    let mut builder = ModelBuilder::new(Unit::Millimeter, true);
    builder.make_production_extension_required().unwrap();
    builder.add_build(Some(String::from("build-uuid"))).unwrap();
    let obj_id = builder
        .add_mesh_object(|obj| {
            obj.uuid("obj-uuid");
            obj.name("test");
            Ok(())
        })
        .unwrap();
    builder
        .add_build_item_advanced(obj_id, |i| {
            i.uuid("item-uuid");
        })
        .unwrap();
    let model = builder.build().unwrap();
    assert_eq!(model.requiredextensions, vec![ThreemfNamespace::Prod]);
}

#[test]
fn builder_test_production_ext_requires_object_uuid() {
    let mut builder = ModelBuilder::new(Unit::Millimeter, true);
    builder.make_production_extension_required().unwrap();
    builder.add_build(Some(String::from("build-uuid"))).unwrap();
    let obj_id = builder.add_mesh_object(|obj| {
        obj.name("test");
        Ok(())
    });
    assert!(matches!(obj_id, Err(MeshObjectError::ObjectUuidNotSet)));
}

#[test]
fn builder_test_production_ext_requires_build_uuid() {
    let mut builder = ModelBuilder::new(Unit::Millimeter, true);
    builder.make_production_extension_required().unwrap();
    let result = builder.add_build(None);
    assert!(matches!(
        result,
        Err(ModelError::BuildError(BuildError::BuildUuidNotSet))
    ));
}

#[test]
fn builder_test_production_ext_requires_build_item_uuid() {
    let mut builder = ModelBuilder::new(Unit::Millimeter, true);
    builder.make_production_extension_required().unwrap();
    builder.add_build(Some(String::from("build-uuid"))).unwrap();
    let obj_id = builder
        .add_mesh_object(|obj| {
            obj.name("test");
            obj.uuid("some-uuid");
            Ok(())
        })
        .unwrap();
    let err = builder.add_build_item(obj_id);
    assert!(matches!(
        err,
        Err(ModelError::ItemError(ItemError::ItemUuidNotSet))
    ));
}

#[test]
fn builder_test_production_ext_required_for_build_item_path() {
    let mut builder = ModelBuilder::new(Unit::Millimeter, true);
    builder.add_build(None).unwrap();
    let obj_id = builder.add_mesh_object(|_obj| Ok(())).unwrap();
    let result = builder.add_build_item_advanced(obj_id, |i| {
        i.path("some-path");
    });
    assert!(matches!(
        result,
        Err(ModelError::ItemError(
            ItemError::ItemPathSetWithoutProductionExtension
        ))
    ));
}

#[test]
fn builder_test_production_ext_allows_path_on_component_and_build_item() {
    let mut builder = ModelBuilder::new(Unit::Millimeter, true);
    builder.make_production_extension_required().unwrap();
    let mesh_obj_id = builder
        .add_mesh_object(|obj| {
            obj.uuid("object-uuid");
            Ok(())
        })
        .unwrap();
    if let Err(err) = builder.add_components_object(|obj| {
        obj.uuid("obj-uuid");
        obj.entity().add_component_advanced(mesh_obj_id, |c| {
            c.uuid("comp-uuid").path("comp-path");
        });
        Ok(())
    }) {
        panic!("{err:?}");
    }
    builder.add_build(Some(String::from("build-uuid"))).unwrap();
    if let Err(err) = builder.add_build_item_advanced(mesh_obj_id, |i| {
        i.uuid("some-uuid").path("some-path");
    }) {
        panic!("{err:?}");
    }
}

#[test]
fn test_material_and_displacement_extensions_from_resources() {
    let mut builder = ModelBuilder::new(Unit::Millimeter, true);
    builder.add_build(None).unwrap();
    builder.add_color_group(|group| {
        group.add_color(Color { r: 255, g: 0, b: 0, a: 255 });
    });
    builder
        .add_displacement2d(|disp| {
            disp.path("/3D/Textures/disp.png");
        })
        .unwrap();
    let model = builder.build().unwrap();
    assert!(same_set(
        &model.requiredextensions,
        &[ThreemfNamespace::Displacement, ThreemfNamespace::Material]
    ));
}

#[test]
fn test_add_displacement_mesh_object() {
    let mut builder = ModelBuilder::new(Unit::Millimeter, true);
    builder.add_build(None).unwrap();
    let obj_id = builder
        .add_displacement_mesh_object(|obj| {
            obj.entity()
                .add_vertices(&[v3(0.0, 0.0, 0.0), v3(1.0, 0.0, 0.0), v3(0.0, 1.0, 0.0)]);
            obj.entity().add_triangle(&[0, 1, 2]);
            Ok(())
        })
        .unwrap();
    builder.add_build_item(obj_id).unwrap();
    let model = builder.build().unwrap();
    let obj = &model.resources.object[0];
    assert!(obj.get_displacement_mesh().is_some());
}

#[test]
fn builder_test_build_item_advanced_tests() {
    let mut builder = ModelBuilder::new(Unit::Millimeter, true);
    let _ = builder.make_production_extension_required();
    let obj_id = builder
        .add_mesh_object(|obj| {
            obj.name("test").uuid("obj-uuid");
            Ok(())
        })
        .unwrap();
    builder.add_build(Some(String::from("build-uuid"))).unwrap();
    let one = d(1.0);
    let zero = d(0.0);
    let transform = Transform([
        one, zero, zero, one, zero, zero, one, zero, zero, one, zero, zero,
    ]);
    builder
        .add_build_item_advanced(obj_id, |i| {
            i.transform(transform)
                .partnumber("part")
                .path("/path/path.model")
                .uuid("uuid");
        })
        .unwrap();
    let model = builder.build().unwrap();
    let item = &model.build.item[0];
    assert_eq!(item.objectid, 1);
    assert_eq!(item.transform, Some(transform));
    assert_eq!(item.partnumber.as_deref(), Some("part"));
    assert_eq!(item.path.as_deref(), Some("/path/path.model"));
    assert_eq!(item.uuid.as_deref(), Some("uuid"));
}

#[test]
fn builder_test_object_builder_tests() {
    let mut builder = ModelBuilder::new(Unit::Millimeter, true);
    let obj_id = builder
        .add_mesh_object(|obj| {
            obj.object_type(ObjectType::Support);
            obj.name("support obj");
            obj.part_number("part123");
            obj.uuid("obj-uuid");
            Ok(())
        })
        .unwrap();
    builder.add_build(None).unwrap();
    builder.add_build_item(obj_id).unwrap();
    let model = builder.build().unwrap();
    let obj = &model.resources.object[0];
    assert_eq!(obj.objecttype, Some(ObjectType::Support));
    assert_eq!(obj.name.as_deref(), Some("support obj"));
    assert_eq!(obj.partnumber.as_deref(), Some("part123"));
    assert_eq!(obj.uuid.as_deref(), Some("obj-uuid"));
}

#[test]
fn builder_test_add_mesh_object() {
    let mut builder = ModelBuilder::new(Unit::Millimeter, true);
    let obj_id = builder
        .add_mesh_object(|obj| {
            let m = obj.entity();
            m.add_vertices(&[v3(0.0, 0.0, 0.0), v3(1.0, 0.0, 0.0), v3(0.0, 1.0, 0.0)]);
            m.add_vertices_flat(&[d(0.0), d(0.0), d(1.0), d(1.0), d(1.0), d(0.0)]);
            m.add_triangles(&[[0, 1, 2]]);
            m.add_triangles_flat(&[0, 2, 3, 1, 3, 4]);
            Ok(())
        })
        .unwrap();
    builder.add_build(None).unwrap();
    builder.add_build_item(obj_id).unwrap();
    let model = builder.build().unwrap();
    let mesh = model.resources.object[0].get_mesh().unwrap();
    assert_eq!(mesh.vertices.vertex.len(), 5);
    assert_eq!(mesh.triangles.triangle.len(), 3);
}

#[test]
fn builder_test_add_composed_part_object() {
    let mut builder = ModelBuilder::new(Unit::Millimeter, true);
    let obj1_id = builder
        .add_mesh_object(|obj| {
            obj.name("obj1");
            Ok(())
        })
        .unwrap();
    let obj2_id = builder
        .add_components_object(|obj| {
            obj.entity().add_component(obj1_id);
            Ok(())
        })
        .unwrap();
    builder.add_build(None).unwrap();
    builder.add_build_item(obj2_id).unwrap();
    let model = builder.build().unwrap();
    let obj = &model.resources.object[1];
    assert!(obj.get_components_object().is_some());
    let comp = &obj.get_components_object().unwrap().component[0];
    assert_eq!(comp.objectid, obj1_id.0);
}

#[test]
fn builder_test_add_composed_part_object_errors_without_production_extension() {
    let mut builder = ModelBuilder::new(Unit::Millimeter, true);
    let obj1_id = builder
        .add_mesh_object(|obj| {
            obj.name("obj1");
            Ok(())
        })
        .unwrap();
    let _obj2_id = builder
        .add_components_object(|obj| {
            obj.entity().add_component(obj1_id);
            Ok(())
        })
        .unwrap();
    let result = builder.add_components_object(|obj| {
        obj.entity().add_component(ObjectId(999));
        Ok(())
    });
    assert!(matches!(
        result,
        Err(ComponentsObjectError::ObjectReferenceNotFoundForComponent)
    ));
    let result = builder.add_components_object(|obj| {
        obj.entity().add_component_advanced(obj1_id, |c| {
            c.path("some-path");
        });
        Ok(())
    });
    assert!(matches!(
        result,
        Err(ComponentsObjectError::PathSetWithoutProductionExtension)
    ));
}

#[test]
fn builder_test_add_composed_part_object_errors_with_production_extension() {
    let mut builder = ModelBuilder::new(Unit::Millimeter, true);
    builder.make_production_extension_required().unwrap();
    let obj1_id = builder
        .add_mesh_object(|obj| {
            obj.name("obj1");
            obj.uuid("some-mesh-uuid");
            Ok(())
        })
        .unwrap();
    let result = builder.add_components_object(|obj| {
        obj.entity().add_component_advanced(obj1_id, |c| {
            c.uuid("some-component-uuid").path("some-component-path");
        });
        Ok(())
    });
    assert!(matches!(result, Err(ComponentsObjectError::ObjectUuidNotSet)));
    let result = builder.add_components_object(|obj| {
        obj.uuid("some-obj-uuid");
        obj.entity().add_component_advanced(obj1_id, |c| {
            c.path("some-component-path");
        });
        Ok(())
    });
    assert!(matches!(
        result,
        Err(ComponentsObjectError::ComponentUuidNotSet)
    ));
}

#[test]
fn builder_test_root_nonroot_tests() {
    let mut builder = ModelBuilder::new(Unit::Millimeter, false);
    assert!(matches!(
        builder.add_build(None),
        Err(ModelError::BuildOnlyAllowedInRootModel)
    ));
    let mut builder = ModelBuilder::new(Unit::Millimeter, true);
    builder.add_mesh_object(|_obj| Ok(())).unwrap();
    assert!(matches!(builder.build(), Err(ModelError::BuildItemNotSet)));
    let mut builder = ModelBuilder::new(Unit::Millimeter, true);
    builder.make_root(false);
    builder.add_mesh_object(|_obj| Ok(())).unwrap();
    let model = builder.build().unwrap();
    assert!(model.build.item.is_empty());
}

#[test]
fn builder_test_metadata_tests() {
    let mut builder = ModelBuilder::new(Unit::Millimeter, true);
    builder.add_metadata("key1", Some("value1"));
    builder.add_metadata("key2", None);
    builder.add_metadata("key3", Some("value3"));
    builder.add_build(None).unwrap();
    let model = builder.build().unwrap();
    assert_eq!(model.metadata.len(), 3);
    assert_eq!(model.metadata[0].name, "key1");
    assert_eq!(model.metadata[0].value.as_deref(), Some("value1"));
    assert_eq!(model.metadata[1].name, "key2");
    assert_eq!(model.metadata[1].value, None);
    assert_eq!(model.metadata[2].name, "key3");
    assert_eq!(model.metadata[2].value.as_deref(), Some("value3"));
}

#[test]
fn builder_test_triangle_sets_builder() {
    let mut builder = ModelBuilder::new(Unit::Millimeter, true);
    let obj_id = builder
        .add_mesh_object(|obj| {
            let m = obj.entity();
            m.add_vertices(&[v3(0.0, 0.0, 0.0), v3(1.0, 0.0, 0.0), v3(0.0, 1.0, 0.0)]);
            m.add_triangles(&[[0, 1, 2]]);
            m.add_triangle_sets(|ts| {
                ts.add_set("Set1", "id1", &[0], &[(1, 5)]);
                ts.add_set("Set2", "id2", &[], &[(10, 20), (30, 40)]);
            });
            Ok(())
        })
        .unwrap();
    builder.add_build(None).unwrap();
    builder.add_build_item(obj_id).unwrap();
    let model = builder.build().unwrap();
    let mesh = model.resources.object[0].get_mesh().unwrap();
    assert!(mesh.trianglesets.is_some());
    let sets = &mesh.trianglesets.as_ref().unwrap().trianglesets;
    assert_eq!(sets.len(), 2);
    assert_eq!(sets[0].name, "Set1");
    assert_eq!(sets[0].identifier, "id1");
    assert_eq!(sets[0].triangle_ref.len(), 1);
    assert_eq!(sets[0].triangle_ref[0].index, 0);
    assert_eq!(sets[0].triangle_refrange.len(), 1);
    assert_eq!(sets[0].triangle_refrange[0].startindex, 1);
    assert_eq!(sets[0].triangle_refrange[0].endindex, 5);
    assert_eq!(sets[1].name, "Set2");
    assert_eq!(sets[1].identifier, "id2");
    assert_eq!(sets[1].triangle_ref.len(), 0);
    assert_eq!(sets[1].triangle_refrange.len(), 2);
    assert_eq!(model.recommendedextensions, vec![ThreemfNamespace::CoreTriangleSet]);
}

#[test]
fn builder_test_object_id_tests() {
    let id: ObjectId = 42.into();
    assert_eq!(id.0, 42);
    let raw: u32 = id.into();
    assert_eq!(raw, 42);
    let s: SliceStackId = 7.into();
    let raw: u32 = s.into();
    assert_eq!(raw, 7);
}

#[test]
fn builder_test_beam_builder_basic() {
    let beam = BeamBuilder::new(0, 1).build();
    assert_eq!(beam.v1, 0);
    assert_eq!(beam.v2, 1);
    assert_eq!(beam.r1, None);
    assert_eq!(beam.r2, None);
    assert_eq!(beam.p1, OptionalResourceIndex::none());
    assert_eq!(beam.p2, OptionalResourceIndex::none());
    assert_eq!(beam.pid, OptionalResourceId::none());
    assert_eq!(beam.cap1, None);
    assert_eq!(beam.cap2, None);
}

#[test]
fn builder_test_beam_builder_with_all_options() {
    let beam = BeamBuilder::new(0, 1)
        .radius_1(d(1.5))
        .radius_2(d(2.0))
        .pindex_1(OptionalResourceIndex::new(10))
        .pindex_2(OptionalResourceIndex::new(20))
        .pid(5)
        .cap_1(CapMode::Hemisphere)
        .cap_2(CapMode::Butt)
        .build();
    assert_eq!(beam.v1, 0);
    assert_eq!(beam.v2, 1);
    assert_eq!(beam.r1, Some(d(1.5)));
    assert_eq!(beam.r2, Some(d(2.0)));
    assert_eq!(beam.p1, OptionalResourceIndex::new(10));
    assert_eq!(beam.p2, OptionalResourceIndex::new(20));
    assert_eq!(beam.pid, OptionalResourceId::new(5));
    assert_eq!(beam.cap1, Some(CapMode::Hemisphere));
    assert_eq!(beam.cap2, Some(CapMode::Butt));
}

#[test]
fn builder_test_ball_builder_basic() {
    let ball = BallBuilder::new(5).build();
    assert_eq!(ball.vindex, 5);
    assert_eq!(ball.r, None);
    assert_eq!(ball.p, OptionalResourceIndex::none());
    assert_eq!(ball.pid, OptionalResourceId::none());
}

#[test]
fn builder_test_ball_builder_with_options() {
    let ball = BallBuilder::new(5)
        .radius(d(0.75))
        .pindex(OptionalResourceIndex::new(15))
        .pid(3)
        .build();
    assert_eq!(ball.vindex, 5);
    assert_eq!(ball.r, Some(d(0.75)));
    assert_eq!(ball.p, OptionalResourceIndex::new(15));
    assert_eq!(ball.pid, OptionalResourceId::new(3));
}

#[test]
fn builder_test_beamset_builder() {
    let mut builder = BeamSetBuilder::new();
    builder
        .name("Test Set")
        .identifier("test-set-001")
        .add_beam_refs(&[0, 1, 2, 3])
        .add_ball_ref(0)
        .add_ball_ref(1);
    let beamset = builder.build();
    assert_eq!(beamset.name.as_deref(), Some("Test Set"));
    assert_eq!(beamset.identifier.as_deref(), Some("test-set-001"));
    assert_eq!(beamset.refs.len(), 4);
    assert_eq!(beamset.refs[0].index, 0);
    assert_eq!(beamset.refs[3].index, 3);
    assert_eq!(beamset.ballref.len(), 2);
    assert_eq!(beamset.ballref[0].index, 0);
    assert_eq!(beamset.ballref[1].index, 1);
}

#[test]
fn builder_test_beam_lattice_builder_minimal() {
    let mut builder = BeamLatticeBuilder::new();
    builder.add_beam(0, 1);
    let beamlattice = builder.build();
    assert_eq!(beamlattice.minlength, d(0.0001));
    assert_eq!(beamlattice.radius, d(0.0001));
    assert_eq!(beamlattice.beams.beam.len(), 1);
    assert_eq!(beamlattice.beams.beam[0].v1, 0);
    assert_eq!(beamlattice.beams.beam[0].v2, 1);
    assert_eq!(beamlattice.balls, None);
    assert_eq!(beamlattice.beamsets, None);
}

#[test]
fn builder_test_beam_lattice_builder_with_custom_values() {
    let mut builder = BeamLatticeBuilder::new();
    builder.minlength(d(0.001)).radius(d(1.0)).add_beam(0, 1).add_beam(1, 2);
    let beamlattice = builder.build();
    assert_eq!(beamlattice.minlength, d(0.001));
    assert_eq!(beamlattice.radius, d(1.0));
    assert_eq!(beamlattice.beams.beam.len(), 2);
}

#[test]
fn builder_test_beam_lattice_builder_with_balls() {
    let mut builder = BeamLatticeBuilder::new();
    builder
        .minlength(d(0.001))
        .radius(d(1.0))
        .ballmode(BallMode::Mixed)
        .ballradius(d(0.5))
        .add_beam(0, 1)
        .add_ball(0)
        .add_ball_advanced(1, |b| b.radius(d(0.75)));
    let beamlattice = builder.build();
    assert_eq!(beamlattice.ballmode, Some(BallMode::Mixed));
    assert_eq!(beamlattice.ballradius, Some(d(0.5)));
    assert!(beamlattice.balls.is_some());
    let balls = beamlattice.balls.as_ref().unwrap();
    assert_eq!(balls.ball.len(), 2);
    assert_eq!(balls.ball[0].vindex, 0);
    assert_eq!(balls.ball[0].r, None);
    assert_eq!(balls.ball[1].vindex, 1);
    assert_eq!(balls.ball[1].r, Some(d(0.75)));
}

#[test]
fn builder_test_beam_lattice_builder_with_all_features() {
    let clip_mesh_id = ObjectId(10);
    let repr_mesh_id = ObjectId(20);
    let mut builder = BeamLatticeBuilder::new();
    builder
        .minlength(d(0.002))
        .radius(d(2.0))
        .ballmode(BallMode::All)
        .ballradius(d(1.0))
        .clippingmode(ClippingMode::Inside)
        .clippingmesh(clip_mesh_id)
        .representationmesh(repr_mesh_id)
        .pid(5)
        .pindex(10)
        .cap(CapMode::Sphere)
        .add_beam(0, 1);
    let beamlattice = builder.build();
    assert_eq!(beamlattice.minlength, d(0.002));
    assert_eq!(beamlattice.radius, d(2.0));
    assert_eq!(beamlattice.ballmode, Some(BallMode::All));
    assert_eq!(beamlattice.ballradius, Some(d(1.0)));
    assert_eq!(beamlattice.clippingmode, Some(ClippingMode::Inside));
    assert_eq!(beamlattice.clippingmesh, OptionalResourceId::new(10));
    assert_eq!(beamlattice.representationmesh, OptionalResourceId::new(20));
    assert_eq!(beamlattice.pid, OptionalResourceId::new(5));
    assert_eq!(beamlattice.pindex, OptionalResourceIndex::new(10));
    assert_eq!(beamlattice.cap, Some(CapMode::Sphere));
}

#[test]
fn builder_test_beam_lattice_add_beams_bulk() {
    let mut builder = BeamLatticeBuilder::new();
    builder.radius(d(1.0)).add_beams(&[(0, 1), (1, 2), (2, 3), (3, 0)]);
    let beamlattice = builder.build();
    assert_eq!(beamlattice.beams.beam.len(), 4);
    assert_eq!(beamlattice.beams.beam[0].v1, 0);
    assert_eq!(beamlattice.beams.beam[0].v2, 1);
    assert_eq!(beamlattice.beams.beam[3].v1, 3);
    assert_eq!(beamlattice.beams.beam[3].v2, 0);
}

#[test]
fn builder_test_beam_lattice_with_multiple_beamsets() {
    let mut builder = BeamLatticeBuilder::new();
    builder
        .radius(d(1.0))
        .add_beams(&[(0, 1), (1, 2), (2, 3), (3, 0)])
        .add_beamset(|bs| {
            bs.name("Bottom").identifier("bottom-001").add_beam_refs(&[0, 1]);
        })
        .add_beamset(|bs| {
            bs.name("Top").identifier("top-001").add_beam_refs(&[2, 3]);
        });
    let beamlattice = builder.build();
    assert!(beamlattice.beamsets.is_some());
    let beamsets = beamlattice.beamsets.as_ref().unwrap();
    assert_eq!(beamsets.beamset.len(), 2);
    assert_eq!(beamsets.beamset[0].name.as_deref(), Some("Bottom"));
    assert_eq!(beamsets.beamset[0].refs.len(), 2);
    assert_eq!(beamsets.beamset[1].name.as_deref(), Some("Top"));
    assert_eq!(beamsets.beamset[1].refs.len(), 2);
}

#[test]
fn builder_test_mesh_with_beam_lattice() {
    let mut mesh_builder = MeshBuilder::new();
    mesh_builder
        .add_vertices(&[v3(0.0, 0.0, 0.0), v3(10.0, 0.0, 0.0), v3(10.0, 10.0, 0.0)])
        .add_beam_lattice(|bl| {
            bl.minlength(d(0.001)).radius(d(1.0)).add_beam(0, 1).add_beam(1, 2);
        });
    let mesh = mesh_builder.build_mesh();
    assert_eq!(mesh.vertices.vertex.len(), 3);
    assert!(mesh.beamlattice.is_some());
    let bl = mesh.beamlattice.as_ref().unwrap();
    assert_eq!(bl.minlength, d(0.001));
    assert_eq!(bl.radius, d(1.0));
    assert_eq!(bl.beams.beam.len(), 2);
}

#[test]
fn builder_test_model_with_beam_lattice() {
    let mut builder = ModelBuilder::new(Unit::Millimeter, true);
    let obj_id = builder
        .add_mesh_object(|obj| {
            obj.name("Lattice");
            obj.entity()
                .add_vertices(&[
                    v3(0.0, 0.0, 0.0),
                    v3(10.0, 0.0, 0.0),
                    v3(10.0, 10.0, 0.0),
                    v3(0.0, 10.0, 0.0),
                ])
                .add_beam_lattice(|bl| {
                    bl.minlength(d(0.001))
                        .radius(d(1.0))
                        .cap(CapMode::Sphere)
                        .add_beams(&[(0, 1), (1, 2), (2, 3), (3, 0)]);
                });
            Ok(())
        })
        .unwrap();
    builder.add_build(None).unwrap();
    builder.add_build_item(obj_id).unwrap();
    let model = builder.build().unwrap();
    assert_eq!(model.resources.object.len(), 1);
    let obj = &model.resources.object[0];
    assert!(obj.get_mesh().is_some());
    let mesh = obj.get_mesh().unwrap();
    assert!(mesh.beamlattice.is_some());
    assert_eq!(model.requiredextensions, vec![ThreemfNamespace::BeamLattice]);
}

#[test]
fn builder_test_model_with_beam_lattice_and_balls() {
    let mut builder = ModelBuilder::new(Unit::Millimeter, true);
    let obj_id = builder
        .add_mesh_object(|obj| {
            obj.name("Lattice with Balls");
            obj.entity()
                .add_vertices(&[v3(0.0, 0.0, 0.0), v3(10.0, 0.0, 0.0), v3(10.0, 10.0, 0.0)])
                .add_beam_lattice(|bl| {
                    bl.minlength(d(0.001))
                        .radius(d(1.0))
                        .ballmode(BallMode::Mixed)
                        .ballradius(d(0.5))
                        .add_beams(&[(0, 1), (1, 2)])
                        .add_balls(&[0, 2]);
                });
            Ok(())
        })
        .unwrap();
    builder.add_build(None).unwrap();
    builder.add_build_item(obj_id).unwrap();
    let model = builder.build().unwrap();
    let mesh = model.resources.object[0].get_mesh().unwrap();
    let bl = mesh.beamlattice.as_ref().unwrap();
    assert!(bl.balls.is_some());
    assert!(same_set(
        &model.requiredextensions,
        &[ThreemfNamespace::BeamLatticeBalls, ThreemfNamespace::BeamLattice]
    ));
}

#[test]
fn builder_models_pass_id_and_component_rules() {
    let mut builder = ModelBuilder::new(Unit::Millimeter, true);
    let a = builder.add_mesh_object(|_| Ok(())).unwrap();
    let b = builder.add_mesh_object(|_| Ok(())).unwrap();
    let c = builder
        .add_components_object(|obj| {
            obj.entity().add_component(a).add_component(b);
            Ok(())
        })
        .unwrap();
    assert_eq!((a.0, b.0, c.0), (1, 2, 3));
    builder.add_build(None).unwrap();
    builder.add_build_item(c).unwrap();
    let model = builder.build().unwrap();
    assert!(run_rule_for_model(&ValidationRule::ObjectIdReference, &model).is_empty());
    assert!(run_rule_for_model(&ValidationRule::ComponentReference, &model).is_empty());
    assert!(run_rule_for_model(&ValidationRule::BuildItemReference, &model).is_empty());
}

#[test]
fn failed_additions_leave_the_builder_unchanged() {
    let mut builder = ModelBuilder::new(Unit::Millimeter, false);
    let r = builder.add_components_object(|obj| {
        obj.entity().add_component(ObjectId(5));
        Ok(())
    });
    assert!(r.is_err());
    let id = builder.add_mesh_object(|_| Ok(())).unwrap();
    assert_eq!(id.0, 1);
    let r = builder.add_mesh_object(|_| Err(MeshObjectError::ObjectUuidNotSet));
    assert!(r.is_err());
    let id = builder.add_mesh_object(|_| Ok(())).unwrap();
    assert_eq!(id.0, 2);
}

#[test]
fn production_check_reports_first_problem() {
    let mut builder = ModelBuilder::new(Unit::Millimeter, true);
    builder.add_mesh_object(|o| {
        o.uuid("u1");
        Ok(())
    })
    .unwrap();
    builder.add_build(None).unwrap();
    assert_eq!(
        builder.make_production_extension_required(),
        Err(ProductionExtensionError::BuildUuidNotSet)
    );
    let mut builder = ModelBuilder::new(Unit::Millimeter, true);
    builder.add_mesh_object(|_| Ok(())).unwrap();
    assert_eq!(
        builder.make_production_extension_required(),
        Err(ProductionExtensionError::ObjectUuidNotSet)
    );
    let mut builder = ModelBuilder::new(Unit::Millimeter, true);
    builder.add_build(Some(String::from("b"))).unwrap();
    builder.add_build_item(ObjectId(1)).unwrap();
    assert_eq!(
        builder.make_production_extension_required(),
        Err(ProductionExtensionError::ItemUuidNotSet)
    );
}

#[test]
fn core_is_never_declared_and_other_extensions_are_kept() {
    let mut builder = ModelBuilder::new(Unit::Millimeter, true);
    builder.add_required_extension(ThreemfNamespace::Core);
    builder.add_required_extension(ThreemfNamespace::Material);
    builder.add_recommended_extension(ThreemfNamespace::Core);
    builder.add_recommended_extension(ThreemfNamespace::Slice);
    builder.add_build(None).unwrap();
    builder.add_base_materials(|b| {
        b.add_base("red", "#FF0000");
    });
    let model = builder.build().unwrap();
    assert_eq!(model.requiredextensions, vec![ThreemfNamespace::Material]);
    assert_eq!(model.recommendedextensions, vec![ThreemfNamespace::Slice]);
}

#[test]
fn slices_booleans_and_materials_require_their_extensions() {
    let mut builder = ModelBuilder::new(Unit::Millimeter, true);
    let stack = builder
        .add_slice_stack(|s| {
            s.zbottom(d(0.0)).add_slice(|sl| {
                sl.ztop(d(1.0)).add_vertex(d(0.0), d(0.0)).add_polygon(|p| {
                    p.start_vertex(0).add_segment_with_properties(
                        1,
                        OptionalResourceIndex::new(0),
                        OptionalResourceIndex::none(),
                    );
                });
            });
        })
        .unwrap();
    assert_eq!(stack.0, 1);
    let a = builder
        .add_mesh_object(|o| {
            o.slice_stack(stack, Some("/3D/slices.model"), Some(MeshResolution::LowRes));
            Ok(())
        })
        .unwrap();
    let shape = builder
        .add_booleanshape_object(|o| {
            o.entity().base_object(a, BooleanOperation::Difference).add_boolean(a);
            Ok(())
        })
        .unwrap();
    builder.add_build(None).unwrap();
    builder.add_build_item(shape).unwrap();
    let model = builder.build().unwrap();
    assert_eq!(
        model.requiredextensions,
        vec![
            ThreemfNamespace::Boolean,
            ThreemfNamespace::Slice,
            ThreemfNamespace::Material
        ]
    );
    assert_eq!(model.resources.object[0].slicepath.as_deref(), Some("/3D/slices.model"));
}

#[test]
fn boolean_shape_errors() {
    let mut builder = ModelBuilder::new(Unit::Millimeter, true);
    let r = builder.add_booleanshape_object(|_| Ok(()));
    assert_eq!(r, Err(BooleanShapeError::BaseObjectNotSet));
    let r = builder.add_booleanshape_object(|o| {
        o.entity().base_object(ObjectId(1), BooleanOperation::Union);
        Ok(())
    });
    assert_eq!(r, Err(BooleanShapeError::NoBooleanOperands));
}

#[test]
fn resource_builders_report_missing_settings() {
    let mut builder = ModelBuilder::new(Unit::Millimeter, true);
    assert_eq!(builder.add_texture2d(|_| {}), Err(Texture2DError::PathNotSet));
    assert_eq!(
        builder.add_texture2d(|t| {
            t.path("/t.png");
        }),
        Err(Texture2DError::ContentTypeNotSet)
    );
    assert_eq!(
        builder.add_texture2d(|t| {
            t.path("/t.png").content_type(TextureContentType::Png);
        }),
        Ok(1)
    );
    assert_eq!(builder.add_texture2d_group(|_| {}), Err(Texture2DGroupError::TexIdNotSet));
    assert_eq!(
        builder.add_composite_materials(|c| {
            c.matid(1);
        }),
        Err(CompositeMaterialsError::MatIndicesEmpty)
    );
    assert_eq!(
        builder.add_composite_materials(|c| {
            c.add_matindex(0);
        }),
        Err(CompositeMaterialsError::MatIdNotSet)
    );
    assert_eq!(builder.add_multi_properties(|_| {}), Err(MultiPropertiesError::PidsEmpty));
    assert_eq!(builder.add_displacement2d(|_| {}), Err(Displacement2DError::PathNotSet));
    assert_eq!(builder.add_disp2d_group(|_| {}), Err(Disp2DGroupError::DispIdNotSet));
    assert_eq!(
        builder.add_disp2d_group(|g| {
            g.displacement_map_id(1);
        }),
        Err(Disp2DGroupError::NormVectorGroupIdNotSet)
    );
    assert_eq!(
        builder.add_disp2d_group(|g| {
            g.displacement_map_id(1).norm_vector_group_id(1);
        }),
        Err(Disp2DGroupError::HeightNotSet)
    );
    assert_eq!(
        builder.add_disp2d_group(|g| {
            g.displacement_map_id(1).norm_vector_group_id(1).height(d(0.5));
        }),
        Ok(1)
    );
    assert_eq!(builder.add_norm_vector_group(|g| {
        g.add_norm_vector(d(0.0), d(0.0), d(1.0));
    }), 1);
    assert_eq!(builder.add_color_group(|_| {}), 1);
    assert_eq!(builder.add_color_group(|_| {}), 2);
}

#[test]
fn slice_stack_cannot_mix_slices_and_references() {
    let mut builder = ModelBuilder::new(Unit::Millimeter, true);
    let r = builder.add_slice_stack(|s| {
        s.add_slice(|_| {}).add_sliceref(3, "/3D/other.model");
    });
    assert_eq!(r, Err(SliceStackBuilderError::BothSliceAndSliceRefCannotBeSet));
    let r = builder.add_slice_stack(|s| {
        s.add_sliceref(3, "/3D/other.model");
    });
    assert_eq!(r, Ok(SliceStackId(1)));
}

#[test]
fn blend_methods_and_base_colors_are_written_as_text() {
    let mut builder = ModelBuilder::new(Unit::Millimeter, true);
    builder
        .add_multi_properties(|m| {
            m.add_pid(1)
                .blendmethods(&[BlendMethod::Mix, BlendMethod::Multiply, BlendMethod::Mix]);
        })
        .unwrap();
    builder.add_base_materials(|b| {
        b.add_base_color("red", Color { r: 255, g: 0, b: 16, a: 255 })
            .add_base_color("glass", Color { r: 0, g: 171, b: 205, a: 128 });
    });
    builder.add_build(None).unwrap();
    let model = builder.build().unwrap();
    assert_eq!(
        model.resources.multiproperties[0].blendmethods.as_deref(),
        Some("mix multiply mix")
    );
    assert_eq!(model.resources.basematerials[0].base[0].displaycolor, "#FF0010");
    assert_eq!(model.resources.basematerials[0].base[1].displaycolor, "#00ABCD80");
}

#[test]
fn builder_test_beam_lattice_default_values() {
    let mut builder = BeamLatticeBuilder::new();
    // Don't set minlength or radius
    builder.add_beam(0, 1);

    let beamlattice = builder.build();

    assert_eq!(beamlattice.minlength, d(0.0001));
    assert_eq!(beamlattice.radius, d(0.0001));
}

#[test]
fn builder_test_beam_lattice_add_balls_bulk() {
    let mut builder = BeamLatticeBuilder::new();
    builder
        .radius(d(1.0))
        .ballmode(BallMode::Mixed)
        .ballradius(d(0.5))
        .add_beam(0, 1)
        .add_balls(&[0, 1, 2, 3]);

    let beamlattice = builder.build();

    assert!(beamlattice.balls.is_some());
    let balls = beamlattice.balls.as_ref().unwrap();
    assert_eq!(balls.ball.len(), 4);
    assert_eq!(balls.ball[0].vindex, 0);
    assert_eq!(balls.ball[3].vindex, 3);
}

#[test]
fn test_custom_extensions() {
    let mut builder = ModelBuilder::new(Unit::Millimeter, true);

    builder.add_required_extension(ThreemfNamespace::Unknown {
        prefix: "test".into(),
        uri: "http://example.com/test".into(),
    });

    builder.add_recommended_extension(ThreemfNamespace::Unknown {
        prefix: "rec".into(),
        uri: "http://example.com/rec".into(),
    });
    builder.add_build(None).unwrap();
    let model = builder.build().unwrap();

    assert_eq!(
        model.requiredextensions,
        vec![ThreemfNamespace::Unknown {
            prefix: "test".into(),
            uri: "http://example.com/test".into()
        }]
    );
    assert_eq!(
        model.recommendedextensions,
        vec![ThreemfNamespace::Unknown {
            prefix: "rec".into(),
            uri: "http://example.com/rec".into()
        }]
    );
}

#[test]
fn unknown_required_extension_keeps_the_detected_ones() {
    let mut builder = ModelBuilder::new(Unit::Millimeter, true);
    builder.add_required_extension(ThreemfNamespace::Unknown {
        prefix: "p".into(),
        uri: "http://example.com/not-production".into(),
    });
    builder.make_production_extension_required().unwrap();
    builder.add_build(Some("build-uuid".to_string())).unwrap();
    let model = builder.build().unwrap();
    assert_eq!(
        model.requiredextensions,
        vec![
            ThreemfNamespace::Unknown {
                prefix: "p".into(),
                uri: "http://example.com/not-production".into()
            },
            ThreemfNamespace::Prod
        ]
    );
}

#[test]
fn namespaces_have_their_uris_and_prefixes() {
    assert_eq!(
        ThreemfNamespace::Core.uri(),
        "http://schemas.microsoft.com/3dmanufacturing/core/2015/02"
    );
    assert_eq!(ThreemfNamespace::Core.prefix(), None);
    assert_eq!(ThreemfNamespace::Boolean.prefix(), Some("bo"));
    assert_eq!(ThreemfNamespace::BeamLatticeBalls.prefix(), Some("b2"));
    assert_eq!(
        ThreemfNamespace::Material.uri(),
        "http://schemas.microsoft.com/3dmanufacturing/material/2015/02"
    );
    let custom = ThreemfNamespace::Unknown {
        prefix: "x".into(),
        uri: "urn:x".into(),
    };
    assert_eq!(custom.uri(), "urn:x");
    assert_eq!(custom.prefix(), Some("x"));
    assert_eq!(custom.duplicate(), custom);
    assert!(ThreemfNamespace::Prod.is(&ThreemfNamespace::Prod));
    assert!(!custom.is(&ThreemfNamespace::Prod));
    assert!(custom.is(&ThreemfNamespace::Unknown { prefix: "x".into(), uri: "urn:x".into() }));
    assert!(!custom.is(&ThreemfNamespace::Unknown { prefix: "x".into(), uri: "urn:y".into() }));
    assert!(!custom.is(&ThreemfNamespace::Unknown { prefix: "y".into(), uri: "urn:x".into() }));
}

#[test]
fn test_extension_tests() {
    let mut builder = ModelBuilder::new(Unit::Millimeter, true);
    builder.add_required_extension(ThreemfNamespace::Unknown {
        prefix: "test".to_string(),
        uri: "http://example.com/test".to_string(),
    });
    builder.add_recommended_extension(ThreemfNamespace::Unknown {
        prefix: "rec".to_string(),
        uri: "http://example.com/rec".to_string(),
    });
    builder.add_build(None).unwrap();
    let model = builder.build().unwrap();
    assert_eq!(
        extensions_definition(&model.requiredextensions),
        Some("test ".to_string())
    );
    assert_eq!(
        extensions_definition(&model.recommendedextensions),
        Some("rec ".to_string())
    );
}

#[test]
fn extensions_definition_lists_each_prefix_once() {
    assert_eq!(extensions_definition(&[]), None);
    assert_eq!(
        extensions_definition(&[
            ThreemfNamespace::BeamLattice,
            ThreemfNamespace::BeamLatticeBalls,
            ThreemfNamespace::BeamLattice,
            ThreemfNamespace::Core,
        ]),
        Some("b b2 ".to_string())
    );
}

#[test]
fn balls_extension_required_when_an_earlier_lattice_has_balls() {
    let mut builder = ModelBuilder::new(Unit::Millimeter, false);
    builder
        .add_mesh_object(|o| {
            o.entity().add_vertices(&[v3(0.0, 0.0, 0.0), v3(1.0, 0.0, 0.0)]).add_beam_lattice(|bl| {
                bl.add_beam(0, 1).add_ball(0);
            });
            Ok(())
        })
        .unwrap();
    builder
        .add_mesh_object(|o| {
            o.entity().add_vertices(&[v3(0.0, 0.0, 0.0), v3(1.0, 0.0, 0.0)]).add_beam_lattice(|bl| {
                bl.add_beam(0, 1);
            });
            Ok(())
        })
        .unwrap();
    let model = builder.build().unwrap();
    assert_eq!(
        model.requiredextensions,
        vec![ThreemfNamespace::BeamLattice, ThreemfNamespace::BeamLatticeBalls]
    );
}

#[test]
fn blend_methods_text_splits_back_into_the_methods() {
    let methods = [BlendMethod::Multiply, BlendMethod::Mix, BlendMethod::Multiply];
    let mut builder = ModelBuilder::new(Unit::Millimeter, false);
    builder
        .add_multi_properties(|m| {
            m.add_pid(1).blendmethods(&methods);
        })
        .unwrap();
    let model = builder.build().unwrap();
    let text = model.resources.multiproperties[0].blendmethods.clone().unwrap();
    let back: Vec<BlendMethod> = text.split(' ').map(BlendMethod::from_name).collect();
    assert_eq!(back, methods.to_vec());
}

#[test]
fn object_ids_stay_consecutive_across_failures_of_every_kind() {
    let mut builder = ModelBuilder::new(Unit::Millimeter, false);
    let a = builder.add_mesh_object(|_| Ok(())).unwrap();
    assert!(builder.add_booleanshape_object(|_| Ok(())).is_err());
    assert!(builder
        .add_displacement_mesh_object(|_| Err(DisplacementMeshObjectError::ObjectUuidNotSet))
        .is_err());
    assert!(builder
        .add_components_object(|o| {
            o.entity().add_component(ObjectId(7));
            Ok(())
        })
        .is_err());
    let b = builder
        .add_components_object(|o| {
            o.entity().add_component(a);
            Ok(())
        })
        .unwrap();
    assert_eq!((a.0, b.0), (1, 2));
}

#[test]
fn closures_decide_what_is_added() {
    let mut builder = ModelBuilder::new(Unit::Millimeter, true);
    let id = builder
        .add_mesh_object(|o| {
            o.name("n");
            o.entity().add_vertices(&[v3(0.0, 0.0, 0.0), v3(1.0, 0.0, 0.0), v3(0.0, 1.0, 0.0)]).add_triangle_advanced(
                &[0, 1, 2],
                |t| t.pid(4),
            );
            Ok(())
        })
        .unwrap();
    let c = builder
        .add_components_object(|o| {
            o.entity().add_component_advanced(id, |c| {
                c.uuid("cu");
            });
            Ok(())
        })
        .unwrap();
    builder.add_build(None).unwrap();
    builder
        .add_build_item_advanced(c, |i| {
            i.partnumber("p7");
        })
        .unwrap();
    let model = builder.build().unwrap();
    let mesh = model.resources.object[0].get_mesh().unwrap();
    assert_eq!(mesh.triangles.triangle[0].pid, OptionalResourceId::new(4));
    assert_eq!(mesh.triangles.triangle[0].v3, 2);
    let comps = model.resources.object[1].get_components_object().unwrap();
    assert_eq!(comps.component[0].objectid, 1);
    assert_eq!(comps.component[0].uuid.as_deref(), Some("cu"));
    assert_eq!(model.build.item[0].objectid, 2);
    assert_eq!(model.build.item[0].partnumber.as_deref(), Some("p7"));
}
