use threemf2::builder::model_builder::ModelBuilder;
use threemf2::domain::beamlattice::CapMode;
use threemf2::domain::boolean::BooleanOperation;
use threemf2::domain::material::TextureContentType;
use threemf2::domain::model::{Model, Unit};
use threemf2::query::{
    get_base_materials_by_id, get_boolean_shape_objects_from_model, get_color_group_by_id,
    get_components_objects_from_model, get_composite_materials_by_id, get_items_from_model,
    get_mesh_objects_from_model, get_model_view, get_multi_properties_by_id,
    get_object_from_model, get_objects_from_model, get_texture2d_group_by_id,
    get_texture_for_group, resolve_material_property, MaterialPropertyValue, ObjectKindView,
};
use threemf2::types::{Color, Double, OptionalResourceId, OptionalResourceIndex};

fn d(x: f64) -> Double {
    Double::from_bits(x.to_bits())
}

const RED: Color = Color {
    r: 255,
    g: 0,
    b: 0,
    a: 255,
};

/// A model with two meshes (one with a beam lattice), an assembly of them, a boolean
/// shape, and one resource of each material kind.
fn sample_model() -> Model {
    let mut builder = ModelBuilder::new(Unit::Centimeter, true);
    builder.add_metadata("Title", Some("Sample"));
    let plate = builder
        .add_mesh_object(|obj| {
            obj.name("plate");
            obj.entity()
                .add_vertices(&[
                    [d(0.0), d(0.0), d(0.0)],
                    [d(1.0), d(0.0), d(0.0)],
                    [d(0.0), d(1.0), d(0.0)],
                ])
                .add_triangle(&[0, 1, 2]);
            Ok(())
        })
        .unwrap();
    let lattice = builder
        .add_mesh_object(|obj| {
            obj.name("lattice");
            obj.entity()
                .add_vertices(&[[d(0.0), d(0.0), d(0.0)], [d(2.0), d(0.0), d(0.0)]])
                .add_beam_lattice(|bl| {
                    bl.radius(d(0.5)).cap(CapMode::Sphere).add_beam(0, 1);
                });
            Ok(())
        })
        .unwrap();
    let assembly = builder
        .add_components_object(|obj| {
            obj.name("assembly");
            obj.entity().add_component(plate).add_component(lattice);
            Ok(())
        })
        .unwrap();
    let shape = builder
        .add_booleanshape_object(|obj| {
            obj.entity()
                .base_object(plate, BooleanOperation::Difference)
                .add_boolean(lattice);
            Ok(())
        })
        .unwrap();
    builder.add_color_group(|g| {
        g.add_color(RED);
    });
    builder.add_base_materials(|b| {
        b.add_base("steel", "#808080");
    });
    let tex = builder
        .add_texture2d(|t| {
            t.path("/3D/Textures/a.png").content_type(TextureContentType::Png);
        })
        .unwrap();
    builder
        .add_texture2d_group(|g| {
            g.texid(tex).add_tex_coord(d(0.25), d(0.75));
        })
        .unwrap();
    builder
        .add_composite_materials(|c| {
            c.matid(1).add_matindex(0).add_composite(&[d(1.0)]);
        })
        .unwrap();
    builder
        .add_multi_properties(|m| {
            m.add_pid(1).add_multi(&[0]);
        })
        .unwrap();
    builder.add_build(None).unwrap();
    builder.add_build_item(assembly).unwrap();
    builder.add_build_item(shape).unwrap();
    builder.build().unwrap()
}

#[test]
fn model_view_counts_the_resources() {
    let model = sample_model();
    let view = get_model_view(&model);
    assert_eq!(view.unit(), Unit::Centimeter);
    assert_eq!(view.object_count(), 4);
    assert_eq!(view.build_item_count(), 2);
    assert_eq!(view.build_uuid(), None);
    assert_eq!(view.color_group_count(), 1);
    assert_eq!(view.base_materials_count(), 1);
    assert_eq!(view.texture2d_count(), 1);
    assert_eq!(view.texture2d_group_count(), 1);
    assert_eq!(view.composite_materials_count(), 1);
    assert_eq!(view.multi_properties_count(), 1);
    assert_eq!(view.slice_stack_count(), 0);
    assert_eq!(view.metadata_count(), 1);
    let metadata = view.metadata_iter();
    assert_eq!(metadata[0].name(), "Title");
    assert_eq!(metadata[0].value(), Some("Sample"));
    assert!(view.required_extensions().is_some());
    assert_eq!(view.recommended_extensions(), None);
}

#[test]
fn objects_are_found_by_id_and_kind() {
    let model = sample_model();
    let objects = get_objects_from_model(&model);
    assert_eq!(objects.len(), 4);
    let plate = get_object_from_model(1, &model).unwrap();
    assert_eq!(plate.name(), Some("plate"));
    assert!(plate.is_mesh());
    assert_eq!(plate.kind(), ObjectKindView::Mesh);
    assert!(get_object_from_model(9, &model).is_none());

    let meshes = get_mesh_objects_from_model(&model);
    assert_eq!(meshes.len(), 2);
    assert_eq!(meshes[0].vertex_count(), 3);
    assert_eq!(meshes[0].triangle_count(), 1);
    assert_eq!(meshes[0].triangles(), vec![[0, 1, 2]]);
    assert!(!meshes[0].has_beamlattice());
    assert!(meshes[1].has_beamlattice());
    let lattice = meshes[1].lattice().unwrap();
    assert_eq!(lattice.beam_count(), 1);
    assert_eq!(lattice.data().radius, d(0.5));

    let assemblies = get_components_objects_from_model(&model);
    assert_eq!(assemblies.len(), 1);
    assert_eq!(assemblies[0].component_count(), 2);
    let components = assemblies[0].components();
    assert_eq!(components[0].object_id(), 1);
    assert_eq!(components[1].object_id(), 2);

    let shapes = get_boolean_shape_objects_from_model(&model);
    assert_eq!(shapes.len(), 1);
    assert_eq!(shapes[0].base_objectid(), 1);
    assert!(shapes[0].is_difference());
    assert!(!shapes[0].is_union());
    assert_eq!(shapes[0].booleans().len(), 1);

    let items = get_items_from_model(&model);
    assert_eq!(items.len(), 2);
    assert_eq!(items[0].object_id(), 3);
    assert_eq!(items[1].object_id(), 4);
}

#[test]
fn material_resources_are_found_by_id() {
    let model = sample_model();
    let colors = get_color_group_by_id(1, &model).unwrap();
    assert_eq!(colors.color_count(), 1);
    assert_eq!(colors.color_at(0), Some(RED));
    assert_eq!(colors.color_at(1), None);
    assert!(get_color_group_by_id(2, &model).is_none());

    let group = get_texture2d_group_by_id(1, &model).unwrap();
    assert_eq!(group.texid(), 1);
    assert_eq!(group.tex_coords(), vec![[d(0.25), d(0.75)]]);
    let texture = get_texture_for_group(&model.resources.texture2dgroup[0], &model).unwrap();
    assert_eq!(texture.path(), "/3D/Textures/a.png");
    assert_eq!(texture.content_type(), TextureContentType::Png);

    assert_eq!(get_base_materials_by_id(1, &model).unwrap().base_count(), 1);
    assert_eq!(get_composite_materials_by_id(1, &model).unwrap().composite_count(), 1);
    assert_eq!(get_multi_properties_by_id(1, &model).unwrap().multi_count(), 1);
}

#[test]
fn material_properties_resolve_through_their_group() {
    let model = sample_model();
    // every group kind has id 1; colour groups are looked up first
    assert_eq!(
        resolve_material_property(OptionalResourceId::new(1), OptionalResourceIndex::new(0), &model),
        Some(MaterialPropertyValue::Color(RED))
    );
    assert_eq!(
        resolve_material_property(OptionalResourceId::new(1), OptionalResourceIndex::new(1), &model),
        None
    );
    assert_eq!(
        resolve_material_property(OptionalResourceId::none(), OptionalResourceIndex::new(0), &model),
        None
    );
    assert_eq!(
        resolve_material_property(OptionalResourceId::new(7), OptionalResourceIndex::new(0), &model),
        None
    );
}

