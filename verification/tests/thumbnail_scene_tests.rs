use threemf2::builder::ids::ObjectId;
use threemf2::builder::model_builder::ModelBuilder;
use threemf2::domain::model::{Model, Unit};
use threemf2::domain::object::ObjectKind;
use threemf2::thumbnail_scene::{collect_meshes, SceneError};

fn model_with_parts() -> Model {
    let mut builder = ModelBuilder::new(Unit::Millimeter, true);
    let a = builder.add_mesh_object(|_| Ok(())).unwrap();
    let c = builder
        .add_components_object(|o| {
            o.entity().add_component(a).add_component(a);
            Ok(())
        })
        .unwrap();
    builder.add_build(None).unwrap();
    builder.add_build_item(c).unwrap();
    builder.add_build_item(a).unwrap();
    builder.build().unwrap()
}

#[test]
fn scene_lists_meshes_through_components_in_order() {
    let model = model_with_parts();
    let placed = collect_meshes(&model).unwrap().unwrap();
    let got: Vec<(usize, Vec<usize>, Vec<usize>)> = placed
        .iter()
        .map(|p| (p.item, p.path.objects.clone(), p.path.components.clone()))
        .collect();
    assert_eq!(
        got,
        vec![(0, vec![1, 0], vec![0]), (0, vec![1, 0], vec![1]), (1, vec![0], vec![])]
    );
}

#[test]
fn scene_reports_an_unknown_object() {
    let mut builder = ModelBuilder::new(Unit::Millimeter, true);
    builder.add_mesh_object(|_| Ok(())).unwrap();
    builder.add_build(None).unwrap();
    builder.add_build_item(ObjectId(9)).unwrap();
    let model = builder.build().unwrap();
    assert_eq!(collect_meshes(&model).unwrap().err(), Some(SceneError::ResourceNotFound(9)));
}

#[test]
fn scene_without_meshes_has_no_geometry() {
    let mut builder = ModelBuilder::new(Unit::Millimeter, true);
    builder.add_mesh_object(|_| Ok(())).unwrap();
    builder.add_build(None).unwrap();
    let model = builder.build().unwrap();
    assert_eq!(collect_meshes(&model).unwrap().err(), Some(SceneError::NoRenderableGeometry));
}

#[test]
fn scene_of_a_component_cycle_is_none() {
    let mut model = model_with_parts();
    if let Some(ObjectKind::Components(c)) = &mut model.resources.object[1].kind {
        c.component[0].objectid = 2;
    }
    assert!(collect_meshes(&model).is_none());
}
