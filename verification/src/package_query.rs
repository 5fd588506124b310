//! Queries over a whole package: the models it holds and their objects, build items and
//! slice stacks, each with the path of the model it comes from.

use vstd::prelude::*;

use crate::domain::build_section::Item;
use crate::domain::model::Model;
use crate::domain::object::{
    boolean_shape_of, components_of, displacement_mesh_of, mesh_of, Object,
};
use crate::domain::slice::SliceStack;
use crate::package::ThreemfPackage;
use crate::query::{
    BooleanShapeView, ComponentsObjectView, DisplacementMeshObjectView, ItemView, MeshObjectView,
    ModelView, ObjectView, SliceStackView,
};
use crate::text::{opt_chars, opt_str_chars, str_eq};

verus! {

/// A model of a package with its path; the root model has none.
pub type ModelWithPath = (Model, Option<Seq<char>>);

/// The models of a package: the root model first, then the sub-models in order.
pub open spec fn package_models(p: ThreemfPackage) -> Seq<ModelWithPath> {
    seq![(p.root, None::<Seq<char>>)] + p.sub_models.entries_spec().map_values(
        |e: (String, Model)| (e.1, Some(e.0@)),
    )
}

/// The elements that `f` picks from each model, in order, each with the path of its model.
pub open spec fn flat_with_origin<T>(ms: Seq<ModelWithPath>, f: spec_fn(Model) -> Seq<T>) -> Seq<(T, Option<Seq<char>>)>
    decreases ms.len(),
{
    if ms.len() == 0 {
        Seq::empty()
    } else {
        flat_with_origin(ms.drop_last(), f) + f(ms.last().0).map_values(
            |t: T| (t, ms.last().1),
        )
    }
}

/// The objects of a model.
pub open spec fn model_objects(m: Model) -> Seq<Object> {
    m.resources.object@
}

/// The mesh objects of a model.
pub open spec fn model_mesh_objects(m: Model) -> Seq<Object> {
    m.resources.object@.filter(|o: Object| mesh_of(o) is Some)
}

/// The displacement mesh objects of a model.
pub open spec fn model_displacement_mesh_objects(m: Model) -> Seq<Object> {
    m.resources.object@.filter(|o: Object| displacement_mesh_of(o) is Some)
}

/// The components objects of a model.
pub open spec fn model_components_objects(m: Model) -> Seq<Object> {
    m.resources.object@.filter(|o: Object| components_of(o) is Some)
}

/// The boolean shape objects of a model.
pub open spec fn model_boolean_shape_objects(m: Model) -> Seq<Object> {
    m.resources.object@.filter(|o: Object| boolean_shape_of(o) is Some)
}

/// The build items of a model.
pub open spec fn model_items(m: Model) -> Seq<Item> {
    m.build.item@
}

/// The slice stacks of a model.
pub open spec fn model_slice_stacks(m: Model) -> Seq<SliceStack> {
    m.resources.slicestack@
}

/// Taking one more model appends that model's elements.
proof fn lemma_flat_step<T>(ms: Seq<ModelWithPath>, f: spec_fn(Model) -> Seq<T>, i: int)
    requires
        0 <= i < ms.len(),
    ensures
        flat_with_origin(ms.take(i + 1), f) == flat_with_origin(ms.take(i), f) + f(ms[i].0).map_values(
            |t: T| (t, ms[i].1),
        ),
{
    assert(ms.take(i + 1).drop_last() =~= ms.take(i));
    assert(ms.take(i + 1).last() == ms[i]);
}

/// A model of a package with its path; the root model has none.
pub struct ModelRef<'a> {
    pub model: &'a Model,
    pub path: Option<&'a str>,
}

/// Package view over a model, with the path of the model.
pub struct ModelPackageView<'a> {
    pub view: ModelView<'a>,
    pub origin_model_path: Option<&'a str>,
}

/// Package view over an object, with the path of its model.
pub struct ObjectPackageView<'a> {
    pub view: ObjectView<'a>,
    pub origin_model_path: Option<&'a str>,
}

/// Package view over a mesh object, with the path of its model.
pub struct MeshObjectPackageView<'a> {
    pub view: MeshObjectView<'a>,
    pub origin_model_path: Option<&'a str>,
}

/// Package view over a displacement mesh object, with the path of its model.
pub struct DisplacementMeshObjectPackageView<'a> {
    pub view: DisplacementMeshObjectView<'a>,
    pub origin_model_path: Option<&'a str>,
}

/// Package view over a components object, with the path of its model.
pub struct ComponentsObjectPackageView<'a> {
    pub view: ComponentsObjectView<'a>,
    pub origin_model_path: Option<&'a str>,
}

/// Package view over a boolean shape object, with the path of its model.
pub struct BooleanShapePackageView<'a> {
    pub view: BooleanShapeView<'a>,
    pub origin_model_path: Option<&'a str>,
}

/// Package view over a build item, with the path of its model.
pub struct ItemPackageView<'a> {
    pub view: ItemView<'a>,
    pub origin_model_path: Option<&'a str>,
}

/// Package view over a slice stack, with the path of its model.
pub struct SliceStackPackageView<'a> {
    pub view: SliceStackView<'a>,
    pub origin_model_path: Option<&'a str>,
}

/// The models of the package: the root model, then the sub-models in order.
pub fn iter_models<'a>(package: &'a ThreemfPackage) -> (r: Vec<ModelRef<'a>>)
    ensures
        r@.map_values(|m: ModelRef<'a>| (*m.model, opt_str_chars(m.path))) == package_models(*package),
{
    let mut r: Vec<ModelRef<'a>> = Vec::new();
    r.push(ModelRef { model: &package.root, path: None });
    let entries = package.sub_models.entries();
    let n = entries.len();
    let ghost sub = entries@.map_values(|e: (String, Model)| (e.1, Some(e.0@)));
    for i in 0..n
        invariant
            n == entries@.len(),
            sub == entries@.map_values(|e: (String, Model)| (e.1, Some(e.0@))),
            entries@ == package.sub_models.entries_spec(),
            r@.map_values(|m: ModelRef<'a>| (*m.model, opt_str_chars(m.path))) =~= seq![(package.root, None::<Seq<char>>)] + sub.take(i as int),
    {
        let ghost before = r@;
        r.push(ModelRef { model: &entries[i].1, path: Some(entries[i].0.as_str()) });
        proof {
            assert(sub.take(i + 1) =~= sub.take(i as int).push(sub[i as int]));
            assert(r@.map_values(|m: ModelRef<'a>| (*m.model, opt_str_chars(m.path))) =~= before.map_values(
                |m: ModelRef<'a>| (*m.model, opt_str_chars(m.path)),
            ).push(sub[i as int]));
        }
    }
    proof {
        assert(sub.take(n as int) =~= sub);
    }
    r
}

/// Views over the models of the package, with their paths.
pub fn get_models<'a>(package: &'a ThreemfPackage) -> (r: Vec<ModelPackageView<'a>>)
    ensures
        r@.map_values(|m: ModelPackageView<'a>| (m.view@, opt_str_chars(m.origin_model_path))) == package_models(*package),
{
    let models = iter_models(package);
    let n = models.len();
    let ghost ms = package_models(*package);
    let mut r: Vec<ModelPackageView<'a>> = Vec::new();
    for i in 0..n
        invariant
            n == models@.len(),
            ms == models@.map_values(|m: ModelRef<'a>| (*m.model, opt_str_chars(m.path))),
            r@.map_values(|m: ModelPackageView<'a>| (m.view@, opt_str_chars(m.origin_model_path))) =~= ms.take(i as int),
    {
        let ghost before = r@;
        r.push(ModelPackageView { view: ModelView::new(models[i].model), origin_model_path: models[i].path });
        proof {
            assert(ms.take(i + 1) =~= ms.take(i as int).push(ms[i as int]));
            assert(r@.map_values(|m: ModelPackageView<'a>| (m.view@, opt_str_chars(m.origin_model_path))) =~= before.map_values(
                |m: ModelPackageView<'a>| (m.view@, opt_str_chars(m.origin_model_path)),
            ).push(ms[i as int]));
        }
    }
    proof {
        assert(ms.take(n as int) =~= ms);
    }
    r
}

/// Views over all objects of all models of the package, with the path of their model.
pub fn get_objects<'a>(package: &'a ThreemfPackage) -> (r: Vec<ObjectPackageView<'a>>)
    ensures
        r@.map_values(|v: ObjectPackageView<'a>| (v.view@, opt_str_chars(v.origin_model_path)))
            == flat_with_origin(package_models(*package), |m: Model| model_objects(m)),
{
    let models = iter_models(package);
    let n = models.len();
    let ghost ms = package_models(*package);
    let ghost f = |m: Model| model_objects(m);
    let mut r: Vec<ObjectPackageView<'a>> = Vec::new();
    for i in 0..n
        invariant
            n == models@.len(),
            ms == models@.map_values(|m: ModelRef<'a>| (*m.model, opt_str_chars(m.path))),
            f == (|m: Model| model_objects(m)),
            r@.map_values(|v: ObjectPackageView<'a>| (v.view@, opt_str_chars(v.origin_model_path))) =~= flat_with_origin(ms.take(i as int), f),
    {
        let model: &'a Model = models[i].model;
        let path = models[i].path;
        let objs: &'a Vec<Object> = &model.resources.object;
        let m = objs.len();
        let ghost start = r@.map_values(|v: ObjectPackageView<'a>| (v.view@, opt_str_chars(v.origin_model_path)));
        let ghost origin = opt_str_chars(path);
        assert(ms[i as int] == (*model, origin));
        for j in 0..m
            invariant
                m == objs@.len(),
                r@.map_values(|v: ObjectPackageView<'a>| (v.view@, opt_str_chars(v.origin_model_path))) =~= start + objs@.take(j as int).map_values(
                    |o: Object| (o, origin),
                ),
                origin == opt_str_chars(path),
        {
            let ghost before = r@;
            r.push(ObjectPackageView { view: ObjectView::new(&objs[j]), origin_model_path: path });
            proof {
                assert(objs@.take(j + 1) =~= objs@.take(j as int).push(objs@[j as int]));
                assert(r@.map_values(|v: ObjectPackageView<'a>| (v.view@, opt_str_chars(v.origin_model_path))) =~= before.map_values(
                    |v: ObjectPackageView<'a>| (v.view@, opt_str_chars(v.origin_model_path)),
                ).push((objs@[j as int], origin)));
            }
        }
        proof {
            assert(objs@.take(m as int) =~= objs@);
            lemma_flat_step(ms, f, i as int);
        }
    }
    proof {
        assert(ms.take(n as int) =~= ms);
    }
    r
}

/// Views over the mesh objects of all models of the package, with the path of their model.
pub fn get_mesh_objects<'a>(package: &'a ThreemfPackage) -> (r: Vec<MeshObjectPackageView<'a>>)
    ensures
        r@.map_values(|v: MeshObjectPackageView<'a>| (v.view@, opt_str_chars(v.origin_model_path)))
            == flat_with_origin(package_models(*package), |m: Model| model_mesh_objects(m)),
{
    let models = iter_models(package);
    let n = models.len();
    let ghost ms = package_models(*package);
    let ghost f = |m: Model| model_mesh_objects(m);
    let mut r: Vec<MeshObjectPackageView<'a>> = Vec::new();
    for i in 0..n
        invariant
            n == models@.len(),
            ms == models@.map_values(|m: ModelRef<'a>| (*m.model, opt_str_chars(m.path))),
            f == (|m: Model| model_mesh_objects(m)),
            r@.map_values(|v: MeshObjectPackageView<'a>| (v.view@, opt_str_chars(v.origin_model_path))) =~= flat_with_origin(ms.take(i as int), f),
    {
        let model: &'a Model = models[i].model;
        let path = models[i].path;
        let objs: &'a Vec<Object> = &model.resources.object;
        let m = objs.len();
        let ghost start = r@.map_values(|v: MeshObjectPackageView<'a>| (v.view@, opt_str_chars(v.origin_model_path)));
        let ghost origin = opt_str_chars(path);
        assert(ms[i as int] == (*model, origin));
        for j in 0..m
            invariant
                m == objs@.len(),
                r@.map_values(|v: MeshObjectPackageView<'a>| (v.view@, opt_str_chars(v.origin_model_path))) =~= start + objs@.take(j as int).filter(
                    |o: Object| mesh_of(o) is Some,
                ).map_values(|o: Object| (o, origin)),
                origin == opt_str_chars(path),
        {
            reveal_with_fuel(Seq::<_>::filter, 1);
            let ghost before = r@;
            assert(objs@.take(j + 1).drop_last() =~= objs@.take(j as int));
            match MeshObjectView::from_object(&objs[j]) {
                Some(v) => {
                    r.push(MeshObjectPackageView { view: v, origin_model_path: path });
                    assert(r@.map_values(|v: MeshObjectPackageView<'a>| (v.view@, opt_str_chars(v.origin_model_path))) =~= before.map_values(
                        |v: MeshObjectPackageView<'a>| (v.view@, opt_str_chars(v.origin_model_path)),
                    ).push((objs@[j as int], origin)));
                },
                None => {},
            }
        }
        proof {
            assert(objs@.take(m as int) =~= objs@);
            lemma_flat_step(ms, f, i as int);
        }
    }
    proof {
        assert(ms.take(n as int) =~= ms);
    }
    r
}

/// Views over the displacement mesh objects of all models of the package, with the path of their model.
pub fn get_displacement_mesh_objects<'a>(package: &'a ThreemfPackage) -> (r: Vec<DisplacementMeshObjectPackageView<'a>>)
    ensures
        r@.map_values(|v: DisplacementMeshObjectPackageView<'a>| (v.view@, opt_str_chars(v.origin_model_path)))
            == flat_with_origin(package_models(*package), |m: Model| model_displacement_mesh_objects(m)),
{
    let models = iter_models(package);
    let n = models.len();
    let ghost ms = package_models(*package);
    let ghost f = |m: Model| model_displacement_mesh_objects(m);
    let mut r: Vec<DisplacementMeshObjectPackageView<'a>> = Vec::new();
    for i in 0..n
        invariant
            n == models@.len(),
            ms == models@.map_values(|m: ModelRef<'a>| (*m.model, opt_str_chars(m.path))),
            f == (|m: Model| model_displacement_mesh_objects(m)),
            r@.map_values(|v: DisplacementMeshObjectPackageView<'a>| (v.view@, opt_str_chars(v.origin_model_path))) =~= flat_with_origin(ms.take(i as int), f),
    {
        let model: &'a Model = models[i].model;
        let path = models[i].path;
        let objs: &'a Vec<Object> = &model.resources.object;
        let m = objs.len();
        let ghost start = r@.map_values(|v: DisplacementMeshObjectPackageView<'a>| (v.view@, opt_str_chars(v.origin_model_path)));
        let ghost origin = opt_str_chars(path);
        assert(ms[i as int] == (*model, origin));
        for j in 0..m
            invariant
                m == objs@.len(),
                r@.map_values(|v: DisplacementMeshObjectPackageView<'a>| (v.view@, opt_str_chars(v.origin_model_path))) =~= start + objs@.take(j as int).filter(
                    |o: Object| displacement_mesh_of(o) is Some,
                ).map_values(|o: Object| (o, origin)),
                origin == opt_str_chars(path),
        {
            reveal_with_fuel(Seq::<_>::filter, 1);
            let ghost before = r@;
            assert(objs@.take(j + 1).drop_last() =~= objs@.take(j as int));
            match DisplacementMeshObjectView::from_object(&objs[j]) {
                Some(v) => {
                    r.push(DisplacementMeshObjectPackageView { view: v, origin_model_path: path });
                    assert(r@.map_values(|v: DisplacementMeshObjectPackageView<'a>| (v.view@, opt_str_chars(v.origin_model_path))) =~= before.map_values(
                        |v: DisplacementMeshObjectPackageView<'a>| (v.view@, opt_str_chars(v.origin_model_path)),
                    ).push((objs@[j as int], origin)));
                },
                None => {},
            }
        }
        proof {
            assert(objs@.take(m as int) =~= objs@);
            lemma_flat_step(ms, f, i as int);
        }
    }
    proof {
        assert(ms.take(n as int) =~= ms);
    }
    r
}

/// Views over the components objects of all models of the package, with the path of their model.
pub fn get_components_objects<'a>(package: &'a ThreemfPackage) -> (r: Vec<ComponentsObjectPackageView<'a>>)
    ensures
        r@.map_values(|v: ComponentsObjectPackageView<'a>| (v.view@, opt_str_chars(v.origin_model_path)))
            == flat_with_origin(package_models(*package), |m: Model| model_components_objects(m)),
{
    let models = iter_models(package);
    let n = models.len();
    let ghost ms = package_models(*package);
    let ghost f = |m: Model| model_components_objects(m);
    let mut r: Vec<ComponentsObjectPackageView<'a>> = Vec::new();
    for i in 0..n
        invariant
            n == models@.len(),
            ms == models@.map_values(|m: ModelRef<'a>| (*m.model, opt_str_chars(m.path))),
            f == (|m: Model| model_components_objects(m)),
            r@.map_values(|v: ComponentsObjectPackageView<'a>| (v.view@, opt_str_chars(v.origin_model_path))) =~= flat_with_origin(ms.take(i as int), f),
    {
        let model: &'a Model = models[i].model;
        let path = models[i].path;
        let objs: &'a Vec<Object> = &model.resources.object;
        let m = objs.len();
        let ghost start = r@.map_values(|v: ComponentsObjectPackageView<'a>| (v.view@, opt_str_chars(v.origin_model_path)));
        let ghost origin = opt_str_chars(path);
        assert(ms[i as int] == (*model, origin));
        for j in 0..m
            invariant
                m == objs@.len(),
                r@.map_values(|v: ComponentsObjectPackageView<'a>| (v.view@, opt_str_chars(v.origin_model_path))) =~= start + objs@.take(j as int).filter(
                    |o: Object| components_of(o) is Some,
                ).map_values(|o: Object| (o, origin)),
                origin == opt_str_chars(path),
        {
            reveal_with_fuel(Seq::<_>::filter, 1);
            let ghost before = r@;
            assert(objs@.take(j + 1).drop_last() =~= objs@.take(j as int));
            match ComponentsObjectView::from_object(&objs[j]) {
                Some(v) => {
                    r.push(ComponentsObjectPackageView { view: v, origin_model_path: path });
                    assert(r@.map_values(|v: ComponentsObjectPackageView<'a>| (v.view@, opt_str_chars(v.origin_model_path))) =~= before.map_values(
                        |v: ComponentsObjectPackageView<'a>| (v.view@, opt_str_chars(v.origin_model_path)),
                    ).push((objs@[j as int], origin)));
                },
                None => {},
            }
        }
        proof {
            assert(objs@.take(m as int) =~= objs@);
            lemma_flat_step(ms, f, i as int);
        }
    }
    proof {
        assert(ms.take(n as int) =~= ms);
    }
    r
}

/// Views over the boolean shape objects of all models of the package, with the path of their model.
pub fn get_boolean_shape_objects<'a>(package: &'a ThreemfPackage) -> (r: Vec<BooleanShapePackageView<'a>>)
    ensures
        r@.map_values(|v: BooleanShapePackageView<'a>| (v.view@, opt_str_chars(v.origin_model_path)))
            == flat_with_origin(package_models(*package), |m: Model| model_boolean_shape_objects(m)),
{
    let models = iter_models(package);
    let n = models.len();
    let ghost ms = package_models(*package);
    let ghost f = |m: Model| model_boolean_shape_objects(m);
    let mut r: Vec<BooleanShapePackageView<'a>> = Vec::new();
    for i in 0..n
        invariant
            n == models@.len(),
            ms == models@.map_values(|m: ModelRef<'a>| (*m.model, opt_str_chars(m.path))),
            f == (|m: Model| model_boolean_shape_objects(m)),
            r@.map_values(|v: BooleanShapePackageView<'a>| (v.view@, opt_str_chars(v.origin_model_path))) =~= flat_with_origin(ms.take(i as int), f),
    {
        let model: &'a Model = models[i].model;
        let path = models[i].path;
        let objs: &'a Vec<Object> = &model.resources.object;
        let m = objs.len();
        let ghost start = r@.map_values(|v: BooleanShapePackageView<'a>| (v.view@, opt_str_chars(v.origin_model_path)));
        let ghost origin = opt_str_chars(path);
        assert(ms[i as int] == (*model, origin));
        for j in 0..m
            invariant
                m == objs@.len(),
                r@.map_values(|v: BooleanShapePackageView<'a>| (v.view@, opt_str_chars(v.origin_model_path))) =~= start + objs@.take(j as int).filter(
                    |o: Object| boolean_shape_of(o) is Some,
                ).map_values(|o: Object| (o, origin)),
                origin == opt_str_chars(path),
        {
            reveal_with_fuel(Seq::<_>::filter, 1);
            let ghost before = r@;
            assert(objs@.take(j + 1).drop_last() =~= objs@.take(j as int));
            match BooleanShapeView::from_object(&objs[j]) {
                Some(v) => {
                    r.push(BooleanShapePackageView { view: v, origin_model_path: path });
                    assert(r@.map_values(|v: BooleanShapePackageView<'a>| (v.view@, opt_str_chars(v.origin_model_path))) =~= before.map_values(
                        |v: BooleanShapePackageView<'a>| (v.view@, opt_str_chars(v.origin_model_path)),
                    ).push((objs@[j as int], origin)));
                },
                None => {},
            }
        }
        proof {
            assert(objs@.take(m as int) =~= objs@);
            lemma_flat_step(ms, f, i as int);
        }
    }
    proof {
        assert(ms.take(n as int) =~= ms);
    }
    r
}

/// Views over the build items of all models of the package, with the path of their model.
pub fn get_items<'a>(package: &'a ThreemfPackage) -> (r: Vec<ItemPackageView<'a>>)
    ensures
        r@.map_values(|v: ItemPackageView<'a>| (v.view@, opt_str_chars(v.origin_model_path)))
            == flat_with_origin(package_models(*package), |m: Model| model_items(m)),
{
    let models = iter_models(package);
    let n = models.len();
    let ghost ms = package_models(*package);
    let ghost f = |m: Model| model_items(m);
    let mut r: Vec<ItemPackageView<'a>> = Vec::new();
    for i in 0..n
        invariant
            n == models@.len(),
            ms == models@.map_values(|m: ModelRef<'a>| (*m.model, opt_str_chars(m.path))),
            f == (|m: Model| model_items(m)),
            r@.map_values(|v: ItemPackageView<'a>| (v.view@, opt_str_chars(v.origin_model_path))) =~= flat_with_origin(ms.take(i as int), f),
    {
        let model: &'a Model = models[i].model;
        let path = models[i].path;
        let objs: &'a Vec<Item> = &model.build.item;
        let m = objs.len();
        let ghost start = r@.map_values(|v: ItemPackageView<'a>| (v.view@, opt_str_chars(v.origin_model_path)));
        let ghost origin = opt_str_chars(path);
        assert(ms[i as int] == (*model, origin));
        for j in 0..m
            invariant
                m == objs@.len(),
                r@.map_values(|v: ItemPackageView<'a>| (v.view@, opt_str_chars(v.origin_model_path))) =~= start + objs@.take(j as int).map_values(
                    |o: Item| (o, origin),
                ),
                origin == opt_str_chars(path),
        {
            let ghost before = r@;
            r.push(ItemPackageView { view: ItemView::new(&objs[j]), origin_model_path: path });
            proof {
                assert(objs@.take(j + 1) =~= objs@.take(j as int).push(objs@[j as int]));
                assert(r@.map_values(|v: ItemPackageView<'a>| (v.view@, opt_str_chars(v.origin_model_path))) =~= before.map_values(
                    |v: ItemPackageView<'a>| (v.view@, opt_str_chars(v.origin_model_path)),
                ).push((objs@[j as int], origin)));
            }
        }
        proof {
            assert(objs@.take(m as int) =~= objs@);
            lemma_flat_step(ms, f, i as int);
        }
    }
    proof {
        assert(ms.take(n as int) =~= ms);
    }
    r
}

/// Views over the slice stacks of all models of the package, with the path of their model.
pub fn get_slice_stacks<'a>(package: &'a ThreemfPackage) -> (r: Vec<SliceStackPackageView<'a>>)
    ensures
        r@.map_values(|v: SliceStackPackageView<'a>| (v.view@, opt_str_chars(v.origin_model_path)))
            == flat_with_origin(package_models(*package), |m: Model| model_slice_stacks(m)),
{
    let models = iter_models(package);
    let n = models.len();
    let ghost ms = package_models(*package);
    let ghost f = |m: Model| model_slice_stacks(m);
    let mut r: Vec<SliceStackPackageView<'a>> = Vec::new();
    for i in 0..n
        invariant
            n == models@.len(),
            ms == models@.map_values(|m: ModelRef<'a>| (*m.model, opt_str_chars(m.path))),
            f == (|m: Model| model_slice_stacks(m)),
            r@.map_values(|v: SliceStackPackageView<'a>| (v.view@, opt_str_chars(v.origin_model_path))) =~= flat_with_origin(ms.take(i as int), f),
    {
        let model: &'a Model = models[i].model;
        let path = models[i].path;
        let objs: &'a Vec<SliceStack> = &model.resources.slicestack;
        let m = objs.len();
        let ghost start = r@.map_values(|v: SliceStackPackageView<'a>| (v.view@, opt_str_chars(v.origin_model_path)));
        let ghost origin = opt_str_chars(path);
        assert(ms[i as int] == (*model, origin));
        for j in 0..m
            invariant
                m == objs@.len(),
                r@.map_values(|v: SliceStackPackageView<'a>| (v.view@, opt_str_chars(v.origin_model_path))) =~= start + objs@.take(j as int).map_values(
                    |o: SliceStack| (o, origin),
                ),
                origin == opt_str_chars(path),
        {
            let ghost before = r@;
            r.push(SliceStackPackageView { view: SliceStackView::new(&objs[j]), origin_model_path: path });
            proof {
                assert(objs@.take(j + 1) =~= objs@.take(j as int).push(objs@[j as int]));
                assert(r@.map_values(|v: SliceStackPackageView<'a>| (v.view@, opt_str_chars(v.origin_model_path))) =~= before.map_values(
                    |v: SliceStackPackageView<'a>| (v.view@, opt_str_chars(v.origin_model_path)),
                ).push((objs@[j as int], origin)));
            }
        }
        proof {
            assert(objs@.take(m as int) =~= objs@);
            lemma_flat_step(ms, f, i as int);
        }
    }
    proof {
        assert(ms.take(n as int) =~= ms);
    }
    r
}

/// The build items of the package, with the path of their model.
pub open spec fn package_items(p: ThreemfPackage) -> Seq<(Item, Option<Seq<char>>)> {
    flat_with_origin(package_models(p), |m: Model| model_items(m))
}

/// Views over the build items of the package that place the object `objectid`.
pub fn get_items_by_objectid<'a>(package: &'a ThreemfPackage, objectid: u32) -> (r: Vec<ItemPackageView<'a>>)
    ensures
        r@.map_values(|v: ItemPackageView<'a>| (v.view@, opt_str_chars(v.origin_model_path)))
            == package_items(*package).filter(|e: (Item, Option<Seq<char>>)| e.0.objectid == objectid),
{
    let items = get_items(package);
    let ghost all = package_items(*package);
    let n = items.len();
    let mut r: Vec<ItemPackageView<'a>> = Vec::new();
    let mut items = items;
    let ghost views = items@;
    let mut k: usize = 0;
    while k < n
        invariant
            n == views.len(),
            k <= n,
            items@ == views.skip(k as int),
            all == views.map_values(|v: ItemPackageView<'a>| (v.view@, opt_str_chars(v.origin_model_path))),
            r@.map_values(|v: ItemPackageView<'a>| (v.view@, opt_str_chars(v.origin_model_path))) =~= all.take(k as int).filter(
                |e: (Item, Option<Seq<char>>)| e.0.objectid == objectid,
            ),
        decreases n - k,
    {
        reveal_with_fuel(Seq::<_>::filter, 1);
        let ghost before = r@;
        assert(all.take(k + 1).drop_last() =~= all.take(k as int));
        let v = items.remove(0);
        proof {
            assert(v == views[k as int]);
            assert(items@ =~= views.skip(k + 1));
        }
        if v.view.object_id() == objectid {
            r.push(v);
            assert(r@.map_values(|v: ItemPackageView<'a>| (v.view@, opt_str_chars(v.origin_model_path))) =~= before.map_values(
                |v: ItemPackageView<'a>| (v.view@, opt_str_chars(v.origin_model_path)),
            ).push(all[k as int]));
        }
        k = k + 1;
    }
    proof {
        assert(all.take(n as int) =~= all);
    }
    r
}

/// `i` is the first position in `s` of an item whose UUID is `uuid`.
pub open spec fn is_first_item_with_uuid(s: Seq<(Item, Option<Seq<char>>)>, uuid: Seq<char>, i: int) -> bool {
    &&& 0 <= i < s.len()
    &&& opt_chars(s[i].0.uuid) == Some(uuid)
    &&& forall|j: int| 0 <= j < i ==> opt_chars((#[trigger] s[j]).0.uuid) != Some(uuid)
}

/// True if the optional string is `Some` of exactly `t`.
fn opt_string_is(o: &Option<String>, t: &str) -> (r: bool)
    ensures
        r == (opt_chars(*o) == Some(t@)),
{
    match o {
        Some(s) => str_eq(s.as_str(), t),
        None => false,
    }
}

/// A view over the first build item of the package whose UUID is `uuid`, if any.
pub fn get_item_by_uuid<'a>(package: &'a ThreemfPackage, uuid: &str) -> (r: Option<ItemPackageView<'a>>)
    ensures
        match r {
            Some(v) => exists|i: int| #[trigger] is_first_item_with_uuid(package_items(*package), uuid@, i)
                && package_items(*package)[i] == (v.view@, opt_str_chars(v.origin_model_path)),
            None => forall|i: int| 0 <= i < package_items(*package).len()
                ==> opt_chars((#[trigger] package_items(*package)[i]).0.uuid) != Some(uuid@),
        },
{
    let items = get_items(package);
    let ghost all = package_items(*package);
    let n = items.len();
    let mut items = items;
    let ghost views = items@;
    let mut k: usize = 0;
    while k < n
        invariant
            n == views.len(),
            k <= n,
            items@ == views.skip(k as int),
            all == views.map_values(|v: ItemPackageView<'a>| (v.view@, opt_str_chars(v.origin_model_path))),
            all == package_items(*package),
            forall|j: int| 0 <= j < k ==> opt_chars((#[trigger] all[j]).0.uuid) != Some(uuid@),
        decreases n - k,
    {
        let v = items.remove(0);
        proof {
            assert(v == views[k as int]);
            assert(items@ =~= views.skip(k + 1));
            assert(all[k as int] == (v.view@, opt_str_chars(v.origin_model_path)));
        }
        let item_uuid = v.view.uuid();
        if opt_string_is(&item_uuid, uuid) {
            assert(is_first_item_with_uuid(package_items(*package), uuid@, k as int)
                && package_items(*package)[k as int] == (v.view@, opt_str_chars(v.origin_model_path)));
            return Some(v);
        }
        k = k + 1;
    }
    None
}

} // verus!
