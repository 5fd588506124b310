//! The validation rules: what each one reports about a model, or about a package.

use vstd::prelude::*;

use std::collections::HashSet;

use crate::domain::build_section::Item;
use crate::domain::component::Component;
use crate::domain::model::Model;
use crate::domain::object::{components_of, Object};
use crate::package::ThreemfPackage;
use crate::package_query::{
    flat_with_origin, get_components_objects, get_items, get_objects, model_components_objects,
    model_items, model_objects, package_models, ComponentsObjectPackageView, ItemPackageView,
    ModelWithPath, ObjectPackageView,
};
use crate::query::{
    get_components_objects_from_model, get_items_from_model, get_objects_from_model, ComponentsObjectView,
};
use crate::text::{debug_quoted, debug_quoted_string, decimal, opt_chars, opt_str_chars, push_decimal, str_eq};
use crate::validator::{issues_view, IssueSpec, Severity, ValidationIssue, ValidationRule};

verus! {

broadcast use vstd::std_specs::hash::group_hash_axioms;

/// The largest object id allowed.
pub const MAX_RESOURCE_ID: u32 = 2_147_483_647;

/// The package as a value, where there is one.
pub open spec fn opt_package(package: Option<&ThreemfPackage>) -> Option<ThreemfPackage> {
    match package {
        Some(p) => Some(*p),
        None => None,
    }
}

/// The models that a rule looks at: those of the package where one is given, else the
/// model alone, without a path.
pub open spec fn models_for(model: Model, package: Option<ThreemfPackage>) -> Seq<ModelWithPath> {
    match package {
        Some(p) => package_models(p),
        None => seq![(model, None::<Seq<char>>)],
    }
}

/// The objects that a rule looks at, each with the path of its model.
pub open spec fn objects_for(model: Model, package: Option<ThreemfPackage>) -> Seq<(Object, Option<Seq<char>>)> {
    flat_with_origin(models_for(model, package), |m: Model| model_objects(m))
}

/// The build items that a rule looks at, each with the path of its model.
pub open spec fn items_for(model: Model, package: Option<ThreemfPackage>) -> Seq<(Item, Option<Seq<char>>)> {
    flat_with_origin(models_for(model, package), |m: Model| model_items(m))
}

/// The components objects that a rule looks at, each with the path of its model.
pub open spec fn components_objects_for(model: Model, package: Option<ThreemfPackage>) -> Seq<(Object, Option<Seq<char>>)> {
    flat_with_origin(models_for(model, package), |m: Model| model_components_objects(m))
}

/// The elements picked from a single model without a path are its elements, without a
/// path.
proof fn lemma_flat_single<T>(m: Model, f: spec_fn(Model) -> Seq<T>)
    ensures
        flat_with_origin(seq![(m, None::<Seq<char>>)], f) == f(m).map_values(|t: T| (t, None::<Seq<char>>)),
{
    let ms = seq![(m, None::<Seq<char>>)];
    assert(ms.drop_last() =~= Seq::<ModelWithPath>::empty());
    assert(flat_with_origin(ms.drop_last(), f) =~= Seq::<(T, Option<Seq<char>>)>::empty());
    assert(flat_with_origin(ms, f) =~= f(m).map_values(|t: T| (t, None::<Seq<char>>)));
}

/// The issues that `f` gives for each element of `s`, in order.
pub open spec fn concat_map<T>(s: Seq<T>, f: spec_fn(T) -> Seq<IssueSpec>) -> Seq<IssueSpec>
    decreases s.len(),
{
    if s.len() == 0 {
        Seq::empty()
    } else {
        concat_map(s.drop_last(), f) + f(s.last())
    }
}

/// Taking one more element appends its issues.
proof fn lemma_concat_map_step<T>(s: Seq<T>, f: spec_fn(T) -> Seq<IssueSpec>, i: int)
    requires
        0 <= i < s.len(),
    ensures
        concat_map(s.take(i + 1), f) == concat_map(s.take(i), f) + f(s[i]),
{
    assert(s.take(i + 1).drop_last() =~= s.take(i));
    assert(s.take(i + 1).last() == s[i]);
}

/// The path of a model as messages name it: `root` for the root model.
pub open spec fn path_or_root(p: Option<Seq<char>>) -> Seq<char> {
    match p {
        Some(s) => s,
        None => "root"@,
    }
}

/// The path of a model as messages name it: `root` for the root model.
fn path_or_root_str<'a>(p: Option<&'a str>) -> (r: &'a str)
    ensures
        r@ == path_or_root(opt_str_chars(p)),
{
    match p {
        Some(s) => s,
        None => "root",
    }
}

/// True if the two optional paths are equal.
fn opt_str_eq(a: Option<&str>, b: Option<&str>) -> (r: bool)
    ensures
        r == (opt_str_chars(a) == opt_str_chars(b)),
{
    match (a, b) {
        (Some(x), Some(y)) => str_eq(x, y),
        (None, None) => true,
        _ => false,
    }
}

// ---------------------------------------------------------------------------------------
// Object ids
// ---------------------------------------------------------------------------------------

/// The message for an object with id 0, found in the model at `p`.
pub open spec fn zero_id_message(p: Option<Seq<char>>) -> Seq<char> {
    "Object ID cannot be 0. Object IDs must start at 1. Found at path: "@ + path_or_root(p)
}

/// The message for an object id above [`MAX_RESOURCE_ID`].
pub open spec fn id_too_large_message(id: u32) -> Seq<char> {
    "Object ID "@ + decimal(id as nat) + " exceeds maximum allowed value of 2147483647."@
}

/// The message for an object id that an earlier object already has.
pub open spec fn duplicate_id_message(id: u32) -> Seq<char> {
    "Duplicate object ID "@ + decimal(id as nat) + " found in model resources."@
}

/// Some object of `s` has id `id`.
pub open spec fn id_taken(s: Seq<(Object, Option<Seq<char>>)>, id: u32) -> bool {
    exists|j: int| 0 <= j < s.len() && (#[trigger] s[j]).0.id == id
}

/// The issue, if any, of the object `o` at path `p` after the objects `prev`: an id of
/// 0, an id above [`MAX_RESOURCE_ID`], or an id that an earlier object has.
pub open spec fn object_id_issue(prev: Seq<(Object, Option<Seq<char>>)>, o: Object, p: Option<Seq<char>>) -> Seq<IssueSpec> {
    if o.id == 0 {
        seq![(Severity::Error, zero_id_message(p))]
    } else if o.id > MAX_RESOURCE_ID {
        seq![(Severity::Error, id_too_large_message(o.id))]
    } else if id_taken(prev, o.id) {
        seq![(Severity::Error, duplicate_id_message(o.id))]
    } else {
        Seq::empty()
    }
}

/// The object id issues of a list of objects, in order.
pub open spec fn object_id_issues(s: Seq<(Object, Option<Seq<char>>)>) -> Seq<IssueSpec>
    decreases s.len(),
{
    if s.len() == 0 {
        Seq::empty()
    } else {
        object_id_issues(s.drop_last()) + object_id_issue(s.drop_last(), s.last().0, s.last().1)
    }
}

// ---------------------------------------------------------------------------------------
// Resource ids
// ---------------------------------------------------------------------------------------

/// The ids of the base material groups of a model.
pub open spec fn base_material_ids(model: Model) -> Set<u32> {
    Set::new(|id: u32| exists|j: int| 0 <= j < model.resources.basematerials@.len() && (#[trigger] model.resources.basematerials@[j]).id == id)
}

/// The message for an object whose `pid` names no base material group.
pub open spec fn missing_pid_message(id: u32, pid: u32) -> Seq<char> {
    "Object "@ + decimal(id as nat) + " references pid="@ + decimal(pid as nat) + " but no BaseMaterials with that ID exists."@
}

/// The message for an object with a `pindex` and no `pid`.
pub open spec fn pindex_without_pid_message(id: u32) -> Seq<char> {
    "Object "@ + decimal(id as nat) + " has pindex but no pid. pindex requires pid to be specified."@
}

/// The issue, if any, of an object whose `pid` is not among `ids`.
pub open spec fn pid_issue(ids: Set<u32>, e: (Object, Option<Seq<char>>)) -> Seq<IssueSpec> {
    match e.0.pid.value {
        Some(pid) => if ids.contains(pid) {
            Seq::empty()
        } else {
            seq![(Severity::Error, missing_pid_message(e.0.id, pid))]
        },
        None => Seq::empty(),
    }
}

/// The issue, if any, of an object with a `pindex` and no `pid`.
pub open spec fn pindex_issue(e: (Object, Option<Seq<char>>)) -> Seq<IssueSpec> {
    if e.0.pindex.value is Some && e.0.pid.value is None {
        seq![(Severity::Error, pindex_without_pid_message(e.0.id))]
    } else {
        Seq::empty()
    }
}

/// The resource id issues: first every missing `pid`, then every `pindex` without a
/// `pid`. The base materials are always those of `model`.
pub open spec fn resource_id_issues(model: Model, package: Option<ThreemfPackage>) -> Seq<IssueSpec> {
    concat_map(objects_for(model, package), |e: (Object, Option<Seq<char>>)| pid_issue(base_material_ids(model), e))
        + concat_map(objects_for(model, package), |e: (Object, Option<Seq<char>>)| pindex_issue(e))
}

// ---------------------------------------------------------------------------------------
// References to objects from build items and components
// ---------------------------------------------------------------------------------------

/// Some object of `objs` has id `id` and lies in the model at `path`.
pub open spec fn object_exists(objs: Seq<(Object, Option<Seq<char>>)>, path: Option<Seq<char>>, id: u32) -> bool {
    exists|j: int| 0 <= j < objs.len() && (#[trigger] objs[j]).1 == path && objs[j].0.id == id
}

/// The model in which a reference looks for its object: the path it names, else the
/// model it is written in.
pub open spec fn target_path(own: Option<Seq<char>>, origin: Option<Seq<char>>) -> Option<Seq<char>> {
    match own {
        Some(p) => Some(p),
        None => origin,
    }
}

/// The message for a build item that references an object that does not exist.
pub open spec fn unknown_item_object_message(id: u32, path: Option<Seq<char>>) -> Seq<char> {
    "A Build Item is referencing an unknown Object with Id: "@ + decimal(id as nat) + " at path: "@
        + debug_quoted(path_or_root(path))
}

/// The issue, if any, of a build item whose object does not exist.
pub open spec fn item_issue(objs: Seq<(Object, Option<Seq<char>>)>, e: (Item, Option<Seq<char>>)) -> Seq<IssueSpec> {
    let look = target_path(opt_chars(e.0.path), e.1);
    if object_exists(objs, look, e.0.objectid) {
        Seq::empty()
    } else {
        seq![(Severity::Warning, unknown_item_object_message(e.0.objectid, look))]
    }
}

/// The build item issues: an error for a package without build items, then a warning
/// for each build item whose object does not exist.
pub open spec fn build_item_issues(model: Model, package: Option<ThreemfPackage>) -> Seq<IssueSpec> {
    (if package is Some && items_for(model, package).len() == 0 {
        seq![(Severity::Error, "Package does not contain any Build Items"@)]
    } else {
        Seq::empty()
    }) + concat_map(items_for(model, package), |e: (Item, Option<Seq<char>>)| item_issue(objects_for(model, package), e))
}

/// The components of an object, none if it is not a components object.
pub open spec fn components_list(o: Object) -> Seq<Component> {
    match components_of(o) {
        Some(c) => c.component@,
        None => Seq::empty(),
    }
}

/// The message for a component, in the components object `owner` of the model at
/// `origin`, that references an object that does not exist.
pub open spec fn unknown_component_object_message(owner: u32, origin: Option<Seq<char>>, id: u32, path: Option<Seq<char>>) -> Seq<char> {
    "A Component in Components Object with Id: "@ + decimal(owner as nat) + " at path: "@ + path_or_root(origin)
        + " is referencing an unknown Object with Id: "@ + decimal(id as nat) + " at path: "@ + debug_quoted(
        path_or_root(path),
    )
}

/// The issue, if any, of a component of `owner` whose object does not exist.
pub open spec fn component_issue(
    objs: Seq<(Object, Option<Seq<char>>)>,
    owner: (Object, Option<Seq<char>>),
    c: Component,
) -> Seq<IssueSpec> {
    let look = target_path(opt_chars(c.path), owner.1);
    if object_exists(objs, look, c.objectid) {
        Seq::empty()
    } else {
        seq![(Severity::Warning, unknown_component_object_message(owner.0.id, owner.1, c.objectid, look))]
    }
}

/// The component issues: a warning for each component whose object does not exist.
pub open spec fn component_issues(model: Model, package: Option<ThreemfPackage>) -> Seq<IssueSpec> {
    concat_map(
        components_objects_for(model, package),
        |owner: (Object, Option<Seq<char>>)|
            concat_map(components_list(owner.0), |c: Component| component_issue(objects_for(model, package), owner, c)),
    )
}

/// The issues of one rule run on `model`, or on the package where one is given.
pub open spec fn rule_issues(rule: ValidationRule, model: Model, package: Option<ThreemfPackage>) -> Seq<IssueSpec> {
    match rule {
        ValidationRule::ObjectIdReference => object_id_issues(objects_for(model, package)),
        ValidationRule::ResourceIdReference => resource_id_issues(model, package),
        ValidationRule::BuildItemReference => build_item_issues(model, package),
        ValidationRule::ComponentReference => component_issues(model, package),
    }
}

// ---------------------------------------------------------------------------------------
// What the rules look at
// ---------------------------------------------------------------------------------------

/// The objects that a rule looks at, each with the path of its model.
fn objects_it<'a>(model: &'a Model, package: Option<&'a ThreemfPackage>) -> (r: Vec<ObjectPackageView<'a>>)
    ensures
        r@.map_values(|v: ObjectPackageView<'a>| (v.view@, opt_str_chars(v.origin_model_path)))
            == objects_for(*model, opt_package(package)),
{
    match package {
        Some(p) => get_objects(p),
        None => {
            let views = get_objects_from_model(model);
            let objs = &model.resources.object;
            let ghost target = objs@.map_values(|o: Object| (o, None::<Seq<char>>));
            proof {
                lemma_flat_single(*model, |m: Model| model_objects(m));
            }
            let n = views.len();
            let mut r: Vec<ObjectPackageView<'a>> = Vec::new();
            let mut views = views;
            let ghost vs = views@;
            let mut k: usize = 0;
            while k < n
                invariant
                    n == vs.len(),
                    k <= n,
                    views@ == vs.skip(k as int),
                    vs.len() == objs@.len(),
                    forall|i: int| 0 <= i < vs.len() ==> #[trigger] vs[i]@ == objs@[i],
                    target == objs@.map_values(|o: Object| (o, None::<Seq<char>>)),
                    r@.map_values(|v: ObjectPackageView<'a>| (v.view@, opt_str_chars(v.origin_model_path))) =~= target.take(k as int),
                decreases n - k,
            {
                let v = views.remove(0);
                proof {
                    assert(v == vs[k as int]);
                    assert(views@ =~= vs.skip(k + 1));
                }
                let ghost before = r@;
                r.push(ObjectPackageView { view: v, origin_model_path: None });
                proof {
                    assert(target.take(k + 1) =~= target.take(k as int).push(target[k as int]));
                    assert(r@.map_values(|v: ObjectPackageView<'a>| (v.view@, opt_str_chars(v.origin_model_path))) =~= before.map_values(
                        |v: ObjectPackageView<'a>| (v.view@, opt_str_chars(v.origin_model_path)),
                    ).push(target[k as int]));
                }
                k = k + 1;
            }
            proof {
                assert(target.take(n as int) =~= target);
            }
            r
        },
    }
}

/// The build items that a rule looks at, each with the path of its model.
fn items_it<'a>(model: &'a Model, package: Option<&'a ThreemfPackage>) -> (r: Vec<ItemPackageView<'a>>)
    ensures
        r@.map_values(|v: ItemPackageView<'a>| (v.view@, opt_str_chars(v.origin_model_path)))
            == items_for(*model, opt_package(package)),
{
    match package {
        Some(p) => get_items(p),
        None => {
            let views = get_items_from_model(model);
            let items = &model.build.item;
            let ghost target = items@.map_values(|o: Item| (o, None::<Seq<char>>));
            proof {
                lemma_flat_single(*model, |m: Model| model_items(m));
            }
            let n = views.len();
            let mut r: Vec<ItemPackageView<'a>> = Vec::new();
            let mut views = views;
            let ghost vs = views@;
            let mut k: usize = 0;
            while k < n
                invariant
                    n == vs.len(),
                    k <= n,
                    views@ == vs.skip(k as int),
                    vs.len() == items@.len(),
                    forall|i: int| 0 <= i < vs.len() ==> #[trigger] vs[i]@ == items@[i],
                    target == items@.map_values(|o: Item| (o, None::<Seq<char>>)),
                    r@.map_values(|v: ItemPackageView<'a>| (v.view@, opt_str_chars(v.origin_model_path))) =~= target.take(k as int),
                decreases n - k,
            {
                let v = views.remove(0);
                proof {
                    assert(v == vs[k as int]);
                    assert(views@ =~= vs.skip(k + 1));
                }
                let ghost before = r@;
                r.push(ItemPackageView { view: v, origin_model_path: None });
                proof {
                    assert(target.take(k + 1) =~= target.take(k as int).push(target[k as int]));
                    assert(r@.map_values(|v: ItemPackageView<'a>| (v.view@, opt_str_chars(v.origin_model_path))) =~= before.map_values(
                        |v: ItemPackageView<'a>| (v.view@, opt_str_chars(v.origin_model_path)),
                    ).push(target[k as int]));
                }
                k = k + 1;
            }
            proof {
                assert(target.take(n as int) =~= target);
            }
            r
        },
    }
}

/// The components objects that a rule looks at, each with the path of its model.
fn components_objects_it<'a>(model: &'a Model, package: Option<&'a ThreemfPackage>) -> (r: Vec<ComponentsObjectPackageView<'a>>)
    ensures
        r@.map_values(|v: ComponentsObjectPackageView<'a>| (v.view@, opt_str_chars(v.origin_model_path)))
            == components_objects_for(*model, opt_package(package)),
{
    match package {
        Some(p) => get_components_objects(p),
        None => {
            let views = get_components_objects_from_model(model);
            let ghost target = model_components_objects(*model).map_values(|o: Object| (o, None::<Seq<char>>));
            proof {
                lemma_flat_single(*model, |m: Model| model_components_objects(m));
            }
            let n = views.len();
            let mut r: Vec<ComponentsObjectPackageView<'a>> = Vec::new();
            let mut views = views;
            let ghost vs = views@;
            let mut k: usize = 0;
            while k < n
                invariant
                    n == vs.len(),
                    k <= n,
                    views@ == vs.skip(k as int),
                    vs.map_values(|v: ComponentsObjectView<'a>| v@) == model_components_objects(*model),
                    target == model_components_objects(*model).map_values(|o: Object| (o, None::<Seq<char>>)),
                    r@.map_values(|v: ComponentsObjectPackageView<'a>| (v.view@, opt_str_chars(v.origin_model_path))) =~= target.take(k as int),
                decreases n - k,
            {
                let v = views.remove(0);
                proof {
                    assert(v == vs[k as int]);
                    assert(views@ =~= vs.skip(k + 1));
                    assert(vs.map_values(|v: ComponentsObjectView<'a>| v@)[k as int] == v@);
                }
                let ghost before = r@;
                r.push(ComponentsObjectPackageView { view: v, origin_model_path: None });
                proof {
                    assert(target.take(k + 1) =~= target.take(k as int).push(target[k as int]));
                    assert(r@.map_values(|v: ComponentsObjectPackageView<'a>| (v.view@, opt_str_chars(v.origin_model_path))) =~= before.map_values(
                        |v: ComponentsObjectPackageView<'a>| (v.view@, opt_str_chars(v.origin_model_path)),
                    ).push(target[k as int]));
                }
                k = k + 1;
            }
            proof {
                assert(target.take(n as int) =~= target);
            }
            r
        },
    }
}

// ---------------------------------------------------------------------------------------
// The rules
// ---------------------------------------------------------------------------------------

/// Checks the object ids: each must be at least 1, at most [`MAX_RESOURCE_ID`], and not
/// taken by an earlier object. The objects are those of `model`, or those of all models
/// of the package where one is given.
pub fn validate_object_id_reference(model: &Model, package: Option<&ThreemfPackage>) -> (r: Vec<ValidationIssue>)
    ensures
        issues_view(r@) == object_id_issues(objects_for(*model, opt_package(package))),
{
    let objs = objects_it(model, package);
    let ghost os = objects_for(*model, opt_package(package));
    let n = objs.len();
    let mut issues: Vec<ValidationIssue> = Vec::new();
    let mut seen: HashSet<u32> = HashSet::new();
    for i in 0..n
        invariant
            n == objs@.len(),
            os == objs@.map_values(|v: ObjectPackageView| (v.view@, opt_str_chars(v.origin_model_path))),
            issues_view(issues@) =~= object_id_issues(os.take(i as int)),
            forall|id: u32| #[trigger] seen@.contains(id) <==> (1 <= id <= MAX_RESOURCE_ID && id_taken(os.take(i as int), id)),
    {
        let ghost prev = os.take(i as int);
        proof {
            assert(os.take(i + 1).drop_last() =~= prev);
            assert(os.take(i + 1).last() == os[i as int]);
        }
        let id = objs[i].view.id();
        let path = objs[i].origin_model_path;
        let ghost before = issues@;
        if id == 0 {
            let mut msg = String::from_str("Object ID cannot be 0. Object IDs must start at 1. Found at path: ");
            msg.append(path_or_root_str(path));
            issues.push(ValidationIssue { severity: Severity::Error, message: msg });
            proof {
                assert(issues_view(issues@) =~= issues_view(before).push((Severity::Error, zero_id_message(os[i as int].1))));
                assert forall|x: u32| #[trigger] seen@.contains(x) <==> (1 <= x <= MAX_RESOURCE_ID && id_taken(os.take(i + 1), x)) by {
                    if id_taken(os.take(i + 1), x) {
                        let j = choose|j: int| 0 <= j < os.take(i + 1).len() && (#[trigger] os.take(i + 1)[j]).0.id == x;
                        if j < i {
                            assert(prev[j] == os.take(i + 1)[j]);
                        }
                    }
                    if id_taken(prev, x) {
                        let j = choose|j: int| 0 <= j < prev.len() && (#[trigger] prev[j]).0.id == x;
                        assert(prev[j] == os.take(i + 1)[j]);
                    }
                }
            }
        } else if id > MAX_RESOURCE_ID {
            let mut msg = String::from_str("Object ID ");
            push_decimal(&mut msg, id);
            msg.append(" exceeds maximum allowed value of 2147483647.");
            issues.push(ValidationIssue { severity: Severity::Error, message: msg });
            proof {
                assert(issues_view(issues@) =~= issues_view(before).push((Severity::Error, id_too_large_message(id))));
                assert forall|x: u32| #[trigger] seen@.contains(x) <==> (1 <= x <= MAX_RESOURCE_ID && id_taken(os.take(i + 1), x)) by {
                    if id_taken(os.take(i + 1), x) {
                        let j = choose|j: int| 0 <= j < os.take(i + 1).len() && (#[trigger] os.take(i + 1)[j]).0.id == x;
                        if j < i {
                            assert(prev[j] == os.take(i + 1)[j]);
                        }
                    }
                    if id_taken(prev, x) {
                        let j = choose|j: int| 0 <= j < prev.len() && (#[trigger] prev[j]).0.id == x;
                        assert(prev[j] == os.take(i + 1)[j]);
                    }
                }
            }
        } else {
            let fresh = seen.insert(id);
            if !fresh {
                let mut msg = String::from_str("Duplicate object ID ");
                push_decimal(&mut msg, id);
                msg.append(" found in model resources.");
                issues.push(ValidationIssue { severity: Severity::Error, message: msg });
                proof {
                    assert(issues_view(issues@) =~= issues_view(before).push((Severity::Error, duplicate_id_message(id))));
                }
            } else {
                proof {
                    assert(issues_view(issues@) =~= issues_view(before));
                }
            }
            proof {
                assert forall|x: u32| #[trigger] seen@.contains(x) <==> (1 <= x <= MAX_RESOURCE_ID && id_taken(os.take(i + 1), x)) by {
                    if id_taken(os.take(i + 1), x) {
                        let j = choose|j: int| 0 <= j < os.take(i + 1).len() && (#[trigger] os.take(i + 1)[j]).0.id == x;
                        if j < i {
                            assert(prev[j] == os.take(i + 1)[j]);
                        }
                    }
                    if id_taken(prev, x) {
                        let j = choose|j: int| 0 <= j < prev.len() && (#[trigger] prev[j]).0.id == x;
                        assert(prev[j] == os.take(i + 1)[j]);
                    }
                    if x == id {
                        assert(os.take(i + 1)[i as int].0.id == x);
                    }
                }
            }
        }
    }
    proof {
        assert(os.take(n as int) =~= os);
    }
    issues
}

/// Checks the material references of the objects: every `pid` names base materials of
/// `model`, and every object with a `pindex` has a `pid`. All missing `pid` errors come
/// before all `pindex` errors.
pub fn validate_resource_id_reference(model: &Model, package: Option<&ThreemfPackage>) -> (r: Vec<ValidationIssue>)
    ensures
        issues_view(r@) == resource_id_issues(*model, opt_package(package)),
{
    let bms = &model.resources.basematerials;
    let nb = bms.len();
    let mut ids: HashSet<u32> = HashSet::new();
    for j in 0..nb
        invariant
            nb == bms@.len(),
            forall|x: u32| #[trigger] ids@.contains(x) <==> exists|k: int| 0 <= k < j && (#[trigger] bms@[k]).id == x,
    {
        ids.insert(bms[j].id);
        proof {
            assert forall|x: u32| #[trigger] ids@.contains(x) <==> exists|k: int| 0 <= k < j + 1 && (#[trigger] bms@[k]).id == x by {
                if x == bms@[j as int].id {
                    assert(bms@[j as int].id == x);
                }
            }
        }
    }
    proof {
        assert(ids@ =~= base_material_ids(*model));
    }
    let objs = objects_it(model, package);
    let ghost os = objects_for(*model, opt_package(package));
    let n = objs.len();
    let mut issues: Vec<ValidationIssue> = Vec::new();
    for i in 0..n
        invariant
            n == objs@.len(),
            os == objs@.map_values(|v: ObjectPackageView| (v.view@, opt_str_chars(v.origin_model_path))),
            ids@ == base_material_ids(*model),
            issues_view(issues@) =~= concat_map(
                os.take(i as int),
                |e: (Object, Option<Seq<char>>)| pid_issue(base_material_ids(*model), e),
            ),
    {
        proof {
            lemma_concat_map_step(os, |e: (Object, Option<Seq<char>>)| pid_issue(base_material_ids(*model), e), i as int);
        }
        let ghost before = issues@;
        let id = objs[i].view.id();
        match objs[i].view.pid().get() {
            Some(pid) => {
                if !ids.contains(&pid) {
                    let mut msg = String::from_str("Object ");
                    push_decimal(&mut msg, id);
                    msg.append(" references pid=");
                    push_decimal(&mut msg, pid);
                    msg.append(" but no BaseMaterials with that ID exists.");
                    issues.push(ValidationIssue { severity: Severity::Error, message: msg });
                    proof {
                        assert(issues_view(issues@) =~= issues_view(before).push((Severity::Error, missing_pid_message(id, pid))));
                    }
                }
            },
            None => {},
        }
    }
    let ghost first = issues_view(issues@);
    proof {
        assert(os.take(n as int) =~= os);
    }
    for i in 0..n
        invariant
            n == objs@.len(),
            os == objs@.map_values(|v: ObjectPackageView| (v.view@, opt_str_chars(v.origin_model_path))),
            issues_view(issues@) =~= first + concat_map(os.take(i as int), |e: (Object, Option<Seq<char>>)| pindex_issue(e)),
    {
        proof {
            lemma_concat_map_step(os, |e: (Object, Option<Seq<char>>)| pindex_issue(e), i as int);
        }
        let ghost before = issues@;
        let id = objs[i].view.id();
        if objs[i].view.pindex().is_some() && objs[i].view.pid().is_none() {
            let mut msg = String::from_str("Object ");
            push_decimal(&mut msg, id);
            msg.append(" has pindex but no pid. pindex requires pid to be specified.");
            issues.push(ValidationIssue { severity: Severity::Error, message: msg });
            proof {
                assert(issues_view(issues@) =~= issues_view(before).push((Severity::Error, pindex_without_pid_message(id))));
            }
        }
    }
    issues
}

/// True if some object of `objs` has id `id` and lies in the model at `path`.
fn object_exists_in(objs: &Vec<ObjectPackageView>, path: Option<&str>, id: u32) -> (r: bool)
    ensures
        r == object_exists(
            objs@.map_values(|v: ObjectPackageView| (v.view@, opt_str_chars(v.origin_model_path))),
            opt_str_chars(path),
            id,
        ),
{
    let ghost os = objs@.map_values(|v: ObjectPackageView| (v.view@, opt_str_chars(v.origin_model_path)));
    let n = objs.len();
    for j in 0..n
        invariant
            n == objs@.len(),
            os == objs@.map_values(|v: ObjectPackageView| (v.view@, opt_str_chars(v.origin_model_path))),
            forall|k: int| 0 <= k < j ==> !((#[trigger] os[k]).1 == opt_str_chars(path) && os[k].0.id == id),
    {
        if opt_str_eq(objs[j].origin_model_path, path) && objs[j].view.id() == id {
            assert(os[j as int].1 == opt_str_chars(path) && os[j as int].0.id == id);
            return true;
        }
    }
    false
}

/// Checks that every build item references an object that exists in the model that
/// the item names, else in its own model; with a package, also that there is at least
/// one build item.
pub fn validate_build_item_references(model: &Model, package: Option<&ThreemfPackage>) -> (r: Vec<ValidationIssue>)
    ensures
        issues_view(r@) == build_item_issues(*model, opt_package(package)),
{
    let items = items_it(model, package);
    let objects = objects_it(model, package);
    let ghost its = items_for(*model, opt_package(package));
    let ghost os = objects_for(*model, opt_package(package));
    let mut issues: Vec<ValidationIssue> = Vec::new();
    if package.is_some() && items.len() == 0 {
        issues.push(ValidationIssue::new(Severity::Error, "Package does not contain any Build Items"));
    }
    let ghost first = issues_view(issues@);
    proof {
        assert(first =~= if opt_package(package) is Some && its.len() == 0 {
            seq![(Severity::Error, "Package does not contain any Build Items"@)]
        } else {
            Seq::<IssueSpec>::empty()
        });
    }
    let n = items.len();
    for i in 0..n
        invariant
            n == items@.len(),
            its == items@.map_values(|v: ItemPackageView| (v.view@, opt_str_chars(v.origin_model_path))),
            os == objects@.map_values(|v: ObjectPackageView| (v.view@, opt_str_chars(v.origin_model_path))),
            issues_view(issues@) =~= first + concat_map(its.take(i as int), |e: (Item, Option<Seq<char>>)| item_issue(os, e)),
    {
        proof {
            lemma_concat_map_step(its, |e: (Item, Option<Seq<char>>)| item_issue(os, e), i as int);
        }
        let ghost before = issues@;
        let look = match items[i].view.path() {
            Some(p) => Some(p),
            None => items[i].origin_model_path,
        };
        let oid = items[i].view.object_id();
        if !object_exists_in(&objects, look, oid) {
            let mut msg = String::from_str("A Build Item is referencing an unknown Object with Id: ");
            push_decimal(&mut msg, oid);
            msg.append(" at path: ");
            let quoted = debug_quoted_string(path_or_root_str(look));
            msg.append(quoted.as_str());
            issues.push(ValidationIssue { severity: Severity::Warning, message: msg });
            proof {
                assert(issues_view(issues@) =~= issues_view(before).push(
                    (Severity::Warning, unknown_item_object_message(oid, opt_str_chars(look))),
                ));
            }
        }
    }
    proof {
        assert(its.take(n as int) =~= its);
    }
    issues
}

/// Checks that every component references an object that exists in the model that the
/// component names, else in the model of its components object.
pub fn validate_component_references(model: &Model, package: Option<&ThreemfPackage>) -> (r: Vec<ValidationIssue>)
    ensures
        issues_view(r@) == component_issues(*model, opt_package(package)),
{
    let comp_objs = components_objects_it(model, package);
    let objects = objects_it(model, package);
    let ghost cos = components_objects_for(*model, opt_package(package));
    let ghost os = objects_for(*model, opt_package(package));
    let mut issues: Vec<ValidationIssue> = Vec::new();
    let n = comp_objs.len();
    for i in 0..n
        invariant
            n == comp_objs@.len(),
            cos == comp_objs@.map_values(|v: ComponentsObjectPackageView| (v.view@, opt_str_chars(v.origin_model_path))),
            os == objects@.map_values(|v: ObjectPackageView| (v.view@, opt_str_chars(v.origin_model_path))),
            issues_view(issues@) =~= concat_map(
                cos.take(i as int),
                |owner: (Object, Option<Seq<char>>)|
                    concat_map(components_list(owner.0), |c: Component| component_issue(os, owner, c)),
            ),
    {
        proof {
            lemma_concat_map_step(
                cos,
                |owner: (Object, Option<Seq<char>>)|
                    concat_map(components_list(owner.0), |c: Component| component_issue(os, owner, c)),
                i as int,
            );
        }
        let ghost owner = cos[i as int];
        let ghost start = issues_view(issues@);
        let owner_id = comp_objs[i].view.id();
        let origin = comp_objs[i].origin_model_path;
        let comps = comp_objs[i].view.components();
        let ghost cl = components_list(owner.0);
        proof {
            assert(cl.len() == comps@.len());
        }
        let m = comps.len();
        for k in 0..m
            invariant
                m == comps@.len(),
                cl.len() == m,
                forall|j: int| 0 <= j < m ==> #[trigger] comps@[j]@ == cl[j],
                owner.0.id == owner_id,
                owner.1 == opt_str_chars(origin),
                issues_view(issues@) =~= start + concat_map(cl.take(k as int), |c: Component| component_issue(os, owner, c)),
                os == objects@.map_values(|v: ObjectPackageView| (v.view@, opt_str_chars(v.origin_model_path))),
        {
            proof {
                lemma_concat_map_step(cl, |c: Component| component_issue(os, owner, c), k as int);
            }
            let ghost before = issues@;
            let look = match comps[k].path() {
                Some(p) => Some(p),
                None => origin,
            };
            let oid = comps[k].object_id();
            if !object_exists_in(&objects, look, oid) {
                let mut msg = String::from_str("A Component in Components Object with Id: ");
                push_decimal(&mut msg, owner_id);
                msg.append(" at path: ");
                msg.append(path_or_root_str(origin));
                msg.append(" is referencing an unknown Object with Id: ");
                push_decimal(&mut msg, oid);
                msg.append(" at path: ");
                let quoted = debug_quoted_string(path_or_root_str(look));
                msg.append(quoted.as_str());
                issues.push(ValidationIssue { severity: Severity::Warning, message: msg });
                proof {
                    assert(issues_view(issues@) =~= issues_view(before).push(
                        (Severity::Warning, unknown_component_object_message(owner_id, opt_str_chars(origin), oid, opt_str_chars(look))),
                    ));
                }
            }
        }
        proof {
            assert(cl.take(m as int) =~= cl);
        }
    }
    proof {
        assert(cos.take(n as int) =~= cos);
    }
    issues
}

/// Runs one rule against a single model.
pub fn run_rule_for_model(rule: &ValidationRule, model: &Model) -> (r: Vec<ValidationIssue>)
    ensures
        issues_view(r@) == rule_issues(*rule, *model, None),
{
    match rule {
        ValidationRule::ObjectIdReference => validate_object_id_reference(model, None),
        ValidationRule::ResourceIdReference => validate_resource_id_reference(model, None),
        ValidationRule::BuildItemReference => validate_build_item_references(model, None),
        ValidationRule::ComponentReference => validate_component_references(model, None),
    }
}

/// Runs one rule against a whole package.
pub fn run_rule_for_package(rule: &ValidationRule, package: &ThreemfPackage) -> (r: Vec<ValidationIssue>)
    ensures
        issues_view(r@) == rule_issues(*rule, package.root, Some(*package)),
{
    match rule {
        ValidationRule::ObjectIdReference => validate_object_id_reference(&package.root, Some(package)),
        ValidationRule::ResourceIdReference => validate_resource_id_reference(&package.root, Some(package)),
        ValidationRule::BuildItemReference => validate_build_item_references(&package.root, Some(package)),
        ValidationRule::ComponentReference => validate_component_references(&package.root, Some(package)),
    }
}

} // verus!
