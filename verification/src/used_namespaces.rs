//! The namespaces that a model uses: those whose declarations its XML text needs.

use vstd::prelude::*;

use crate::builder::extensions::{
    any_boolean_shape, any_lattice_balls, balls_used, find_last_lattice, has_boolean_shape, last_lattice, lattice_of,
    slice_required, material_required, displacement_required, uses_displacement, uses_materials,
    uses_slices,
};
use crate::domain::build_section::Item;
use crate::domain::model::Model;
use crate::domain::object::{boolean_shape_of, components_of, Object, ObjectKind};
use crate::namespaces::{namespace_uri, ThreemfNamespace};

verus! {

/// The URIs of the namespaces `ns`.
pub open spec fn uris_of(ns: Seq<ThreemfNamespace>) -> Seq<Seq<char>> {
    ns.map_values(|n: ThreemfNamespace| namespace_uri(n))
}

/// `ns` with `e` added at the end where `cond` holds and no namespace of `ns` has the URI
/// of `e`.
pub open spec fn with_namespace(ns: Seq<ThreemfNamespace>, e: ThreemfNamespace, cond: bool) -> Seq<ThreemfNamespace> {
    if cond && !uris_of(ns).contains(namespace_uri(e)) {
        ns.push(e)
    } else {
        ns
    }
}

/// `ns` with each of `more` added in turn, where its URI is not there yet.
pub open spec fn with_namespaces(ns: Seq<ThreemfNamespace>, more: Seq<ThreemfNamespace>) -> Seq<ThreemfNamespace>
    decreases more.len(),
{
    if more.len() == 0 {
        ns
    } else {
        with_namespace(with_namespaces(ns, more.drop_last()), more.last(), true)
    }
}

/// The item has production attributes.
pub open spec fn item_production_attrs(i: Item) -> bool {
    i.uuid is Some || i.path is Some
}

/// The object has production attributes: a UUID, or a component or boolean operand
/// with a path or UUID, or a boolean shape with a path.
pub open spec fn object_production_attrs(o: Object) -> bool {
    ||| o.uuid is Some
    ||| (components_of(o) matches Some(c) && exists|k: int|
        0 <= k < c.component@.len() && ((#[trigger] c.component@[k]).uuid is Some || c.component@[k].path is Some))
    ||| (boolean_shape_of(o) matches Some(b) && (b.path is Some || exists|k: int|
        0 <= k < b.booleans@.len() && (#[trigger] b.booleans@[k]).path is Some))
}

/// The model uses the production extension: its build, an item or an object has
/// production attributes.
pub open spec fn production_used(m: Model) -> bool {
    ||| m.build.uuid is Some
    ||| exists|i: int| 0 <= i < m.build.item@.len() && item_production_attrs(#[trigger] m.build.item@[i])
    ||| exists|i: int| 0 <= i < m.resources.object@.len() && object_production_attrs(#[trigger] m.resources.object@[i])
}

/// The object's mesh or displacement mesh has triangle sets.
pub open spec fn object_has_triangle_sets(o: Object) -> bool {
    match o.kind {
        Some(ObjectKind::Mesh(m)) => m.trianglesets is Some,
        Some(ObjectKind::DisplacementMesh(d)) => d.trianglesets is Some,
        _ => false,
    }
}

/// Some object has triangle sets.
pub open spec fn triangle_sets_used(objs: Seq<Object>) -> bool {
    exists|i: int| 0 <= i < objs.len() && object_has_triangle_sets(#[trigger] objs[i])
}

/// The namespaces that model `m` uses, each URI once: the core namespace, the declared
/// required and recommended extensions, then, in this order, those of the extensions
/// whose content the model holds: production, beam lattice, beam lattice balls,
/// boolean operations, slices, materials, displacement, triangle sets.
pub open spec fn model_used_namespaces(m: Model) -> Seq<ThreemfNamespace> {
    let declared = with_namespaces(
        with_namespaces(seq![ThreemfNamespace::Core], m.requiredextensions@),
        m.recommendedextensions@,
    );
    let objs = m.resources.object@;
    let e1 = with_namespace(declared, ThreemfNamespace::Prod, production_used(m));
    let e2 = with_namespace(e1, ThreemfNamespace::BeamLattice, last_lattice(objs) is Some);
    let e3 = with_namespace(e2, ThreemfNamespace::BeamLatticeBalls, balls_used(objs));
    let e4 = with_namespace(e3, ThreemfNamespace::Boolean, has_boolean_shape(objs));
    let e5 = with_namespace(e4, ThreemfNamespace::Slice, slice_required(m.resources));
    let e6 = with_namespace(e5, ThreemfNamespace::Material, material_required(m.resources));
    let e7 = with_namespace(e6, ThreemfNamespace::Displacement, displacement_required(m.resources));
    with_namespace(e7, ThreemfNamespace::CoreTriangleSet, triangle_sets_used(objs))
}

/// True where a namespace of `ns` has the URI `uri`.
fn has_uri(ns: &Vec<ThreemfNamespace>, uri: &str) -> (r: bool)
    ensures
        r == uris_of(ns@).contains(uri@),
{
    let n = ns.len();
    for i in 0..n
        invariant
            n == ns@.len(),
            forall|j: int| 0 <= j < i ==> namespace_uri(#[trigger] ns@[j]) != uri@,
    {
        if crate::text::str_eq(ns[i].uri(), uri) {
            proof {
                assert(uris_of(ns@)[i as int] == uri@);
            }
            return true;
        }
    }
    proof {
        if uris_of(ns@).contains(uri@) {
            let j = choose|j: int| 0 <= j < uris_of(ns@).len() && uris_of(ns@)[j] == uri@;
            assert(namespace_uri(ns@[j]) == uri@);
        }
    }
    false
}

/// Adds `e` at the end of `ns` where `cond` holds and its URI is not there yet.
fn push_namespace_if(ns: &mut Vec<ThreemfNamespace>, e: ThreemfNamespace, cond: bool)
    ensures
        final(ns)@ == with_namespace(old(ns)@, e, cond),
{
    if cond && !has_uri(ns, e.uri()) {
        ns.push(e);
    }
}

/// True where the item has production attributes.
fn item_has_production_attrs(i: &Item) -> (r: bool)
    ensures
        r == item_production_attrs(*i),
{
    i.uuid.is_some() || i.path.is_some()
}

/// True where the object has production attributes.
fn object_has_production_attrs(o: &Object) -> (r: bool)
    ensures
        r == object_production_attrs(*o),
{
    if o.uuid.is_some() {
        return true;
    }
    match &o.kind {
        Some(ObjectKind::Components(c)) => {
            let n = c.component.len();
            for k in 0..n
                invariant
                    n == c.component@.len(),
                    o.uuid is None,
                    components_of(*o) == Some(*c),
                    forall|j: int| 0 <= j < k ==> !((#[trigger] c.component@[j]).uuid is Some || c.component@[j].path is Some),
            {
                if c.component[k].uuid.is_some() || c.component[k].path.is_some() {
                    return true;
                }
            }
            false
        },
        Some(ObjectKind::BooleanShape(b)) => {
            if b.path.is_some() {
                return true;
            }
            let n = b.booleans.len();
            for k in 0..n
                invariant
                    n == b.booleans@.len(),
                    o.uuid is None,
                    b.path is None,
                    boolean_shape_of(*o) == Some(*b),
                    forall|j: int| 0 <= j < k ==> (#[trigger] b.booleans@[j]).path is None,
            {
                if b.booleans[k].path.is_some() {
                    return true;
                }
            }
            false
        },
        _ => false,
    }
}

/// True where the model uses the production extension.
fn uses_production(m: &Model) -> (r: bool)
    ensures
        r == production_used(*m),
{
    if m.build.uuid.is_some() {
        return true;
    }
    let n = m.build.item.len();
    for i in 0..n
        invariant
            n == m.build.item@.len(),
            forall|j: int| 0 <= j < i ==> !item_production_attrs(#[trigger] m.build.item@[j]),
    {
        if item_has_production_attrs(&m.build.item[i]) {
            return true;
        }
    }
    let k = m.resources.object.len();
    for i in 0..k
        invariant
            k == m.resources.object@.len(),
            m.build.uuid is None,
            forall|j: int| 0 <= j < m.build.item@.len() ==> !item_production_attrs(#[trigger] m.build.item@[j]),
            forall|j: int| 0 <= j < i ==> !object_production_attrs(#[trigger] m.resources.object@[j]),
    {
        if object_has_production_attrs(&m.resources.object[i]) {
            return true;
        }
    }
    false
}

/// True where some object has triangle sets.
fn any_triangle_sets(objs: &Vec<Object>) -> (r: bool)
    ensures
        r == triangle_sets_used(objs@),
{
    let n = objs.len();
    for i in 0..n
        invariant
            n == objs@.len(),
            forall|j: int| 0 <= j < i ==> !object_has_triangle_sets(#[trigger] objs@[j]),
    {
        let has = match &objs[i].kind {
            Some(ObjectKind::Mesh(m)) => m.trianglesets.is_some(),
            Some(ObjectKind::DisplacementMesh(d)) => d.trianglesets.is_some(),
            _ => false,
        };
        if has {
            return true;
        }
    }
    false
}

/// Adds each of `more` in turn to `ns`, where its URI is not there yet.
fn push_namespaces(ns: &mut Vec<ThreemfNamespace>, more: &Vec<ThreemfNamespace>)
    ensures
        final(ns)@ == with_namespaces(old(ns)@, more@),
{
    let ghost start = ns@;
    let n = more.len();
    proof {
        assert(more@.take(0) =~= Seq::<ThreemfNamespace>::empty());
    }
    for i in 0..n
        invariant
            n == more@.len(),
            ns@ == with_namespaces(start, more@.take(i as int)),
    {
        proof {
            assert(more@.take(i + 1).drop_last() =~= more@.take(i as int));
            assert(more@.take(i + 1).last() == more@[i as int]);
        }
        push_namespace_if(ns, more[i].duplicate(), true);
    }
    proof {
        assert(more@.take(n as int) =~= more@);
    }
}

impl Model {
    /// The namespaces that the model uses, each URI once: the core namespace, the
    /// declared required and recommended extensions, then those of the extensions whose
    /// content the model holds.
    pub fn used_namespaces(&self) -> (r: Vec<ThreemfNamespace>)
        ensures
            r@ == model_used_namespaces(*self),
    {
        let mut ns: Vec<ThreemfNamespace> = Vec::new();
        ns.push(ThreemfNamespace::Core);
        proof {
            assert(ns@ =~= seq![ThreemfNamespace::Core]);
        }
        push_namespaces(&mut ns, &self.requiredextensions);
        push_namespaces(&mut ns, &self.recommendedextensions);
        let objs = &self.resources.object;
        push_namespace_if(&mut ns, ThreemfNamespace::Prod, uses_production(self));
        push_namespace_if(&mut ns, ThreemfNamespace::BeamLattice, find_last_lattice(objs).is_some());
        push_namespace_if(&mut ns, ThreemfNamespace::BeamLatticeBalls, any_lattice_balls(objs));
        push_namespace_if(&mut ns, ThreemfNamespace::Boolean, any_boolean_shape(objs));
        push_namespace_if(&mut ns, ThreemfNamespace::Slice, uses_slices(&self.resources));
        push_namespace_if(&mut ns, ThreemfNamespace::Material, uses_materials(&self.resources));
        push_namespace_if(&mut ns, ThreemfNamespace::Displacement, uses_displacement(&self.resources));
        push_namespace_if(&mut ns, ThreemfNamespace::CoreTriangleSet, any_triangle_sets(objs));
        ns
    }
}

} // verus!
