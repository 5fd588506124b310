//! Which 3MF extensions a model requires, judged from the resources it uses.

use vstd::prelude::*;

use crate::domain::beamlattice::BeamLattice;
use crate::domain::displacement::DisplacementMesh;
use crate::domain::mesh::Mesh;
use crate::domain::object::{
    boolean_shape_of, displacement_mesh_of, mesh_of, Object, ObjectKind,
};
use crate::domain::resources::Resources;
use crate::domain::slice::{MeshResolution, SliceStack};
use crate::namespaces::{duplicate_namespaces, ThreemfNamespace};

verus! {

/// `exts` with `e` added at the end where `cond` holds and `e` is not already there.
pub open spec fn with_extension(exts: Seq<ThreemfNamespace>, e: ThreemfNamespace, cond: bool) -> Seq<ThreemfNamespace> {
    if cond && !exts.contains(e) {
        exts.push(e)
    } else {
        exts
    }
}

/// The beam lattice of an object, if it has a mesh or displacement mesh with one.
pub open spec fn lattice_of(o: Object) -> Option<BeamLattice> {
    match o.kind {
        Some(ObjectKind::Mesh(m)) => m.beamlattice,
        Some(ObjectKind::DisplacementMesh(d)) => d.beamlattice,
        _ => None,
    }
}

/// The beam lattice of the last object of `objs` that has one.
pub open spec fn last_lattice(objs: Seq<Object>) -> Option<BeamLattice>
    decreases objs.len(),
{
    if objs.len() == 0 {
        None
    } else {
        match lattice_of(objs.last()) {
            Some(l) => Some(l),
            None => last_lattice(objs.drop_last()),
        }
    }
}

/// Some beam lattice of the objects has balls.
pub open spec fn balls_used(objs: Seq<Object>) -> bool {
    exists|i: int| 0 <= i < objs.len() && (lattice_of(#[trigger] objs[i]) matches Some(l) && l.balls is Some)
}

/// Some object is a boolean shape.
pub open spec fn has_boolean_shape(objs: Seq<Object>) -> bool {
    exists|i: int| 0 <= i < objs.len() && boolean_shape_of(#[trigger] objs[i]) is Some
}

/// Some object is a displacement mesh.
pub open spec fn has_displacement_mesh(objs: Seq<Object>) -> bool {
    exists|i: int| 0 <= i < objs.len() && displacement_mesh_of(#[trigger] objs[i]) is Some
}

/// The object uses slices: a slice stack, a slice path or a low mesh resolution.
pub open spec fn object_uses_slices(o: Object) -> bool {
    o.slicestackid.value is Some || o.slicepath is Some || o.meshresolution == Some(MeshResolution::LowRes)
}

/// The model uses the slice extension.
pub open spec fn slice_required(r: Resources) -> bool {
    r.slicestack@.len() > 0 || exists|i: int| 0 <= i < r.object@.len() && object_uses_slices(#[trigger] r.object@[i])
}

/// The lattice references material properties.
pub open spec fn lattice_material_refs(l: BeamLattice) -> bool {
    ||| l.pid.value is Some
    ||| l.pindex.value is Some
    ||| exists|j: int| 0 <= j < l.beams.beam@.len() && {
        let b = #[trigger] l.beams.beam@[j];
        b.pid.value is Some || b.p1.value is Some || b.p2.value is Some
    }
    ||| match l.balls {
        Some(balls) => exists|j: int| 0 <= j < balls.ball@.len() && {
            let b = #[trigger] balls.ball@[j];
            b.pid.value is Some || b.p.value is Some
        },
        None => false,
    }
}

/// The mesh references material properties.
pub open spec fn mesh_material_refs(m: Mesh) -> bool {
    ||| exists|j: int| 0 <= j < m.triangles.triangle@.len() && {
        let t = #[trigger] m.triangles.triangle@[j];
        t.pid.value is Some || t.p1.value is Some || t.p2.value is Some || t.p3.value is Some
    }
    ||| match m.beamlattice {
        Some(l) => lattice_material_refs(l),
        None => false,
    }
}

/// The displacement mesh references material properties.
pub open spec fn displacement_mesh_material_refs(m: DisplacementMesh) -> bool {
    ||| exists|j: int| 0 <= j < m.triangles.triangle@.len() && {
        let t = #[trigger] m.triangles.triangle@[j];
        t.pid.value is Some || t.p1.value is Some || t.p2.value is Some || t.p3.value is Some
    }
    ||| match m.beamlattice {
        Some(l) => lattice_material_refs(l),
        None => false,
    }
}

/// The object references material properties.
pub open spec fn object_material_refs(o: Object) -> bool {
    ||| o.pid.value is Some
    ||| o.pindex.value is Some
    ||| match mesh_of(o) {
        Some(m) => mesh_material_refs(m),
        None => false,
    }
    ||| match displacement_mesh_of(o) {
        Some(d) => displacement_mesh_material_refs(d),
        None => false,
    }
}

/// Some segment of some polygon of some slice of the stack references material
/// properties.
pub open spec fn stack_material_refs(s: SliceStack) -> bool {
    exists|a: int, b: int, c: int|
        0 <= a < s.slice@.len() && 0 <= b < (#[trigger] s.slice@[a]).polygon@.len() && 0 <= c < (
        #[trigger] s.slice@[a].polygon@[b]).segment@.len() && {
            let seg = #[trigger] s.slice@[a].polygon@[b].segment@[c];
            seg.pid.value is Some || seg.p1.value is Some || seg.p2.value is Some
        }
}

/// The model has material resources.
pub open spec fn has_material_resources(r: Resources) -> bool {
    r.basematerials@.len() > 0 || r.colorgroup@.len() > 0 || r.texture2dgroup@.len() > 0 || r.texture2d@.len() > 0
        || r.compositematerials@.len() > 0 || r.multiproperties@.len() > 0
}

/// The model uses the material extension: it has material resources, or an object or
/// a slice references material properties.
pub open spec fn material_required(r: Resources) -> bool {
    ||| has_material_resources(r)
    ||| exists|i: int| 0 <= i < r.object@.len() && object_material_refs(#[trigger] r.object@[i])
    ||| exists|i: int| 0 <= i < r.slicestack@.len() && stack_material_refs(#[trigger] r.slicestack@[i])
}

/// The model uses the displacement extension.
pub open spec fn displacement_required(r: Resources) -> bool {
    r.displacement2d@.len() > 0 || r.normvectorgroup@.len() > 0 || r.disp2dgroup@.len() > 0
        || has_displacement_mesh(r.object@)
}

/// The required extensions of a model: those declared, followed by those that the
/// model uses and that are not declared yet, in this order: production (where
/// required), beam lattice, beam lattice balls (where some lattice has balls),
/// boolean operations, slices, materials, displacement.
pub open spec fn required_extensions(declared: Seq<ThreemfNamespace>, production: bool, r: Resources) -> Seq<ThreemfNamespace> {
    let e1 = with_extension(declared, ThreemfNamespace::Prod, production);
    let lattice = last_lattice(r.object@);
    let e2 = with_extension(e1, ThreemfNamespace::BeamLattice, lattice is Some);
    let e3 = with_extension(e2, ThreemfNamespace::BeamLatticeBalls, balls_used(r.object@));
    let e4 = with_extension(e3, ThreemfNamespace::Boolean, has_boolean_shape(r.object@));
    let e5 = with_extension(e4, ThreemfNamespace::Slice, slice_required(r));
    let e6 = with_extension(e5, ThreemfNamespace::Material, material_required(r));
    with_extension(e6, ThreemfNamespace::Displacement, displacement_required(r))
}

/// True if the known specification `e` is among `exts`.
pub(crate) fn contains_extension(exts: &Vec<ThreemfNamespace>, e: &ThreemfNamespace) -> (r: bool)
    requires
        !(e is Unknown),
    ensures
        r == exts@.contains(*e),
{
    let n = exts.len();
    for i in 0..n
        invariant
            n == exts@.len(),
            forall|j: int| 0 <= j < i ==> exts@[j] != *e,
            !(e is Unknown),
    {
        if exts[i].is(e) {
            return true;
        }
    }
    false
}

/// Adds the known specification `e` at the end of `exts` where `cond` holds and `e` is
/// not already there.
pub(crate) fn push_extension_if(exts: &mut Vec<ThreemfNamespace>, e: ThreemfNamespace, cond: bool)
    requires
        !(e is Unknown),
    ensures
        final(exts)@ == with_extension(old(exts)@, e, cond),
{
    if cond && !contains_extension(exts, &e) {
        exts.push(e);
    }
}

/// The beam lattice of the last object that has one.
pub fn find_last_lattice(objs: &Vec<Object>) -> (r: Option<&BeamLattice>)
    ensures
        match r {
            Some(l) => last_lattice(objs@) == Some(*l),
            None => last_lattice(objs@) is None,
        },
{
    let n = objs.len();
    let mut i: usize = n;
    proof {
        assert(objs@.take(n as int) =~= objs@);
    }
    while i > 0
        invariant
            i <= n,
            n == objs@.len(),
            last_lattice(objs@) == last_lattice(objs@.take(i as int)),
        decreases i,
    {
        proof {
            assert(objs@.take(i as int).drop_last() =~= objs@.take(i - 1));
            assert(objs@.take(i as int).last() == objs@[i - 1]);
        }
        let found: Option<&BeamLattice> = match &objs[i - 1].kind {
            Some(ObjectKind::Mesh(m)) => match &m.beamlattice {
                Some(l) => Some(l),
                None => None,
            },
            Some(ObjectKind::DisplacementMesh(d)) => match &d.beamlattice {
                Some(l) => Some(l),
                None => None,
            },
            _ => None,
        };
        if found.is_some() {
            return found;
        }
        i = i - 1;
    }
    proof {
        assert(objs@.take(0) =~= Seq::<Object>::empty());
    }
    None
}

/// True where some beam lattice of the objects has balls.
pub fn any_lattice_balls(objs: &Vec<Object>) -> (r: bool)
    ensures
        r == balls_used(objs@),
{
    let n = objs.len();
    for i in 0..n
        invariant
            n == objs@.len(),
            forall|j: int| 0 <= j < i ==> !(lattice_of(#[trigger] objs@[j]) matches Some(l) && l.balls is Some),
    {
        let has = match &objs[i].kind {
            Some(ObjectKind::Mesh(m)) => match &m.beamlattice {
                Some(l) => l.balls.is_some(),
                None => false,
            },
            Some(ObjectKind::DisplacementMesh(d)) => match &d.beamlattice {
                Some(l) => l.balls.is_some(),
                None => false,
            },
            _ => false,
        };
        if has {
            return true;
        }
    }
    false
}

/// True if some object is a boolean shape.
pub fn any_boolean_shape(objs: &Vec<Object>) -> (r: bool)
    ensures
        r == has_boolean_shape(objs@),
{
    let n = objs.len();
    for i in 0..n
        invariant
            n == objs@.len(),
            forall|j: int| 0 <= j < i ==> boolean_shape_of(#[trigger] objs@[j]) is None,
    {
        if objs[i].get_boolean_shape_object().is_some() {
            return true;
        }
    }
    false
}

/// True if some object is a displacement mesh.
pub fn any_displacement_mesh(objs: &Vec<Object>) -> (r: bool)
    ensures
        r == has_displacement_mesh(objs@),
{
    let n = objs.len();
    for i in 0..n
        invariant
            n == objs@.len(),
            forall|j: int| 0 <= j < i ==> displacement_mesh_of(#[trigger] objs@[j]) is None,
    {
        if objs[i].get_displacement_mesh().is_some() {
            return true;
        }
    }
    false
}

/// True if the model uses the slice extension.
pub fn uses_slices(r: &Resources) -> (b: bool)
    ensures
        b == slice_required(*r),
{
    if r.slicestack.len() > 0 {
        return true;
    }
    let n = r.object.len();
    for i in 0..n
        invariant
            n == r.object@.len(),
            r.slicestack@.len() == 0,
            forall|j: int| 0 <= j < i ==> !object_uses_slices(#[trigger] r.object@[j]),
    {
        let o = &r.object[i];
        let low = match o.meshresolution {
            Some(MeshResolution::LowRes) => true,
            _ => false,
        };
        if o.slicestackid.is_some() || o.slicepath.is_some() || low {
            return true;
        }
    }
    false
}

/// True if the lattice references material properties.
pub fn lattice_uses_materials(l: &BeamLattice) -> (b: bool)
    ensures
        b == lattice_material_refs(*l),
{
    if l.pid.is_some() || l.pindex.is_some() {
        return true;
    }
    let n = l.beams.beam.len();
    for j in 0..n
        invariant
            n == l.beams.beam@.len(),
            l.pid.value is None && l.pindex.value is None,
            forall|k: int| 0 <= k < j ==> {
                let b = #[trigger] l.beams.beam@[k];
                !(b.pid.value is Some || b.p1.value is Some || b.p2.value is Some)
            },
    {
        let b = &l.beams.beam[j];
        if b.pid.is_some() || b.p1.is_some() || b.p2.is_some() {
            return true;
        }
    }
    match &l.balls {
        Some(balls) => {
            let m = balls.ball.len();
            for j in 0..m
                invariant
                    m == balls.ball@.len(),
                    l.balls == Some(*balls),
                    forall|k: int| 0 <= k < j ==> {
                        let b = #[trigger] balls.ball@[k];
                        !(b.pid.value is Some || b.p.value is Some)
                    },
            {
                let b = &balls.ball[j];
                if b.pid.is_some() || b.p.is_some() {
                    return true;
                }
            }
            false
        },
        None => false,
    }
}

/// True if the mesh references material properties.
pub fn mesh_uses_materials(m: &Mesh) -> (b: bool)
    ensures
        b == mesh_material_refs(*m),
{
    let n = m.triangles.triangle.len();
    for j in 0..n
        invariant
            n == m.triangles.triangle@.len(),
            forall|k: int| 0 <= k < j ==> {
                let t = #[trigger] m.triangles.triangle@[k];
                !(t.pid.value is Some || t.p1.value is Some || t.p2.value is Some || t.p3.value is Some)
            },
    {
        let t = &m.triangles.triangle[j];
        if t.pid.is_some() || t.p1.is_some() || t.p2.is_some() || t.p3.is_some() {
            return true;
        }
    }
    match &m.beamlattice {
        Some(l) => lattice_uses_materials(l),
        None => false,
    }
}

/// True if the displacement mesh references material properties.
pub fn displacement_mesh_uses_materials(m: &DisplacementMesh) -> (b: bool)
    ensures
        b == displacement_mesh_material_refs(*m),
{
    let n = m.triangles.triangle.len();
    for j in 0..n
        invariant
            n == m.triangles.triangle@.len(),
            forall|k: int| 0 <= k < j ==> {
                let t = #[trigger] m.triangles.triangle@[k];
                !(t.pid.value is Some || t.p1.value is Some || t.p2.value is Some || t.p3.value is Some)
            },
    {
        let t = &m.triangles.triangle[j];
        if t.pid.is_some() || t.p1.is_some() || t.p2.is_some() || t.p3.is_some() {
            return true;
        }
    }
    match &m.beamlattice {
        Some(l) => lattice_uses_materials(l),
        None => false,
    }
}

/// True if the object references material properties.
pub fn object_uses_materials(o: &Object) -> (b: bool)
    ensures
        b == object_material_refs(*o),
{
    if o.pid.is_some() || o.pindex.is_some() {
        return true;
    }
    let in_mesh = match o.get_mesh() {
        Some(m) => mesh_uses_materials(m),
        None => false,
    };
    if in_mesh {
        return true;
    }
    match o.get_displacement_mesh() {
        Some(d) => displacement_mesh_uses_materials(d),
        None => false,
    }
}

/// True if some segment of the stack references material properties.
pub fn stack_uses_materials(s: &SliceStack) -> (b: bool)
    ensures
        b == stack_material_refs(*s),
{
    let na = s.slice.len();
    for a in 0..na
        invariant
            na == s.slice@.len(),
            forall|x: int, y: int, z: int|
                0 <= x < a && 0 <= y < (#[trigger] s.slice@[x]).polygon@.len() && 0 <= z < (
                #[trigger] s.slice@[x].polygon@[y]).segment@.len() ==> {
                    let seg = #[trigger] s.slice@[x].polygon@[y].segment@[z];
                    !(seg.pid.value is Some || seg.p1.value is Some || seg.p2.value is Some)
                },
    {
        let sl = &s.slice[a];
        let nb = sl.polygon.len();
        for b in 0..nb
            invariant
                nb == sl.polygon@.len(),
                na == s.slice@.len(),
                a < na,
                *sl == s.slice@[a as int],
                forall|y: int, z: int|
                    0 <= y < b && 0 <= z < (#[trigger] sl.polygon@[y]).segment@.len() ==> {
                        let seg = #[trigger] sl.polygon@[y].segment@[z];
                        !(seg.pid.value is Some || seg.p1.value is Some || seg.p2.value is Some)
                    },
        {
            let poly = &sl.polygon[b];
            let nc = poly.segment.len();
            for c in 0..nc
                invariant
                    nc == poly.segment@.len(),
                    nb == sl.polygon@.len(),
                    b < nb,
                    na == s.slice@.len(),
                    a < na,
                    *sl == s.slice@[a as int],
                    *poly == sl.polygon@[b as int],
                    forall|z: int| 0 <= z < c ==> {
                        let seg = #[trigger] poly.segment@[z];
                        !(seg.pid.value is Some || seg.p1.value is Some || seg.p2.value is Some)
                    },
            {
                let seg = &poly.segment[c];
                if seg.pid.is_some() || seg.p1.is_some() || seg.p2.is_some() {
                    proof {
                        assert(s.slice@[a as int].polygon@[b as int].segment@[c as int] == *seg);
                    }
                    return true;
                }
            }
        }
    }
    false
}

/// True if the model uses the material extension.
pub fn uses_materials(r: &Resources) -> (b: bool)
    ensures
        b == material_required(*r),
{
    if r.basematerials.len() > 0 || r.colorgroup.len() > 0 || r.texture2dgroup.len() > 0 || r.texture2d.len() > 0
        || r.compositematerials.len() > 0 || r.multiproperties.len() > 0 {
        return true;
    }
    let n = r.object.len();
    for i in 0..n
        invariant
            n == r.object@.len(),
            forall|j: int| 0 <= j < i ==> !object_material_refs(#[trigger] r.object@[j]),
    {
        if object_uses_materials(&r.object[i]) {
            return true;
        }
    }
    let m = r.slicestack.len();
    for i in 0..m
        invariant
            m == r.slicestack@.len(),
            !has_material_resources(*r),
            forall|j: int| 0 <= j < r.object@.len() ==> !object_material_refs(#[trigger] r.object@[j]),
            forall|j: int| 0 <= j < i ==> !stack_material_refs(#[trigger] r.slicestack@[j]),
    {
        if stack_uses_materials(&r.slicestack[i]) {
            return true;
        }
    }
    false
}

/// True if the model uses the displacement extension.
pub fn uses_displacement(r: &Resources) -> (b: bool)
    ensures
        b == displacement_required(*r),
{
    r.displacement2d.len() > 0 || r.normvectorgroup.len() > 0 || r.disp2dgroup.len() > 0 || any_displacement_mesh(
        &r.object,
    )
}

/// The required extensions of a model with the declared extensions `declared` and the
/// resources `r`.
pub fn compute_required_extensions(declared: &Vec<ThreemfNamespace>, production: bool, r: &Resources) -> (exts: Vec<
    ThreemfNamespace,
>)
    ensures
        exts@ == required_extensions(declared@, production, *r),
{
    let mut exts = duplicate_namespaces(declared);
    push_extension_if(&mut exts, ThreemfNamespace::Prod, production);
    let has_lattice = find_last_lattice(&r.object).is_some();
    push_extension_if(&mut exts, ThreemfNamespace::BeamLattice, has_lattice);
    push_extension_if(&mut exts, ThreemfNamespace::BeamLatticeBalls, any_lattice_balls(&r.object));
    push_extension_if(&mut exts, ThreemfNamespace::Boolean, any_boolean_shape(&r.object));
    push_extension_if(&mut exts, ThreemfNamespace::Slice, uses_slices(r));
    push_extension_if(&mut exts, ThreemfNamespace::Material, uses_materials(r));
    push_extension_if(&mut exts, ThreemfNamespace::Displacement, uses_displacement(r));
    exts
}

} // verus!
