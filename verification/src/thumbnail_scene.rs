//! What a thumbnail of a model shows: the meshes that its build items reach, directly or
//! through components, each with the way it was reached, so that the renderer can
//! combine the transforms met on the way.

use vstd::prelude::*;

use crate::domain::build_section::Item;
use crate::domain::component::Component;
use crate::domain::model::Model;
use crate::domain::object::{Object, ObjectKind};

verus! {

/// How a mesh was reached from an object: the indices of the objects passed through,
/// from the one first looked up to the mesh object itself, and the index of the
/// component taken in each components object on the way.
pub struct MeshPath {
    pub objects: Vec<usize>,
    pub components: Vec<usize>,
}

/// A mesh that the thumbnail shows: the index of the build item that places it, and
/// how it was reached from that item's object.
pub struct PlacedMesh {
    pub item: usize,
    pub path: MeshPath,
}

/// Why a thumbnail of a model cannot be made.
#[derive(Debug, Clone, Copy, PartialEq, Eq, Structural)]
pub enum SceneError {
    /// A build item or a component references an object id that no object has.
    ResourceNotFound(u32),
    /// The build items reach no mesh.
    NoRenderableGeometry,
}

/// A path as plain sequences.
pub type PathSpec = (Seq<usize>, Seq<usize>);

/// The index of the first object of `objs`, from `from` on, with id `id`.
pub open spec fn first_with_id(objs: Seq<Object>, id: u32, from: int) -> Option<int>
    decreases objs.len() - from,
{
    if from < 0 || from >= objs.len() {
        None
    } else if objs[from].id == id {
        Some(from)
    } else {
        first_with_id(objs, id, from + 1)
    }
}

/// The meshes reached from the object with id `id`, in depth-first order, going at most
/// `fuel` objects deep: `None` where that is not deep enough, the first id that names
/// no object where there is one.
pub open spec fn object_paths(objs: Seq<Object>, id: u32, fuel: nat) -> Option<Result<Seq<PathSpec>, u32>>
    decreases fuel, 0int,
{
    if fuel == 0 {
        None
    } else {
        match first_with_id(objs, id, 0) {
            None => Some(Err(id)),
            Some(i) => match objs[i].kind {
                Some(ObjectKind::Mesh(_)) => Some(Ok(seq![(seq![i as usize], Seq::<usize>::empty())])),
                Some(ObjectKind::Components(c)) => match component_paths(
                    objs,
                    c.component@,
                    c.component@.len(),
                    (fuel - 1) as nat,
                ) {
                    None => None,
                    Some(Err(e)) => Some(Err(e)),
                    Some(Ok(ps)) => Some(Ok(ps.map_values(|p: PathSpec| (seq![i as usize] + p.0, p.1)))),
                },
                _ => Some(Ok(Seq::empty())),
            },
        }
    }
}

/// The meshes reached through the first `n` components of `cs`, in order.
pub open spec fn component_paths(objs: Seq<Object>, cs: Seq<Component>, n: nat, fuel: nat) -> Option<
    Result<Seq<PathSpec>, u32>,
>
    decreases fuel, n + 1,
{
    if n == 0 || n > cs.len() {
        Some(Ok(Seq::empty()))
    } else {
        match component_paths(objs, cs, (n - 1) as nat, fuel) {
            None => None,
            Some(Err(e)) => Some(Err(e)),
            Some(Ok(before)) => match object_paths(objs, cs[n - 1].objectid, fuel) {
                None => None,
                Some(Err(e)) => Some(Err(e)),
                Some(Ok(ps)) => Some(
                    Ok(before + ps.map_values(|p: PathSpec| (p.0, seq![(n - 1) as usize] + p.1))),
                ),
            },
        }
    }
}

/// The meshes reached from the first `n` build items of `items`, in order, each with
/// the index of its item.
pub open spec fn item_paths(objs: Seq<Object>, items: Seq<Item>, n: nat, fuel: nat) -> Option<
    Result<Seq<(usize, PathSpec)>, u32>,
>
    decreases n,
{
    if n == 0 || n > items.len() {
        Some(Ok(Seq::empty()))
    } else {
        match item_paths(objs, items, (n - 1) as nat, fuel) {
            None => None,
            Some(Err(e)) => Some(Err(e)),
            Some(Ok(before)) => match object_paths(objs, items[n - 1].objectid, fuel) {
                None => None,
                Some(Err(e)) => Some(Err(e)),
                Some(Ok(ps)) => Some(Ok(before + ps.map_values(|p: PathSpec| ((n - 1) as usize, p)))),
            },
        }
    }
}

/// What a thumbnail of `m` shows. Chains of components can be no deeper than there are
/// objects unless they form a cycle; there the answer is `None`.
pub open spec fn thumbnail_scene(m: Model) -> Option<Result<Seq<(usize, PathSpec)>, SceneError>> {
    let objs = m.resources.object@;
    match item_paths(objs, m.build.item@, m.build.item@.len(), objs.len()) {
        None => None,
        Some(Err(id)) => Some(Err(SceneError::ResourceNotFound(id))),
        Some(Ok(ps)) => if ps.len() == 0 {
            Some(Err(SceneError::NoRenderableGeometry))
        } else {
            Some(Ok(ps))
        },
    }
}

/// A path as plain sequences.
pub open spec fn path_view(p: MeshPath) -> PathSpec {
    (p.objects@, p.components@)
}

/// Paths as plain sequences.
pub open spec fn paths_view(v: Seq<MeshPath>) -> Seq<PathSpec> {
    v.map_values(|p: MeshPath| path_view(p))
}

/// Placed meshes as plain sequences.
pub open spec fn placed_view(v: Seq<PlacedMesh>) -> Seq<(usize, PathSpec)> {
    v.map_values(|p: PlacedMesh| (p.item, path_view(p.path)))
}

/// A result of paths as plain sequences.
pub open spec fn paths_result_view(r: Option<Result<Vec<MeshPath>, u32>>) -> Option<Result<Seq<PathSpec>, u32>> {
    match r {
        None => None,
        Some(Err(e)) => Some(Err(e)),
        Some(Ok(v)) => Some(Ok(paths_view(v@))),
    }
}

/// The index of the first object with id `id`.
fn find_object(objs: &Vec<Object>, id: u32) -> (r: Option<usize>)
    ensures
        r matches Some(i) ==> i < objs@.len(),
        match r {
            Some(i) => first_with_id(objs@, id, 0) == Some(i as int),
            None => first_with_id(objs@, id, 0) is None,
        },
{
    let n = objs.len();
    let mut i: usize = 0;
    while i < n
        invariant
            i <= n,
            n == objs@.len(),
            first_with_id(objs@, id, 0) == first_with_id(objs@, id, i as int),
        decreases n - i,
    {
        if objs[i].id == id {
            return Some(i);
        }
        i = i + 1;
    }
    None
}

/// A copy of the indices.
fn copy_indices(v: &Vec<usize>) -> (r: Vec<usize>)
    ensures
        r@ == v@,
{
    let mut r: Vec<usize> = Vec::new();
    let n = v.len();
    for k in 0..n
        invariant
            n == v@.len(),
            r@ == v@.take(k as int),
    {
        r.push(v[k]);
        proof {
            assert(v@.take(k + 1) =~= v@.take(k as int).push(v@[k as int]));
        }
    }
    proof {
        assert(v@.take(n as int) =~= v@);
    }
    r
}

/// The paths `ps` with `first` put before the objects of each (`front_objects`), or
/// before the components of each.
fn prefix_paths(ps: &Vec<MeshPath>, first: usize, front_objects: bool) -> (r: Vec<MeshPath>)
    ensures
        front_objects ==> paths_view(r@) == paths_view(ps@).map_values(|p: PathSpec| (seq![first] + p.0, p.1)),
        !front_objects ==> paths_view(r@) == paths_view(ps@).map_values(|p: PathSpec| (p.0, seq![first] + p.1)),
{
    let mut r: Vec<MeshPath> = Vec::new();
    let n = ps.len();
    for k in 0..n
        invariant
            n == ps@.len(),
            r@.len() == k,
            forall|j: int| 0 <= j < k ==> {
                let p = path_view(#[trigger] ps@[j]);
                path_view(r@[j]) == if front_objects {
                    (seq![first] + p.0, p.1)
                } else {
                    (p.0, seq![first] + p.1)
                }
            },
    {
        let mut objects = copy_indices(&ps[k].objects);
        let mut components = copy_indices(&ps[k].components);
        if front_objects {
            objects.insert(0, first);
            assert(objects@ =~= seq![first] + ps@[k as int].objects@);
        } else {
            components.insert(0, first);
            assert(components@ =~= seq![first] + ps@[k as int].components@);
        }
        r.push(MeshPath { objects, components });
    }
    proof {
        if front_objects {
            assert(paths_view(r@) =~= paths_view(ps@).map_values(|p: PathSpec| (seq![first] + p.0, p.1)));
        } else {
            assert(paths_view(r@) =~= paths_view(ps@).map_values(|p: PathSpec| (p.0, seq![first] + p.1)));
        }
    }
    r
}

/// The paths `ps`, each placed by the build item `item`.
fn place_paths(ps: &Vec<MeshPath>, item: usize) -> (r: Vec<PlacedMesh>)
    ensures
        placed_view(r@) == paths_view(ps@).map_values(|p: PathSpec| (item, p)),
{
    let mut r: Vec<PlacedMesh> = Vec::new();
    let n = ps.len();
    for k in 0..n
        invariant
            n == ps@.len(),
            r@.len() == k,
            forall|j: int| 0 <= j < k ==> (#[trigger] r@[j]).item == item && path_view(r@[j].path) == path_view(ps@[j]),
    {
        let objects = copy_indices(&ps[k].objects);
        let components = copy_indices(&ps[k].components);
        r.push(PlacedMesh { item, path: MeshPath { objects, components } });
    }
    proof {
        assert(placed_view(r@) =~= paths_view(ps@).map_values(|p: PathSpec| (item, p)));
    }
    r
}

/// The meshes reached from the object with id `id`, going at most `fuel` objects deep.
fn collect_object_paths(objs: &Vec<Object>, id: u32, fuel: usize) -> (r: Option<Result<Vec<MeshPath>, u32>>)
    ensures
        paths_result_view(r) == object_paths(objs@, id, fuel as nat),
    decreases fuel,
{
    if fuel == 0 {
        return None;
    }
    let i = match find_object(objs, id) {
        Some(i) => i,
        None => return Some(Err(id)),
    };
    match &objs[i].kind {
        Some(ObjectKind::Mesh(_)) => {
            let mut v: Vec<MeshPath> = Vec::new();
            let mut objects: Vec<usize> = Vec::new();
            objects.push(i);
            v.push(MeshPath { objects, components: Vec::new() });
            assert(paths_view(v@) =~= seq![(seq![i], Seq::<usize>::empty())]);
            Some(Ok(v))
        },
        Some(ObjectKind::Components(c)) => {
            let cs = &c.component;
            let n = cs.len();
            let ghost f = (fuel - 1) as nat;
            let mut acc: Vec<MeshPath> = Vec::new();
            assert(paths_view(acc@) =~= Seq::<PathSpec>::empty());
            for k in 0..n
                invariant
                    n == cs@.len(),
                    f == fuel - 1,
                    fuel > 0,
                    i < objs@.len(),
                    first_with_id(objs@, id, 0) == Some(i as int),
                    objs@[i as int].kind == Some(ObjectKind::Components(*c)),
                    cs@ == c.component@,
                    component_paths(objs@, cs@, k as nat, f) == Some(Ok::<Seq<PathSpec>, u32>(paths_view(acc@))),
            {
                match collect_object_paths(objs, cs[k].objectid, fuel - 1) {
                    None => {
                        assert(component_paths(objs@, cs@, (k + 1) as nat, f) is None);
                        proof {
                            lemma_component_paths_stop(objs@, cs@, (k + 1) as nat, n as nat, f);
                            assert(component_paths(objs@, cs@, n as nat, f) is None);
                            assert(objs@[i as int].kind == Some(ObjectKind::Components(*c)));
                        }
                        return None;
                    },
                    Some(Err(e)) => {
                        assert(component_paths(objs@, cs@, (k + 1) as nat, f) == Some(Err::<Seq<PathSpec>, u32>(e)));
                        proof {
                            lemma_component_paths_stop(objs@, cs@, (k + 1) as nat, n as nat, f);
                            assert(component_paths(objs@, cs@, n as nat, f) == Some(Err::<Seq<PathSpec>, u32>(e)));
                            assert(objs@[i as int].kind == Some(ObjectKind::Components(*c)));
                        }
                        return Some(Err(e));
                    },
                    Some(Ok(ps)) => {
                        let more = prefix_paths(&ps, k, false);
                        let ghost before = paths_view(acc@);
                        let mut more = more;
                        acc.append(&mut more);
                        assert(paths_view(acc@) =~= before + paths_view(ps@).map_values(
                            |p: PathSpec| (p.0, seq![k] + p.1),
                        ));
                    },
                }
            }
            let r = prefix_paths(&acc, i, true);
            Some(Ok(r))
        },
        _ => {
            let v: Vec<MeshPath> = Vec::new();
            assert(paths_view(v@) =~= Seq::<PathSpec>::empty());
            Some(Ok(v))
        },
    }
}

/// Once the first `k` components end the walk early, so do the first `m`.
proof fn lemma_component_paths_stop(objs: Seq<Object>, cs: Seq<Component>, k: nat, m: nat, fuel: nat)
    requires
        1 <= k <= m <= cs.len(),
        !(component_paths(objs, cs, k, fuel) matches Some(Ok(_))),
    ensures
        component_paths(objs, cs, m, fuel) == component_paths(objs, cs, k, fuel),
    decreases m - k,
{
    if m > k {
        lemma_component_paths_stop(objs, cs, k, (m - 1) as nat, fuel);
    }
}

/// Once the first `k` items end the walk early, so do the first `m`.
proof fn lemma_item_paths_stop(objs: Seq<Object>, items: Seq<Item>, k: nat, m: nat, fuel: nat)
    requires
        1 <= k <= m <= items.len(),
        !(item_paths(objs, items, k, fuel) matches Some(Ok(_))),
    ensures
        item_paths(objs, items, m, fuel) == item_paths(objs, items, k, fuel),
    decreases m - k,
{
    if m > k {
        lemma_item_paths_stop(objs, items, k, (m - 1) as nat, fuel);
    }
}

/// The meshes that a thumbnail of `model` shows, in the order of the build items and,
/// within an item, depth first through components; `None` where the components form a
/// cycle, so that the walk would not end.
pub fn collect_meshes(model: &Model) -> (r: Option<Result<Vec<PlacedMesh>, SceneError>>)
    ensures
        match r {
            None => thumbnail_scene(*model) is None,
            Some(Err(e)) => thumbnail_scene(*model) == Some(Err::<Seq<(usize, PathSpec)>, SceneError>(e)),
            Some(Ok(v)) => thumbnail_scene(*model) == Some(Ok::<Seq<(usize, PathSpec)>, SceneError>(placed_view(v@))),
        },
{
    let objs = &model.resources.object;
    let items = &model.build.item;
    let fuel = objs.len();
    let n = items.len();
    let mut acc: Vec<PlacedMesh> = Vec::new();
    assert(placed_view(acc@) =~= Seq::<(usize, PathSpec)>::empty());
    for k in 0..n
        invariant
            n == items@.len(),
            fuel == objs@.len(),
            objs == &model.resources.object,
            items == &model.build.item,
            item_paths(objs@, items@, k as nat, fuel as nat) == Some(
                Ok::<Seq<(usize, PathSpec)>, u32>(placed_view(acc@)),
            ),
    {
        match collect_object_paths(objs, items[k].objectid, fuel) {
            None => {
                proof {
                    lemma_item_paths_stop(objs@, items@, (k + 1) as nat, n as nat, fuel as nat);
                }
                return None;
            },
            Some(Err(id)) => {
                proof {
                    lemma_item_paths_stop(objs@, items@, (k + 1) as nat, n as nat, fuel as nat);
                }
                return Some(Err(SceneError::ResourceNotFound(id)));
            },
            Some(Ok(ps)) => {
                let ghost before = placed_view(acc@);
                let mut placed = place_paths(&ps, k);
                acc.append(&mut placed);
                assert(placed_view(acc@) =~= before + paths_view(ps@).map_values(|p: PathSpec| (k, p)));
            },
        }
    }
    if acc.len() == 0 {
        Some(Err(SceneError::NoRenderableGeometry))
    } else {
        Some(Ok(acc))
    }
}

} // verus!
