//! Properties of the library that relate several of its functions.

use vstd::prelude::*;

use crate::builder::extensions::{
    displacement_required, has_boolean_shape, last_lattice, balls_used, material_required, required_extensions,
    slice_required, with_extension,
};
use crate::builder::model_builder::{
    build_production_error, first_object_production_error, object_production_error, production_error,
    boolean_object_outcome, builder_wf, components_object_outcome, components_refer_back,
    displacement_mesh_object_outcome, ids_in_order, mesh_object_outcome, object_added, object_ids,
    ModelBuilderState,
};
use crate::builder::errors::{ProductionExtensionError, BooleanShapeError, ComponentsObjectError, DisplacementMeshObjectError, MeshObjectError};
use crate::builder::ids::ObjectId;
use crate::builder::object_builder::{
    BooleanObjectBuilder, ComponentsObjectBuilder, DisplacementMeshObjectBuilder, MeshObjectBuilder,
};
use crate::domain::component::Component;
use crate::domain::model::Model;
use crate::domain::beamlattice::{Ball, BeamLattice, CapMode};
use crate::domain::material::Texture2DGroup;
use crate::domain::slice::Polygon;
use crate::domain::triangle_set::TriangleSet;
use crate::query::{
    ball_view_of, beam_view_of, find_by_id_spec, index_range, material_property_view, polygon_segment_pair,
    ranges_indices, resolve_material_property_spec, triangle_set_indices, BallView, BeamView,
    MaterialPropertyValue,
};
use crate::types::{Double, OptionalResourceId, OptionalResourceIndex};
use crate::domain::object::{components_of, Object};
use crate::domain::resources::Resources;
use crate::namespaces::{namespace_uri, ThreemfNamespace};
use crate::used_namespaces::{
    model_used_namespaces, production_used, uris_of, with_namespace, with_namespaces,
};
use crate::package_query::{flat_with_origin, model_components_objects, model_objects, ModelWithPath};
use crate::package::ThreemfPackage;
use crate::part_map::PartMap;
use crate::xml_namespaces::{
    attribute_tokens, filtered_model_xml, keep_uris, lemma_find_char_found, lemma_find_seq_at,
    lemma_find_seq_first, lemma_find_seq_found, lemma_tag_end_after_name, model_start_tag,
    namespace_scope, occurs_at, rewritten_model_tag, scan, starts_with, xmlns_decls,
};
use crate::xml_scan::{
    lemma_find_char_at,
    clean_word, fresh, kept_decl_words, lemma_clean_word_no_gt, lemma_spaced_no_gt, lemma_decls_of_clean_words, lemma_kept_decls_text,
    lemma_kept_words_clean, lemma_kept_words_declare_kept, lemma_plain_attrs_text,
    lemma_plain_word_declares_nothing, lemma_plain_words_clean, lemma_plain_words_declare_nothing,
    lemma_scan_from_concat, lemma_scan_from_quotes, lemma_scan_is_scan_from, lemma_scan_model_name,
    lemma_scan_spaced, lemma_scan_words_clean, lemma_spaced_concat, lemma_xmlns_decls_concat,
    plain_words, quotes_closed, scan_from, spaced,
};
use crate::package_write::{package_writes, relationship_writes, PartSourceSpec};
use crate::part_map::lemma_entries_map_dom;
use crate::paths::{relationship_part_path, strip_leading_slash};
use crate::relationship::{Relationship, Relationships};
use crate::text::ascii_lower;
use crate::builder::resource_builders::{blend_method_word, blend_methods_text};
use crate::domain::material::{blend_method_from_name, BlendMethod};
use crate::thumbnail_handle::{format_name, format_of_ext, ImageFormatSpec};
use crate::validator::{IssueSpec, ValidationRule};
use crate::validator_rules::{
    component_issue, components_list, concat_map, id_taken, object_exists, object_id_issues,
    objects_for, rule_issues, MAX_RESOURCE_ID,
};

verus! {

broadcast use vstd::seq_lib::group_filter_ensures;

// ---------------------------------------------------------------------------------------
// Ids handed out by the model builder
// ---------------------------------------------------------------------------------------

/// The model builder never hands out an object id twice: the objects it holds have
/// distinct ids, 1 to their number.
pub proof fn builder_object_ids_are_distinct(s: crate::builder::model_builder::ModelBuilderState)
    requires
        builder_wf(s),
    ensures
        ids_in_order(s.resources.object@),
        forall|i: int, j: int|
            0 <= i < j < s.resources.object@.len() ==> (#[trigger] s.resources.object@[i]).id != (#[trigger] s.resources.object@[j]).id,
{
    let objs = s.resources.object@;
    assert forall|i: int| 0 <= i < objs.len() implies (#[trigger] objs[i]).id == i + 1 by {
        assert(object_ids(objs)[i] == i + 1);
    }
}

/// The objects of a single model, without a path.
proof fn lemma_objects_of_model(m: Model)
    ensures
        objects_for(m, None) == m.resources.object@.map_values(|o: Object| (o, None::<Seq<char>>)),
{
    let ms = seq![(m, None::<Seq<char>>)];
    assert(ms.drop_last() =~= Seq::<ModelWithPath>::empty());
    assert(flat_with_origin(ms.drop_last(), |x: Model| model_objects(x)) =~= Seq::<(Object, Option<Seq<char>>)>::empty());
    assert(objects_for(m, None) =~= m.resources.object@.map_values(|o: Object| (o, None::<Seq<char>>)));
}

/// Objects numbered from 1 in order raise no object id issue.
proof fn lemma_in_order_no_id_issues(s: Seq<(Object, Option<Seq<char>>)>)
    requires
        forall|i: int| 0 <= i < s.len() ==> (#[trigger] s[i]).0.id == i + 1,
        s.len() <= MAX_RESOURCE_ID,
    ensures
        object_id_issues(s) == Seq::<IssueSpec>::empty(),
    decreases s.len(),
{
    if s.len() > 0 {
        let p = s.drop_last();
        assert forall|i: int| 0 <= i < p.len() implies (#[trigger] p[i]).0.id == i + 1 by {
            assert(p[i] == s[i]);
        }
        lemma_in_order_no_id_issues(p);
        assert(s.last().0.id == s.len());
        if id_taken(p, s.last().0.id) {
            let j = choose|j: int| 0 <= j < p.len() && (#[trigger] p[j]).0.id == s.last().0.id;
            assert(p[j] == s[j]);
        }
        assert(object_id_issues(s) =~= Seq::<IssueSpec>::empty());
    }
}

/// A model whose objects the model builder numbered (1, 2, 3, ... in order, at most
/// 2147483647 of them) passes the object id rule.
pub proof fn numbered_objects_pass_object_id_rule(m: Model)
    requires
        ids_in_order(m.resources.object@),
        m.resources.object@.len() <= MAX_RESOURCE_ID,
    ensures
        rule_issues(ValidationRule::ObjectIdReference, m, None) == Seq::<IssueSpec>::empty(),
{
    lemma_objects_of_model(m);
    let s = m.resources.object@.map_values(|o: Object| (o, None::<Seq<char>>));
    assert forall|i: int| 0 <= i < s.len() implies (#[trigger] s[i]).0.id == i + 1 by {
        assert(s[i].0 == m.resources.object@[i]);
    }
    lemma_in_order_no_id_issues(s);
}

/// The issues of a list are empty where each element gives none.
proof fn lemma_concat_map_empty<T>(s: Seq<T>, f: spec_fn(T) -> Seq<IssueSpec>)
    requires
        forall|i: int| 0 <= i < s.len() ==> f(#[trigger] s[i]) == Seq::<IssueSpec>::empty(),
    ensures
        concat_map(s, f) == Seq::<IssueSpec>::empty(),
    decreases s.len(),
{
    if s.len() > 0 {
        let p = s.drop_last();
        assert forall|i: int| 0 <= i < p.len() implies f(#[trigger] p[i]) == Seq::<IssueSpec>::empty() by {
            assert(p[i] == s[i]);
        }
        lemma_concat_map_empty(p, f);
        assert(f(s.last()) == Seq::<IssueSpec>::empty());
        assert(concat_map(s, f) =~= Seq::<IssueSpec>::empty());
    }
}

/// No component of the model has a path.
pub open spec fn no_component_paths(objs: Seq<Object>) -> bool {
    forall|i: int, k: int|
        0 <= i < objs.len() && 0 <= k < components_list(#[trigger] objs[i]).len() ==> (#[trigger] components_list(
            objs[i],
        )[k]).path is None
}

/// A model built by the model builder, whose components therefore reference objects
/// added before them, passes the component rule when no component names another
/// model file by a path.
pub proof fn builder_components_pass_component_rule(m: Model)
    requires
        ids_in_order(m.resources.object@),
        components_refer_back(m.resources.object@),
        no_component_paths(m.resources.object@),
    ensures
        rule_issues(ValidationRule::ComponentReference, m, None) == Seq::<IssueSpec>::empty(),
{
    let objs = m.resources.object@;
    lemma_objects_of_model(m);
    let os = objects_for(m, None);
    let ms = seq![(m, None::<Seq<char>>)];
    assert(ms.drop_last() =~= Seq::<ModelWithPath>::empty());
    assert(flat_with_origin(ms.drop_last(), |x: Model| model_components_objects(x)) =~= Seq::<(Object, Option<Seq<char>>)>::empty());
    let filtered = model_components_objects(m);
    let cos = filtered.map_values(|o: Object| (o, None::<Seq<char>>));
    assert(crate::validator_rules::components_objects_for(m, None) =~= cos);
    let g = |owner: (Object, Option<Seq<char>>)|
        concat_map(components_list(owner.0), |c: Component| component_issue(os, owner, c));
    assert forall|a: int| 0 <= a < cos.len() implies g(#[trigger] cos[a]) == Seq::<IssueSpec>::empty() by {
        let owner = cos[a];
        assert(owner.0 == filtered[a]);
        assert(filtered.contains(owner.0));
        objs.lemma_filter_contains_rev(|o: Object| components_of(o) is Some, owner.0);
        let i = choose|i: int| 0 <= i < objs.len() && objs[i] == owner.0;
        let cl = components_list(owner.0);
        let h = |c: Component| component_issue(os, owner, c);
        assert forall|k: int| 0 <= k < cl.len() implies h(#[trigger] cl[k]) == Seq::<IssueSpec>::empty() by {
            let c = cl[k];
            assert(components_list(objs[i])[k] == c);
            assert(c.path is None);
            assert(components_of(objs[i]) is Some);
            assert(1 <= c.objectid <= i);
            let j = c.objectid - 1;
            assert(os[j] == (objs[j], None::<Seq<char>>));
            assert(objs[j].id == j + 1);
            assert(object_exists(os, None, c.objectid));
        }
        lemma_concat_map_empty(cl, h);
    }
    lemma_concat_map_empty(cos, g);
}

// ---------------------------------------------------------------------------------------
// Required extensions
// ---------------------------------------------------------------------------------------

/// No extension occurs twice.
pub open spec fn no_duplicates(s: Seq<ThreemfNamespace>) -> bool {
    forall|i: int, j: int| 0 <= i < j < s.len() ==> s[i] != s[j]
}

/// Adding an extension keeps what was there, adds it where asked, and adds no
/// duplicate.
proof fn lemma_with_extension(exts: Seq<ThreemfNamespace>, e: ThreemfNamespace, cond: bool)
    ensures
        with_extension(exts, e, cond).take(exts.len() as int) == exts,
        cond ==> with_extension(exts, e, cond).contains(e),
        forall|x: ThreemfNamespace| #[trigger] with_extension(exts, e, cond).contains(x) <==> (exts.contains(x) || (cond && x == e)),
        no_duplicates(exts) ==> no_duplicates(with_extension(exts, e, cond)),
{
    let r = with_extension(exts, e, cond);
    if cond && !exts.contains(e) {
        assert(r.take(exts.len() as int) =~= exts);
        assert(r[exts.len() as int] == e);
        assert forall|x: ThreemfNamespace| #[trigger] r.contains(x) <==> (exts.contains(x) || (cond && x == e)) by {
            if r.contains(x) {
                let k = choose|k: int| 0 <= k < r.len() && r[k] == x;
                if k < exts.len() {
                    assert(exts[k] == x);
                }
            }
            if exts.contains(x) {
                let k = choose|k: int| 0 <= k < exts.len() && exts[k] == x;
                assert(r[k] == x);
            }
        }
    } else {
        assert(r.take(exts.len() as int) =~= exts);
        if cond {
            assert(exts.contains(e));
        }
    }
}

/// The required extensions of a built model begin with those declared, hold each
/// extension that the model uses, add nothing else, and add no duplicate.
#[verifier::spinoff_prover]
#[verifier::rlimit(50)]
pub proof fn required_extensions_cover_what_is_used(declared: Seq<ThreemfNamespace>, production: bool, r: Resources)
    ensures
        required_extensions(declared, production, r).take(declared.len() as int) == declared,
        production ==> required_extensions(declared, production, r).contains(ThreemfNamespace::Prod),
        last_lattice(r.object@) is Some ==> required_extensions(declared, production, r).contains(ThreemfNamespace::BeamLattice),
        balls_used(r.object@) ==> required_extensions(declared, production, r).contains(
            ThreemfNamespace::BeamLatticeBalls,
        ),
        has_boolean_shape(r.object@) ==> required_extensions(declared, production, r).contains(ThreemfNamespace::Boolean),
        slice_required(r) ==> required_extensions(declared, production, r).contains(ThreemfNamespace::Slice),
        material_required(r) ==> required_extensions(declared, production, r).contains(ThreemfNamespace::Material),
        displacement_required(r) ==> required_extensions(declared, production, r).contains(ThreemfNamespace::Displacement),
        forall|x: ThreemfNamespace| #[trigger] required_extensions(declared, production, r).contains(x) ==> {
            ||| declared.contains(x)
            ||| (x == ThreemfNamespace::Prod && production)
            ||| (x == ThreemfNamespace::BeamLattice && last_lattice(r.object@) is Some)
            ||| (x == ThreemfNamespace::BeamLatticeBalls && balls_used(r.object@))
            ||| (x == ThreemfNamespace::Boolean && has_boolean_shape(r.object@))
            ||| (x == ThreemfNamespace::Slice && slice_required(r))
            ||| (x == ThreemfNamespace::Material && material_required(r))
            ||| (x == ThreemfNamespace::Displacement && displacement_required(r))
        },
        no_duplicates(declared) ==> no_duplicates(required_extensions(declared, production, r)),
{
    let lattice = last_lattice(r.object@);
    let balls = balls_used(r.object@);
    let e1 = with_extension(declared, ThreemfNamespace::Prod, production);
    let e2 = with_extension(e1, ThreemfNamespace::BeamLattice, lattice is Some);
    let e3 = with_extension(e2, ThreemfNamespace::BeamLatticeBalls, balls);
    let e4 = with_extension(e3, ThreemfNamespace::Boolean, has_boolean_shape(r.object@));
    let e5 = with_extension(e4, ThreemfNamespace::Slice, slice_required(r));
    let e6 = with_extension(e5, ThreemfNamespace::Material, material_required(r));
    let e7 = with_extension(e6, ThreemfNamespace::Displacement, displacement_required(r));
    lemma_with_extension(declared, ThreemfNamespace::Prod, production);
    lemma_with_extension(e1, ThreemfNamespace::BeamLattice, lattice is Some);
    lemma_with_extension(e2, ThreemfNamespace::BeamLatticeBalls, balls);
    lemma_with_extension(e3, ThreemfNamespace::Boolean, has_boolean_shape(r.object@));
    lemma_with_extension(e4, ThreemfNamespace::Slice, slice_required(r));
    lemma_with_extension(e5, ThreemfNamespace::Material, material_required(r));
    lemma_with_extension(e6, ThreemfNamespace::Displacement, displacement_required(r));
    assert(required_extensions(declared, production, r) == e7);
    assert(e7.take(declared.len() as int) =~= declared) by {
        assert(e2.take(e1.len() as int) == e1);
        assert(e1.len() >= declared.len());
        assert(e2.len() >= e1.len());
        assert(e3.len() >= e2.len());
        assert(e4.len() >= e3.len());
        assert(e5.len() >= e4.len());
        assert(e6.len() >= e5.len());
        assert(e7.len() >= e6.len());
        assert forall|k: int| 0 <= k < declared.len() implies e7[k] == declared[k] by {
            assert(e7.take(e6.len() as int)[k] == e6[k]);
            assert(e6.take(e5.len() as int)[k] == e5[k]);
            assert(e5.take(e4.len() as int)[k] == e4[k]);
            assert(e4.take(e3.len() as int)[k] == e3[k]);
            assert(e3.take(e2.len() as int)[k] == e2[k]);
            assert(e2.take(e1.len() as int)[k] == e1[k]);
            assert(e1.take(declared.len() as int)[k] == declared[k]);
        }
    }
}

// ---------------------------------------------------------------------------------------
// Image formats and part paths
// ---------------------------------------------------------------------------------------

/// Reading back the extension that names a format gives the format again, for every
/// format whose unknown extension is not itself the name of a known format.
pub proof fn image_format_name_round_trip(f: ImageFormatSpec)
    requires
        f matches ImageFormatSpec::Unknown(e) ==> format_of_ext(e) == ImageFormatSpec::Unknown(e),
    ensures
        format_of_ext(format_name(f)) == f,
{
    reveal_strlit("png");
    reveal_strlit("jpeg");
    reveal_strlit("jpg");
    match f {
        ImageFormatSpec::Png => {
            assert(ascii_lower("png"@) =~= "png"@);
        },
        ImageFormatSpec::Jpeg => {
            assert(ascii_lower("jpeg"@) =~= "jpeg"@);
            assert(ascii_lower("jpeg"@) != "png"@);
        },
        ImageFormatSpec::Unknown(e) => {},
    }
}

/// The part path under which a relationship part is kept gives back its name in the
/// archive once the leading `/` is stripped, as the package does when it reads it.
pub proof fn relationship_part_path_strips_back(name: Seq<char>, rels_ext: Seq<char>, root: Seq<char>)
    ensures
        relationship_part_path(name, rels_ext, root) matches Some(p) ==> strip_leading_slash(p) == name,
{
    if let Some(p) = relationship_part_path(name, rels_ext, root) {
        assert(p == seq!['/'] + name);
        assert(p.drop_first() =~= name);
    }
}

// ---------------------------------------------------------------------------------------
// Namespaces a model uses
// ---------------------------------------------------------------------------------------

/// No URI occurs twice.
pub open spec fn distinct_uris(ns: Seq<ThreemfNamespace>) -> bool {
    forall|i: int, j: int| 0 <= i < j < ns.len() ==> namespace_uri(ns[i]) != namespace_uri(ns[j])
}

/// Adding a namespace keeps what was there, adds its URI where asked, and repeats no
/// URI.
proof fn lemma_with_namespace(ns: Seq<ThreemfNamespace>, e: ThreemfNamespace, cond: bool)
    ensures
        with_namespace(ns, e, cond).take(ns.len() as int) == ns,
        ns.len() <= with_namespace(ns, e, cond).len(),
        cond ==> uris_of(with_namespace(ns, e, cond)).contains(namespace_uri(e)),
        forall|u: Seq<char>| #[trigger] uris_of(ns).contains(u) ==> uris_of(with_namespace(ns, e, cond)).contains(u),
        distinct_uris(ns) ==> distinct_uris(with_namespace(ns, e, cond)),
{
    let r = with_namespace(ns, e, cond);
    assert(r.take(ns.len() as int) =~= ns);
    assert forall|u: Seq<char>| #[trigger] uris_of(ns).contains(u) implies uris_of(r).contains(u) by {
        let k = choose|k: int| 0 <= k < uris_of(ns).len() && uris_of(ns)[k] == u;
        assert(uris_of(r)[k] == namespace_uri(r[k]));
        assert(r[k] == ns[k]);
    }
    if cond && !uris_of(ns).contains(namespace_uri(e)) {
        assert(uris_of(r)[ns.len() as int] == namespace_uri(e));
        if distinct_uris(ns) {
            assert forall|i: int, j: int| 0 <= i < j < r.len() implies namespace_uri(r[i]) != namespace_uri(r[j]) by {
                if j == ns.len() {
                    assert(uris_of(ns)[i] == namespace_uri(ns[i]));
                    assert(r[i] == ns[i]);
                } else {
                    assert(r[i] == ns[i] && r[j] == ns[j]);
                }
            }
        }
    } else if cond {
    }
}

/// Adding a list of namespaces keeps what was there, adds the URI of each, and
/// repeats no URI.
proof fn lemma_with_namespaces(ns: Seq<ThreemfNamespace>, more: Seq<ThreemfNamespace>)
    ensures
        with_namespaces(ns, more).take(ns.len() as int) == ns,
        ns.len() <= with_namespaces(ns, more).len(),
        forall|i: int| 0 <= i < more.len() ==> uris_of(with_namespaces(ns, more)).contains(namespace_uri(#[trigger] more[i])),
        forall|u: Seq<char>| #[trigger] uris_of(ns).contains(u) ==> uris_of(with_namespaces(ns, more)).contains(u),
        distinct_uris(ns) ==> distinct_uris(with_namespaces(ns, more)),
    decreases more.len(),
{
    if more.len() > 0 {
        let prev = with_namespaces(ns, more.drop_last());
        lemma_with_namespaces(ns, more.drop_last());
        lemma_with_namespace(prev, more.last(), true);
        let r = with_namespaces(ns, more);
        assert(r.take(ns.len() as int) =~= prev.take(ns.len() as int)) by {
            assert(r.take(prev.len() as int) == prev);
        }
        assert forall|i: int| 0 <= i < more.len() implies uris_of(r).contains(namespace_uri(#[trigger] more[i])) by {
            if i < more.len() - 1 {
                assert(more.drop_last()[i] == more[i]);
                assert(uris_of(prev).contains(namespace_uri(more.drop_last()[i])));
            }
        }
    }
}

/// The namespaces that a model uses begin with the core namespace, hold the URI of
/// every extension that the model declares as required or recommended and the
/// production namespace where the model has production attributes, and list each URI
/// once.
pub proof fn used_namespaces_declare_the_extensions(m: Model)
    ensures
        model_used_namespaces(m).len() > 0,
        model_used_namespaces(m)[0] == ThreemfNamespace::Core,
        forall|i: int|
            0 <= i < m.requiredextensions@.len() ==> uris_of(model_used_namespaces(m)).contains(
                namespace_uri(#[trigger] m.requiredextensions@[i]),
            ),
        forall|i: int|
            0 <= i < m.recommendedextensions@.len() ==> uris_of(model_used_namespaces(m)).contains(
                namespace_uri(#[trigger] m.recommendedextensions@[i]),
            ),
        production_used(m) ==> uris_of(model_used_namespaces(m)).contains(namespace_uri(ThreemfNamespace::Prod)),
        distinct_uris(model_used_namespaces(m)),
{
    let core = seq![ThreemfNamespace::Core];
    let d1 = with_namespaces(core, m.requiredextensions@);
    let d2 = with_namespaces(d1, m.recommendedextensions@);
    lemma_with_namespaces(core, m.requiredextensions@);
    lemma_with_namespaces(d1, m.recommendedextensions@);
    assert forall|i: int| 0 <= i < m.requiredextensions@.len() implies uris_of(d2).contains(
        namespace_uri(#[trigger] m.requiredextensions@[i]),
    ) by {
        assert(uris_of(d1).contains(namespace_uri(m.requiredextensions@[i])));
    }
    let objs = m.resources.object@;
    let e1 = with_namespace(d2, ThreemfNamespace::Prod, production_used(m));
    let e2 = with_namespace(e1, ThreemfNamespace::BeamLattice, last_lattice(objs) is Some);
    let e3 = with_namespace(e2, ThreemfNamespace::BeamLatticeBalls, balls_used(objs));
    let e4 = with_namespace(e3, ThreemfNamespace::Boolean, has_boolean_shape(objs));
    let e5 = with_namespace(e4, ThreemfNamespace::Slice, slice_required(m.resources));
    let e6 = with_namespace(e5, ThreemfNamespace::Material, material_required(m.resources));
    let e7 = with_namespace(e6, ThreemfNamespace::Displacement, displacement_required(m.resources));
    let e8 = with_namespace(e7, ThreemfNamespace::CoreTriangleSet, crate::used_namespaces::triangle_sets_used(objs));
    lemma_with_namespace(d2, ThreemfNamespace::Prod, production_used(m));
    lemma_with_namespace(e1, ThreemfNamespace::BeamLattice, last_lattice(objs) is Some);
    lemma_with_namespace(e2, ThreemfNamespace::BeamLatticeBalls, balls_used(objs));
    lemma_with_namespace(e3, ThreemfNamespace::Boolean, has_boolean_shape(objs));
    lemma_with_namespace(e4, ThreemfNamespace::Slice, slice_required(m.resources));
    lemma_with_namespace(e5, ThreemfNamespace::Material, material_required(m.resources));
    lemma_with_namespace(e6, ThreemfNamespace::Displacement, displacement_required(m.resources));
    lemma_with_namespace(e7, ThreemfNamespace::CoreTriangleSet, crate::used_namespaces::triangle_sets_used(objs));
    assert(e8 == model_used_namespaces(m));
    // the core namespace stays first
    assert(d1.take(1)[0] == d1[0]);
    assert(d2.take(d1.len() as int)[0] == d2[0]);
    assert(e1.take(d2.len() as int)[0] == e1[0]);
    assert(e2.take(e1.len() as int)[0] == e2[0]);
    assert(e3.take(e2.len() as int)[0] == e3[0]);
    assert(e4.take(e3.len() as int)[0] == e4[0]);
    assert(e5.take(e4.len() as int)[0] == e5[0]);
    assert(e6.take(e5.len() as int)[0] == e6[0]);
    assert(e7.take(e6.len() as int)[0] == e7[0]);
    assert(e8.take(e7.len() as int)[0] == e8[0]);
    assert(distinct_uris(core));
}

// ---------------------------------------------------------------------------------------
// Part maps
// ---------------------------------------------------------------------------------------

/// A part map read after a path was written (as `PartMap::insert` leaves it) gives back
/// the value written under that path, and under every other path what it held before.
pub proof fn part_map_reads_back_writes<V>(before: PartMap<V>, after: PartMap<V>, key: Seq<char>, value: V)
    requires
        after@ == before@.insert(key, value),
    ensures
        after@.contains_key(key),
        after@[key] == value,
        forall|k: Seq<char>|
            k != key ==> (#[trigger] after@.contains_key(k) == before@.contains_key(k)) && (before@.contains_key(k)
                ==> after@[k] == before@[k]),
{
}

// ---------------------------------------------------------------------------------------
// Writing a package
// ---------------------------------------------------------------------------------------

/// The package holds the content of a file from `src`.
pub open spec fn source_held(pkg: ThreemfPackage, src: PartSourceSpec) -> bool {
    match src {
        PartSourceSpec::ContentTypes => true,
        PartSourceSpec::RootModel => true,
        PartSourceSpec::Relationships(p) => pkg.relationships@.contains_key(p),
        PartSourceSpec::SubModel(p) => pkg.sub_models@.contains_key(p),
        PartSourceSpec::Thumbnail(p) => pkg.thumbnails@.contains_key(p),
        PartSourceSpec::UnknownPart(p) => pkg.unknown_parts@.contains_key(p),
    }
}

/// The files written for the relationships `rels` come from parts that the package
/// holds.
proof fn lemma_relationship_writes_held(pkg: ThreemfPackage, path: Seq<char>, rels: Seq<Relationship>)
    requires
        relationship_writes(pkg, path, rels) is Ok,
    ensures
        forall|k: int|
            0 <= k < relationship_writes(pkg, path, rels)->Ok_0.len() ==> source_held(
                pkg,
                (#[trigger] relationship_writes(pkg, path, rels)->Ok_0[k]).1,
            ),
    decreases rels.len(),
{
    if rels.len() > 0 {
        lemma_relationship_writes_held(pkg, path, rels.drop_last());
    }
}

/// The files written for the relationship parts `es` come from parts that the package
/// holds, where the package holds each of those relationship parts.
proof fn lemma_package_writes_held(pkg: ThreemfPackage, es: Seq<(String, Relationships)>)
    requires
        package_writes(pkg, es) is Ok,
        forall|i: int| 0 <= i < es.len() ==> pkg.relationships@.contains_key((#[trigger] es[i]).0@),
    ensures
        forall|k: int|
            0 <= k < package_writes(pkg, es)->Ok_0.len() ==> source_held(pkg, (#[trigger] package_writes(pkg, es)->Ok_0[k]).1),
    decreases es.len(),
{
    if es.len() > 0 {
        let prev = es.drop_last();
        assert forall|i: int| 0 <= i < prev.len() implies pkg.relationships@.contains_key((#[trigger] prev[i]).0@) by {
            assert(prev[i] == es[i]);
        }
        lemma_package_writes_held(pkg, prev);
        let path = es.last().0@;
        lemma_relationship_writes_held(pkg, path, es.last().1.relationships@);
        let ws = package_writes(pkg, prev)->Ok_0;
        let rws = relationship_writes(pkg, path, es.last().1.relationships@)->Ok_0;
        let all = package_writes(pkg, es)->Ok_0;
        assert(all == ws.push((path, PartSourceSpec::Relationships(path))) + rws);
        assert(pkg.relationships@.contains_key(es[es.len() - 1].0@));
        assert forall|k: int| 0 <= k < all.len() implies source_held(pkg, (#[trigger] all[k]).1) by {
            if k < ws.len() {
                assert(all[k] == ws[k]);
            } else if k == ws.len() {
            } else {
                assert(all[k] == rws[k - ws.len() - 1]);
            }
        }
    }
}

/// Writing a package never reaches for a part it does not hold: where the list of
/// files to write is made, each file's content comes from the package's content types,
/// its root model, or a relationship part, sub-model, thumbnail or unknown part that the
/// package holds under the path named.
pub proof fn written_parts_are_held(pkg: ThreemfPackage)
    requires
        package_writes(pkg, pkg.relationships.entries_spec()) is Ok,
    ensures
        forall|k: int|
            0 <= k < package_writes(pkg, pkg.relationships.entries_spec())->Ok_0.len() ==> source_held(
                pkg,
                (#[trigger] package_writes(pkg, pkg.relationships.entries_spec())->Ok_0[k]).1,
            ),
{
    let es = pkg.relationships.entries_spec();
    pkg.relationships.lemma_view_is_entries_map();
    assert forall|i: int| 0 <= i < es.len() implies pkg.relationships@.contains_key((#[trigger] es[i]).0@) by {
        lemma_entries_map_dom(es, es[i].0@);
    }
    lemma_package_writes_held(pkg, es);
}

// ---------------------------------------------------------------------------------------
// Filtering namespace declarations
// ---------------------------------------------------------------------------------------

/// The start tag `tag` is a `model` start tag that ends at its only `>` and closes
/// every `"` it opens.
pub open spec fn well_formed_model_tag(tag: Seq<char>) -> bool {
    &&& tag.len() >= 7
    &&& starts_with(tag, "<model"@)
    &&& tag.last() == '>'
    &&& !tag.drop_last().contains('>')
    &&& quotes_closed(tag.drop_last())
}

/// The attributes of a start tag that ends at its only `>`, with every `"` closed
/// before it, are clean.
proof fn lemma_tag_words_clean(tag: Seq<char>)
    requires
        tag.len() > 0,
        tag.last() == '>',
        !tag.drop_last().contains('>'),
        quotes_closed(tag.drop_last()),
    ensures
        forall|k: int| 0 <= k < attribute_tokens(tag).len() ==> clean_word(#[trigger] attribute_tokens(tag)[k]),
{
    assert forall|i: int| 0 <= i < tag.len() && tag[i] == '>' implies !scan(#[trigger] tag.take(i)).in_quotes by {
        if i < tag.len() - 1 {
            assert(tag.drop_last()[i] == tag[i]);
            assert(tag.drop_last().contains('>'));
        }
        assert(tag.take(i) =~= tag.drop_last());
    }
    lemma_scan_words_clean(tag);
}

/// Rewriting a `model` start tag to keep the namespaces with URIs `uris` leaves it
/// declaring exactly those of its declarations whose URI is kept, in their order: read
/// back, the rewritten tag's declarations are those of `tag` filtered by `uris`.
pub proof fn rewritten_model_tag_declares_the_kept_namespaces(tag: Seq<char>, uris: Seq<Seq<char>>)
    requires
        well_formed_model_tag(tag),
    ensures
        xmlns_decls(attribute_tokens(rewritten_model_tag(tag, uris))) == xmlns_decls(attribute_tokens(tag)).filter(
            |d: (Option<Seq<char>>, Seq<char>)| uris.contains(d.1),
        ),
        well_formed_model_tag(rewritten_model_tag(tag, uris)),
{
    reveal_strlit("<model");
    reveal_strlit(">");
    reveal_strlit("xmlns");
    let pred = |d: (Option<Seq<char>>, Seq<char>)| uris.contains(d.1);
    let model = "<model"@;
    // the declarations of the given tag
    let ts = attribute_tokens(tag);
    lemma_tag_words_clean(tag);
    let ds = xmlns_decls(ts);
    lemma_decls_of_clean_words(ts);
    // the attributes after the element name
    let inner = tag.subrange(6, tag.len() as int);
    assert(tag.subrange(0, 6) =~= model);
    assert(inner.last() == '>');
    assert(!inner.drop_last().contains('>')) by {
        if inner.drop_last().contains('>') {
            let j = choose|j: int| 0 <= j < inner.drop_last().len() && inner.drop_last()[j] == '>';
            assert(tag.drop_last()[j + 6] == '>');
        }
    }
    assert(quotes_closed(inner.drop_last())) by {
        assert(tag.drop_last() =~= model + inner.drop_last());
        lemma_scan_is_scan_from(tag.drop_last());
        lemma_scan_is_scan_from(inner.drop_last());
        lemma_scan_is_scan_from(model);
        lemma_scan_model_name();
        lemma_scan_from_concat(fresh(Seq::empty()), model, inner.drop_last());
        lemma_scan_from_quotes(scan(model), fresh(Seq::empty()), inner.drop_last());
    }
    lemma_tag_words_clean(inner);
    let pts = attribute_tokens(inner);
    let pw = plain_words(pts);
    lemma_plain_words_clean(pts);
    let kw = kept_decl_words(ds, uris);
    lemma_kept_words_clean(ds, uris);
    // the rewritten tag is the element name and the kept words, spaced
    let ws = kw + pw;
    assert forall|i: int| 0 <= i < ws.len() implies clean_word(#[trigger] ws[i]) by {
        if i < kw.len() {
            assert(ws[i] == kw[i]);
        } else {
            assert(ws[i] == pw[i - kw.len()]);
        }
    }
    lemma_kept_decls_text(ds, uris);
    lemma_plain_attrs_text(pts);
    lemma_spaced_concat(kw, pw);
    let t = rewritten_model_tag(tag, uris);
    assert(t =~= model + spaced(ws) + ">"@);
    // its attributes
    lemma_scan_model_name();
    lemma_scan_is_scan_from(model);
    lemma_scan_is_scan_from(t);
    lemma_scan_from_concat(fresh(Seq::empty()), model + spaced(ws), ">"@);
    lemma_scan_from_concat(fresh(Seq::empty()), model, spaced(ws));
    let st = scan_from(scan(model), spaced(ws));
    lemma_scan_spaced(Seq::empty(), model, ws);
    assert(">"@.drop_last() =~= Seq::<char>::empty());
    assert(scan_from(st, Seq::<char>::empty()) == st);
    let tokens = seq![model] + ws;
    assert(attribute_tokens(t) =~= tokens) by {
        if ws.len() > 0 {
            assert(Seq::<Seq<char>>::empty().push(model) + ws.drop_last() + seq![ws.last()] =~= tokens);
        }
    }
    // their declarations
    lemma_xmlns_decls_concat(seq![model], ws);
    lemma_xmlns_decls_concat(kw, pw);
    assert(!starts_with(model, "xmlns"@)) by {
        assert(model[0] != "xmlns"@[0]);
    }
    lemma_plain_word_declares_nothing(model);
    assert(seq![model].drop_last() =~= Seq::<Seq<char>>::empty());
    assert(seq![model].last() == model);
    assert(xmlns_decls(Seq::<Seq<char>>::empty()) =~= Seq::<(Option<Seq<char>>, Seq<char>)>::empty());
    assert(xmlns_decls(seq![model]) =~= Seq::<(Option<Seq<char>>, Seq<char>)>::empty());
    lemma_plain_words_declare_nothing(pts);
    lemma_kept_words_declare_kept(ds, uris);
    assert(xmlns_decls(tokens) =~= ds.filter(pred));
    // the rewritten tag ends at its only `>`, with its quotes closed
    assert forall|i: int| 0 <= i < ws.len() implies !(#[trigger] ws[i]).contains('>') by {
        lemma_clean_word_no_gt(ws[i]);
    }
    lemma_spaced_no_gt(ws);
    assert(t.drop_last() =~= model + spaced(ws));
    assert(!t.drop_last().contains('>')) by {
        if t.drop_last().contains('>') {
            let j = choose|j: int| 0 <= j < t.drop_last().len() && t.drop_last()[j] == '>';
            if j < 6 {
                assert(model[j] == t[j]);
            } else {
                assert(spaced(ws)[j - 6] == t[j]);
            }
        }
    }
    assert(t.subrange(0, 6) =~= model);
    assert(quotes_closed(t.drop_last())) by {
        lemma_scan_is_scan_from(t.drop_last());
        lemma_scan_from_concat(fresh(Seq::empty()), model, spaced(ws));
    }
}

/// The `model` start tag of `xml`, where it has one, closes every `"` it opens before
/// its `>`.
pub open spec fn model_tag_quotes_closed(xml: Seq<char>) -> bool {
    match model_start_tag(xml) {
        Some((p, e)) => quotes_closed(xml.subrange(p, e)),
        None => true,
    }
}

/// Filtering the namespace declarations of a model part keeps exactly those of a kept
/// namespace: the declarations read back from the filtered text are those read from the
/// unfiltered text whose URI is the URI of a namespace of `keep`, in their order.
pub proof fn filtered_model_declares_the_kept_namespaces(xml: Seq<char>, keep: Seq<ThreemfNamespace>)
    requires
        model_start_tag(xml) is Some,
        model_tag_quotes_closed(xml),
    ensures
        xmlns_decls(attribute_tokens(namespace_scope(filtered_model_xml(xml, keep)))) == xmlns_decls(
            attribute_tokens(namespace_scope(xml)),
        ).filter(|d: (Option<Seq<char>>, Seq<char>)| keep_uris(keep).contains(d.1)),
{
    reveal_strlit("<model");
    let model = "<model"@;
    let (p, e) = model_start_tag(xml)->Some_0;
    lemma_tag_end_after_name(xml, p, e);
    lemma_find_seq_found(xml, model, 0);
    lemma_find_seq_first(xml, model, 0);
    lemma_find_char_found(xml, '>', p);
    let tag = xml.subrange(p, e + 1);
    assert(tag.subrange(0, 6) =~= xml.subrange(p, p + 6));
    assert(tag.drop_last() =~= xml.subrange(p, e));
    assert(!tag.drop_last().contains('>')) by {
        if tag.drop_last().contains('>') {
            let j = choose|j: int| 0 <= j < tag.drop_last().len() && tag.drop_last()[j] == '>';
            assert(xml[p + j] == '>');
        }
    }
    assert(well_formed_model_tag(tag));
    let uris = keep_uris(keep);
    rewritten_model_tag_declares_the_kept_namespaces(tag, uris);
    let t = rewritten_model_tag(tag, uris);
    let f = filtered_model_xml(xml, keep);
    let a = xml.subrange(0, p);
    let b = xml.subrange(e + 1, xml.len() as int);
    assert(f == a + t + b);
    let end = p + t.len() - 1;
    // the first `<model` of the filtered text is where it was
    assert(f.subrange(p, p + 6) =~= t.subrange(0, 6));
    assert forall|q: int| 0 <= q < p implies !#[trigger] occurs_at(f, model, q) by {
        assert(!occurs_at(xml, model, q));
        assert(f.subrange(q, q + 6) =~= xml.subrange(q, q + 6)) by {
            assert forall|j: int| q <= j < q + 6 implies f[j] == xml[j] by {
                if j < p {
                    assert(f[j] == a[j]);
                } else {
                    assert(f[j] == t[j - p]);
                    assert(t[j - p] == t.subrange(0, 6)[j - p]);
                    assert(xml[j] == xml.subrange(p, p + 6)[j - p]);
                }
            }
        }
    }
    lemma_find_seq_at(f, model, 0, p);
    // and its tag ends at the rewritten tag's `>`
    assert forall|j: int| p <= j < end implies f[j] != '>' by {
        assert(f[j] == t[j - p]);
        assert(t.drop_last()[j - p] == t[j - p]);
    }
    assert(f[end] == t.last());
    lemma_find_char_at(f, '>', p, end);
    assert(model_start_tag(f) == Some((p, end)));
    assert(namespace_scope(f) =~= t);
}

/// The words of `s` between its spaces, as splitting the text at each space gives them:
/// an empty text is one empty word, and two spaces in a row enclose an empty word.
pub open spec fn space_separated_words(s: Seq<char>) -> Seq<Seq<char>>
    decreases s.len(),
{
    if s.len() == 0 {
        seq![Seq::<char>::empty()]
    } else {
        let w = space_separated_words(s.drop_last());
        if s.last() == ' ' {
            w.push(Seq::<char>::empty())
        } else {
            w.update(w.len() - 1, w.last().push(s.last()))
        }
    }
}

proof fn lemma_words_not_empty(s: Seq<char>)
    ensures
        space_separated_words(s).len() >= 1,
    decreases s.len(),
{
    if s.len() > 0 {
        lemma_words_not_empty(s.drop_last());
    }
}

/// Text without spaces added at the end of `a` extends its last word.
proof fn lemma_words_extend_last(a: Seq<char>, w: Seq<char>)
    requires
        forall|i: int| 0 <= i < w.len() ==> w[i] != ' ',
    ensures
        space_separated_words(a + w) == space_separated_words(a).update(
            space_separated_words(a).len() - 1,
            space_separated_words(a).last() + w,
        ),
    decreases w.len(),
{
    lemma_words_not_empty(a);
    let wa = space_separated_words(a);
    if w.len() == 0 {
        assert(a + w =~= a);
        assert(wa.last() + w =~= wa.last());
        assert(wa.update(wa.len() - 1, wa.last()) =~= wa);
    } else {
        let w0 = w.drop_last();
        lemma_words_extend_last(a, w0);
        assert((a + w).drop_last() =~= a + w0);
        assert((a + w).last() == w.last());
        assert(wa.last() + w0 + seq![w.last()] =~= wa.last() + w);
        assert((wa.last() + w0).push(w.last()) =~= wa.last() + w);
        assert(space_separated_words(a + w) =~= wa.update(wa.len() - 1, wa.last() + w));
    }
}

proof fn lemma_word_has_no_space(m: BlendMethod)
    ensures
        forall|i: int| 0 <= i < blend_method_word(m).len() ==> blend_method_word(m)[i] != ' ',
        blend_method_from_name(blend_method_word(m)) == m,
{
    reveal_strlit("mix");
    reveal_strlit("multiply");
    assert(ascii_lower("mix"@) =~= "mix"@);
    assert(ascii_lower("multiply"@) =~= "multiply"@);
}

proof fn lemma_blend_words(ms: Seq<BlendMethod>)
    requires
        ms.len() >= 1,
    ensures
        space_separated_words(blend_methods_text(ms)) == ms.map_values(|m: BlendMethod| blend_method_word(m)),
    decreases ms.len(),
{
    let empty = Seq::<char>::empty();
    if ms.len() == 1 {
        lemma_word_has_no_space(ms[0]);
        lemma_words_extend_last(empty, blend_method_word(ms[0]));
        assert(empty + blend_method_word(ms[0]) =~= blend_method_word(ms[0]));
        assert(space_separated_words(empty) == seq![empty]);
        assert(space_separated_words(blend_methods_text(ms)) =~= ms.map_values(|m: BlendMethod| blend_method_word(m)));
    } else {
        let front = blend_methods_text(ms.drop_last());
        let w = blend_method_word(ms.last());
        lemma_blend_words(ms.drop_last());
        reveal_strlit(" ");
        let spaced = front + " "@;
        assert(spaced.drop_last() =~= front);
        assert(spaced.last() == ' ');
        assert(space_separated_words(spaced) == space_separated_words(front).push(empty));
        lemma_word_has_no_space(ms.last());
        lemma_words_extend_last(spaced, w);
        assert(empty + w =~= w);
        assert(blend_methods_text(ms) == spaced + w);
        assert(space_separated_words(blend_methods_text(ms)) =~= ms.map_values(|m: BlendMethod| blend_method_word(m)));
    }
}

/// The blend-methods text that `MultiPropertiesBuilder::blendmethods` stores for a
/// non-empty list of methods reads back, word by word, as those methods.
pub proof fn blend_methods_text_reads_back(ms: Seq<BlendMethod>)
    requires
        ms.len() > 0,
    ensures
        space_separated_words(blend_methods_text(ms)).map_values(|w: Seq<char>| blend_method_from_name(w)) == ms,
{
    lemma_blend_words(ms);
    assert forall|i: int| 0 <= i < ms.len() implies blend_method_from_name(
        ms.map_values(|m: BlendMethod| blend_method_word(m))[i],
    ) == ms[i] by {
        lemma_word_has_no_space(ms[i]);
    }
    assert(space_separated_words(blend_methods_text(ms)).map_values(|w: Seq<char>| blend_method_from_name(w)) =~= ms);
}

/// What one attempt to add an object did: `got` is the id it handed out, or `None`
/// where it failed.
pub open spec fn object_step(before: ModelBuilderState, after: ModelBuilderState, got: Option<u32>) -> bool {
    match got {
        None => after == before,
        Some(id) => {
            &&& id == before.next_object_id
            &&& after.next_object_id == id + 1
            &&& object_added(before, after, id)
        },
    }
}

/// The object id that an addition returned, if it succeeded.
pub open spec fn handed_out<E>(r: Result<ObjectId, E>) -> Option<u32> {
    match r {
        Ok(id) => Some(id.0),
        Err(_) => None,
    }
}

/// Adding an object of any kind either fails and leaves the builder as it was, so that
/// the next object added gets the id this one would have had, or hands out the next
/// object id and moves it on by one.
pub proof fn object_additions_hand_out_the_next_id(before: ModelBuilderState, after: ModelBuilderState)
    requires
        builder_wf(before),
        builder_wf(after),
    ensures
        forall|r: Result<ObjectId, MeshObjectError>, ran: Result<(), MeshObjectError>, b: MeshObjectBuilder|
            #[trigger] mesh_object_outcome(before, after, r, ran, b) ==> object_step(before, after, handed_out(r)),
        forall|
            r: Result<ObjectId, DisplacementMeshObjectError>,
            ran: Result<(), DisplacementMeshObjectError>,
            b: DisplacementMeshObjectBuilder,
        |
            #[trigger] displacement_mesh_object_outcome(before, after, r, ran, b) ==> object_step(
                before,
                after,
                handed_out(r),
            ),
        forall|r: Result<ObjectId, ComponentsObjectError>, ran: Result<(), ComponentsObjectError>, b: ComponentsObjectBuilder|
            #[trigger] components_object_outcome(before, after, r, ran, b) ==> object_step(before, after, handed_out(r)),
        forall|r: Result<ObjectId, BooleanShapeError>, ran: Result<(), BooleanShapeError>, b: BooleanObjectBuilder|
            #[trigger] boolean_object_outcome(before, after, r, ran, b) ==> object_step(before, after, handed_out(r)),
{
    assert(object_ids(before.resources.object@).len() == before.resources.object@.len());
    assert(object_ids(after.resources.object@).len() == after.resources.object@.len());
    assert forall|r: Result<ObjectId, MeshObjectError>, ran: Result<(), MeshObjectError>, b: MeshObjectBuilder|
        #[trigger] mesh_object_outcome(before, after, r, ran, b) implies object_step(before, after, handed_out(r)) by {
        if r is Ok {
            assert(after.resources.object@.take(before.resources.object@.len() as int) =~= before.resources.object@);
        }
    }
    assert forall|
        r: Result<ObjectId, DisplacementMeshObjectError>,
        ran: Result<(), DisplacementMeshObjectError>,
        b: DisplacementMeshObjectBuilder,
    | #[trigger] displacement_mesh_object_outcome(before, after, r, ran, b) implies object_step(before, after, handed_out(r)) by {
        if r is Ok {
            assert(after.resources.object@.take(before.resources.object@.len() as int) =~= before.resources.object@);
        }
    }
    assert forall|r: Result<ObjectId, BooleanShapeError>, ran: Result<(), BooleanShapeError>, b: BooleanObjectBuilder|
        #[trigger] boolean_object_outcome(before, after, r, ran, b) implies object_step(before, after, handed_out(r)) by {
        if r is Ok {
            assert(after.resources.object@.take(before.resources.object@.len() as int) =~= before.resources.object@);
        }
    }
}

/// Successful additions of objects hand out consecutive ids, whatever failed between
/// them, and failures alone change nothing.
pub proof fn object_ids_are_consecutive(
    s0: ModelBuilderState,
    s1: ModelBuilderState,
    s2: ModelBuilderState,
    g1: Option<u32>,
    g2: Option<u32>,
)
    requires
        object_step(s0, s1, g1),
        object_step(s1, s2, g2),
    ensures
        g2 matches Some(i) ==> i == s0.next_object_id + (if g1 is Some { 1int } else { 0int }),
        g1 is None && g2 is None ==> s2 == s0,
{
}

/// Adding a mesh object whose closure fails returns the closure's error, and one that
/// needs a UUID that the closure did not set returns `ObjectUuidNotSet`; a failed
/// addition leaves the builder as it was, so the next object added gets the id this one
/// would have had, and a successful one returns the next object id.
pub proof fn failed_mesh_object_additions_change_nothing(
    before: ModelBuilderState,
    after: ModelBuilderState,
    r: Result<ObjectId, MeshObjectError>,
    ran: Result<(), MeshObjectError>,
    b: MeshObjectBuilder,
)
    requires
        mesh_object_outcome(before, after, r, ran, b),
    ensures
        ran matches Err(e) ==> r == Err::<ObjectId, MeshObjectError>(e),
        ran is Ok && b.production_required() && b.object_spec().uuid is None ==> r == Err::<ObjectId, MeshObjectError>(
            MeshObjectError::ObjectUuidNotSet,
        ),
        r is Err ==> after == before && after.next_object_id == before.next_object_id,
        r matches Ok(id) ==> id.0 == before.next_object_id,
{
}

/// Each beam that `LatticeView::beams` reports keeps its two vertices, and each end gets
/// its own radius and cap: the one the beam sets for that end, else the lattice radius
/// and the lattice cap (a sphere where the lattice sets none).
pub proof fn lattice_beams_apply_defaults_per_end(l: BeamLattice, r: Seq<BeamView>)
    requires
        r.len() == l.beams.beam@.len(),
        forall|i: int| 0 <= i < r.len() ==> #[trigger] r[i] == beam_view_of(l, l.beams.beam@[i]),
    ensures
        forall|i: int| 0 <= i < r.len() ==> {
            let b = #[trigger] l.beams.beam@[i];
            &&& r[i].v1 == b.v1
            &&& r[i].v2 == b.v2
            &&& r[i].r1 == (if b.r1 is Some { b.r1->0 } else { l.radius })
            &&& r[i].r2 == (if b.r2 is Some { b.r2->0 } else { l.radius })
            &&& r[i].cap1 == (if b.cap1 is Some { b.cap1->0 } else if l.cap is Some { l.cap->0 } else { CapMode::Sphere })
            &&& r[i].cap2 == (if b.cap2 is Some { b.cap2->0 } else if l.cap is Some { l.cap->0 } else { CapMode::Sphere })
        },
{
    assert forall|i: int| 0 <= i < r.len() implies {
        let b = #[trigger] l.beams.beam@[i];
        &&& r[i].v1 == b.v1
        &&& r[i].v2 == b.v2
        &&& r[i].r1 == (if b.r1 is Some { b.r1->0 } else { l.radius })
        &&& r[i].r2 == (if b.r2 is Some { b.r2->0 } else { l.radius })
        &&& r[i].cap1 == (if b.cap1 is Some { b.cap1->0 } else if l.cap is Some { l.cap->0 } else { CapMode::Sphere })
        &&& r[i].cap2 == (if b.cap2 is Some { b.cap2->0 } else if l.cap is Some { l.cap->0 } else { CapMode::Sphere })
    } by {
        assert(r[i] == beam_view_of(l, l.beams.beam@[i]));
    }
}

/// Where `pid` names no color group but names a texture 2D group `g` that has an element
/// at `pindex`, the material property that `resolve_material_property` gives is the
/// texture coordinate of that element, `u` as `u` and `v` as `v`.
pub proof fn texture_coordinates_resolve_as_stored(
    pid: u32,
    pindex: u32,
    model: Model,
    g: Texture2DGroup,
    r: Option<MaterialPropertyValue>,
)
    requires
        match r {
            Some(v) => resolve_material_property_spec(
                OptionalResourceId { value: Some(pid) },
                OptionalResourceIndex { value: Some(pindex) },
                model,
            ) == Some(material_property_view(v)),
            None => resolve_material_property_spec(
                OptionalResourceId { value: Some(pid) },
                OptionalResourceIndex { value: Some(pindex) },
                model,
            ) is None,
        },
        find_by_id_spec(model.resources.colorgroup@, pid) is None,
        find_by_id_spec(model.resources.texture2dgroup@, pid) == Some(g),
        pindex < g.tex2coord@.len(),
    ensures
        r == Some(
            MaterialPropertyValue::TextureCoord {
                u: g.tex2coord@[pindex as int].u,
                v: g.tex2coord@[pindex as int].v,
            },
        ),
{
    let v = r->0;
    match v {
        MaterialPropertyValue::TextureCoord { u, v } => {},
        _ => {},
    }
}

/// Every object error is either a missing UUID or a component without one, once the
/// objects have UUIDs: the first error among objects that have their UUIDs, where the
/// object at `m` has a component without a UUID, is that a component has no UUID.
proof fn lemma_first_error_is_component(objs: Seq<Object>, m: int)
    requires
        0 <= m < objs.len(),
        forall|j: int| 0 <= j <= m ==> (#[trigger] objs[j]).uuid is Some,
        object_production_error(objs[m]) == Some(ProductionExtensionError::ComponentUuidNotSet),
    ensures
        first_object_production_error(objs) == Some(ProductionExtensionError::ComponentUuidNotSet),
    decreases m,
{
    if object_production_error(objs[0]) is None {
        let t = objs.drop_first();
        assert forall|j: int| 0 <= j <= m - 1 implies (#[trigger] t[j]).uuid is Some by {
            assert(t[j] == objs[j + 1]);
        }
        assert(t[m - 1] == objs[m]);
        lemma_first_error_is_component(t, m - 1);
    }
}

/// Requiring the production extension fails with `ComponentUuidNotSet`, and leaves the
/// builder as it was, where a components object has a component without a UUID and it
/// and every object added before it have their own UUIDs, unless the build, which is
/// checked after the first object, lacks a UUID first.
pub proof fn component_without_uuid_blocks_production(
    before: ModelBuilderState,
    after: ModelBuilderState,
    r: Result<(), ProductionExtensionError>,
    k: int,
    c: int,
)
    requires
        match production_error(before.resources.object@, before.build) {
            Some(e) => r == Err::<(), ProductionExtensionError>(e) && after == before,
            None => r is Ok && after == (ModelBuilderState { is_production_ext_required: true, ..before }),
        },
        0 <= k < before.resources.object@.len(),
        forall|j: int| 0 <= j <= k ==> (#[trigger] before.resources.object@[j]).uuid is Some,
        components_of(before.resources.object@[k]) is Some,
        0 <= c < components_of(before.resources.object@[k])->0.component@.len(),
        components_of(before.resources.object@[k])->0.component@[c].uuid is None,
        k == 0 || build_production_error(before.build) is None,
    ensures
        r == Err::<(), ProductionExtensionError>(ProductionExtensionError::ComponentUuidNotSet),
        after == before,
{
    let objs = before.resources.object@;
    let cs = components_of(objs[k])->0;
    assert(cs.component@[c].uuid is None);
    assert(object_production_error(objs[k]) == Some(ProductionExtensionError::ComponentUuidNotSet));
    if object_production_error(objs[0]) is None {
        assert(k > 0);
        let t = objs.drop_first();
        assert forall|j: int| 0 <= j <= k - 1 implies (#[trigger] t[j]).uuid is Some by {
            assert(t[j] == objs[j + 1]);
        }
        assert(t[k - 1] == objs[k]);
        lemma_first_error_is_component(t, k - 1);
    }
}

/// A triangle set with no ranges lists exactly its single references, in order.
pub proof fn triangle_set_without_ranges_lists_its_references(set: TriangleSet)
    requires
        set.triangle_refrange@.len() == 0,
    ensures
        triangle_set_indices(set).len() == set.triangle_ref@.len(),
        forall|j: int| 0 <= j < set.triangle_ref@.len() ==> triangle_set_indices(set)[j] == (
        #[trigger] set.triangle_ref@[j]).index,
{
}

/// Adding a range from `s` to `e` at the end of a triangle set's ranges keeps the indices
/// it listed and adds `s`, `s + 1`, ..., `e` after them, `e` included; a range that ends
/// before it starts adds nothing.
pub proof fn triangle_set_ranges_include_their_end(a: TriangleSet, b: TriangleSet)
    requires
        b.triangle_ref@ == a.triangle_ref@,
        b.triangle_refrange@.len() == a.triangle_refrange@.len() + 1,
        b.triangle_refrange@.drop_last() == a.triangle_refrange@,
    ensures
        ({
            let s = b.triangle_refrange@.last().startindex;
            let e = b.triangle_refrange@.last().endindex;
            let before = triangle_set_indices(a);
            let after = triangle_set_indices(b);
            &&& after.len() == before.len() + (if s <= e { e - s + 1 } else { 0 })
            &&& after.take(before.len() as int) == before
            &&& forall|j: int| 0 <= j && s + j <= e ==> #[trigger] after[before.len() + j] == s + j
            &&& s <= e ==> after.last() == e
        }),
{
    let s = b.triangle_refrange@.last().startindex;
    let e = b.triangle_refrange@.last().endindex;
    let before = triangle_set_indices(a);
    let after = triangle_set_indices(b);
    assert(ranges_indices(b.triangle_refrange@) == ranges_indices(a.triangle_refrange@) + index_range(s, e));
    assert(after =~= before + index_range(s, e));
    assert(after.take(before.len() as int) =~= before);
}

/// The segments of a polygon form a chain: the first starts at the polygon's start
/// vertex, each other starts where the one before it ends, and each ends at its own
/// `v2`.
pub proof fn polygon_segments_chain(p: Polygon, r: Seq<Seq<u32>>)
    requires
        r.len() == p.segment@.len(),
        forall|i: int| 0 <= i < r.len() ==> #[trigger] r[i] == polygon_segment_pair(p, i),
    ensures
        forall|i: int| 0 <= i < r.len() ==> (#[trigger] r[i]).len() == 2 && r[i][1] == p.segment@[i].v2,
        r.len() > 0 ==> r[0][0] == p.startv,
        forall|i: int| 0 < i < r.len() ==> (#[trigger] r[i])[0] == r[i - 1][1],
{
    assert forall|i: int| 0 < i < r.len() implies (#[trigger] r[i])[0] == r[i - 1][1] by {
        assert(r[i] == polygon_segment_pair(p, i));
        assert(r[i - 1] == polygon_segment_pair(p, i - 1));
    }
}

/// Each ball that `LatticeView::balls` reports keeps its vertex and properties, and its
/// radius is its own where set, else the lattice ball radius, else 0.0.
pub proof fn lattice_balls_apply_the_ball_radius(l: BeamLattice, balls: Seq<Ball>, r: Seq<BallView>)
    requires
        r.len() == balls.len(),
        forall|i: int| 0 <= i < r.len() ==> #[trigger] r[i] == ball_view_of(l, balls[i]),
    ensures
        forall|i: int| 0 <= i < r.len() ==> {
            let b = #[trigger] balls[i];
            &&& r[i].vindex == b.vindex
            &&& r[i].pindex == b.p.value
            &&& r[i].pid == b.pid.value
            &&& r[i].radius == (if b.r is Some {
                b.r->0
            } else if l.ballradius is Some {
                l.ballradius->0
            } else {
                Double { bits: 0 }
            })
        },
{
    assert forall|i: int| 0 <= i < r.len() implies {
        let b = #[trigger] balls[i];
        &&& r[i].vindex == b.vindex
        &&& r[i].pindex == b.p.value
        &&& r[i].pid == b.pid.value
        &&& r[i].radius == (if b.r is Some {
            b.r->0
        } else if l.ballradius is Some {
            l.ballradius->0
        } else {
            Double { bits: 0 }
        })
    } by {
        assert(r[i] == ball_view_of(l, balls[i]));
    }
}

/// The material property that `resolve_material_property` gives for a group id and an
/// index: nothing without both; else the element at the index of the first group with
/// that id, color groups searched first, then texture 2D groups, composite materials,
/// multi-properties and base materials, each element read field for field; nothing where
/// that group has no such element or no group has the id.
pub proof fn material_properties_resolve_as_stored(
    pid: OptionalResourceId,
    pindex: OptionalResourceIndex,
    model: Model,
    r: Option<MaterialPropertyValue>,
)
    requires
        match r {
            Some(v) => resolve_material_property_spec(pid, pindex, model) == Some(material_property_view(v)),
            None => resolve_material_property_spec(pid, pindex, model) is None,
        },
    ensures
        pid.value is None || pindex.value is None ==> r is None,
        ({
            let rs = model.resources;
            let p = pid.value->0;
            let ix = pindex.value->0 as int;
            let color = find_by_id_spec(rs.colorgroup@, p);
            let tex = find_by_id_spec(rs.texture2dgroup@, p);
            let comp = find_by_id_spec(rs.compositematerials@, p);
            let multi = find_by_id_spec(rs.multiproperties@, p);
            let base = find_by_id_spec(rs.basematerials@, p);
            pid.value is Some && pindex.value is Some ==> {
                &&& color is Some ==> if ix < color->0.color@.len() {
                    r == Some(MaterialPropertyValue::Color(color->0.color@[ix].color))
                } else {
                    r is None
                }
                &&& color is None && tex is Some ==> if ix < tex->0.tex2coord@.len() {
                    r == Some(
                        MaterialPropertyValue::TextureCoord {
                            u: tex->0.tex2coord@[ix].u,
                            v: tex->0.tex2coord@[ix].v,
                        },
                    )
                } else {
                    r is None
                }
                &&& color is None && tex is None && comp is Some ==> if ix < comp->0.composite@.len() {
                    r matches Some(MaterialPropertyValue::Composite { values }) && values@
                        == comp->0.composite@[ix].values@
                } else {
                    r is None
                }
                &&& color is None && tex is None && comp is None && multi is Some ==> if ix
                    < multi->0.multi@.len() {
                    r matches Some(MaterialPropertyValue::Multi { indices }) && indices@
                        == multi->0.multi@[ix].pindices@
                } else {
                    r is None
                }
                &&& color is None && tex is None && comp is None && multi is None && base is Some ==> if ix
                    < base->0.base@.len() {
                    r matches Some(MaterialPropertyValue::Base { name, displaycolor }) && name@
                        == base->0.base@[ix].name@ && displaycolor@ == base->0.base@[ix].displaycolor@
                } else {
                    r is None
                }
                &&& color is None && tex is None && comp is None && multi is None && base is None ==> r is None
            }
        }),
{
    if r is Some {
        let v = r->0;
        match v {
            MaterialPropertyValue::Color(c) => {},
            MaterialPropertyValue::TextureCoord { u, v } => {},
            MaterialPropertyValue::Composite { values } => {},
            MaterialPropertyValue::Multi { indices } => {},
            MaterialPropertyValue::Base { name, displaycolor } => {},
        }
    }
}

} // verus!
