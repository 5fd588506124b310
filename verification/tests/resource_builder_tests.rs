use threemf2::builder::leaf_builders::{BeamSetBuilder, DisplacementTriangleBuilder};
use threemf2::builder::resource_builders::{
    ColorGroupBuilder, CompositeMaterialsBuilder, Disp2DGroupBuilder, MultiPropertiesBuilder,
    NormVectorGroupBuilder, PolygonBuilder, Texture2DGroupBuilder,
};
use threemf2::domain::beamlattice::{BallRef, BeamRef};
use threemf2::domain::displacement::{Disp2DCoord, NormVector};
use threemf2::domain::material::{ColorElement, Composite, Multi, Tex2Coord};
use threemf2::domain::slice::Segment;
use threemf2::types::{Color, Double, OptionalResourceId, OptionalResourceIndex};

fn d(x: f64) -> Double {
    Double::from_bits(x.to_bits())
}

#[test]
fn color_group_collects_colors_in_order() {
    let red = Color { r: 255, g: 0, b: 0, a: 255 };
    let blue = Color { r: 0, g: 0, b: 255, a: 128 };
    let mut b = ColorGroupBuilder::new(4);
    b.add_color(red).add_colors(&[blue, red]);
    let g = b.build();
    assert_eq!(g.id, 4);
    assert_eq!(
        g.color,
        vec![
            ColorElement { color: red },
            ColorElement { color: blue },
            ColorElement { color: red }
        ]
    );
}

#[test]
fn texture_group_collects_coordinates() {
    let mut b = Texture2DGroupBuilder::new(2);
    b.texid(7)
        .add_tex_coord(d(0.0), d(1.0))
        .add_tex_coords(&[(d(0.5), d(0.25)), (d(1.0), d(0.0))]);
    let g = b.build().unwrap();
    assert_eq!(g.id, 2);
    assert_eq!(g.texid, 7);
    assert_eq!(
        g.tex2coord,
        vec![
            Tex2Coord { u: d(0.0), v: d(1.0) },
            Tex2Coord { u: d(0.5), v: d(0.25) },
            Tex2Coord { u: d(1.0), v: d(0.0) }
        ]
    );
}

#[test]
fn composite_materials_collect_mixtures() {
    let mut b = CompositeMaterialsBuilder::new(3);
    b.matid(1)
        .matindices(&[0, 1])
        .add_composite(&[d(0.3), d(0.7)])
        .add_composites(&[vec![d(1.0), d(0.0)]]);
    let c = b.build().unwrap();
    assert_eq!(c.id, 3);
    assert_eq!(c.matid, 1);
    assert_eq!(c.matindices, vec![0, 1]);
    assert_eq!(
        c.composite,
        vec![
            Composite { values: vec![d(0.3), d(0.7)] },
            Composite { values: vec![d(1.0), d(0.0)] }
        ]
    );
}

#[test]
fn multi_properties_keep_pids_blend_methods_and_indices() {
    let mut b = MultiPropertiesBuilder::new(5);
    b.pids(&[1, 2]).blendmethods_raw("mix multiply").add_multi(&[0, 3]);
    let m = b.build().unwrap();
    assert_eq!(m.id, 5);
    assert_eq!(m.pids, vec![1, 2]);
    assert_eq!(m.blendmethods.as_deref(), Some("mix multiply"));
    assert_eq!(m.multi, vec![Multi { pindices: vec![0, 3] }]);
}

#[test]
fn norm_vectors_and_displacement_coordinates_are_kept_in_order() {
    let mut n = NormVectorGroupBuilder::new(1);
    n.add_norm_vector(d(0.0), d(0.0), d(1.0))
        .add_norm_vectors(&[[d(1.0), d(0.0), d(0.0)]]);
    let g = n.build();
    assert_eq!(
        g.normvector,
        vec![
            NormVector { x: d(0.0), y: d(0.0), z: d(1.0) },
            NormVector { x: d(1.0), y: d(0.0), z: d(0.0) }
        ]
    );

    let mut b = Disp2DGroupBuilder::new(2);
    b.displacement_map_id(1)
        .norm_vector_group_id(1)
        .height(d(0.5))
        .add_coord(d(0.0), d(0.0), 0, None)
        .add_coords(&[(d(1.0), d(1.0), 1, Some(d(2.0)))]);
    let g = b.build().unwrap();
    assert_eq!(g.dispid, 1);
    assert_eq!(g.nid, 1);
    assert_eq!(g.height, d(0.5));
    assert_eq!(g.offset, None);
    assert_eq!(
        g.disp2dcoord,
        vec![
            Disp2DCoord { u: d(0.0), v: d(0.0), n: 0, f: None },
            Disp2DCoord { u: d(1.0), v: d(1.0), n: 1, f: Some(d(2.0)) }
        ]
    );
}

#[test]
fn polygon_segments_carry_their_properties() {
    let mut b = PolygonBuilder::new();
    b.start_vertex(2).add_segment(3).add_segment_with_properties_and_pid(
        4,
        OptionalResourceIndex::new(1),
        OptionalResourceIndex::none(),
        OptionalResourceId::new(9),
    );
    let p = b.build();
    assert_eq!(p.startv, 2);
    assert_eq!(
        p.segment,
        vec![
            Segment {
                v2: 3,
                p1: OptionalResourceIndex::none(),
                p2: OptionalResourceIndex::none(),
                pid: OptionalResourceId::none()
            },
            Segment {
                v2: 4,
                p1: OptionalResourceIndex::new(1),
                p2: OptionalResourceIndex::none(),
                pid: OptionalResourceId::new(9)
            }
        ]
    );
}

#[test]
fn beam_sets_and_displacement_triangles_keep_what_they_are_given() {
    let mut s = BeamSetBuilder::new();
    s.name("top").add_beam_ref(2).add_ball_refs(&[0, 1]);
    let set = s.build();
    assert_eq!(set.name.as_deref(), Some("top"));
    assert_eq!(set.identifier, None);
    assert_eq!(set.refs, vec![BeamRef { index: 2 }]);
    assert_eq!(set.ballref, vec![BallRef { index: 0 }, BallRef { index: 1 }]);

    let t = DisplacementTriangleBuilder::new(0, 1, 2)
        .displacement_index_1(OptionalResourceIndex::new(3))
        .displacement_index_2(OptionalResourceIndex::new(4))
        .displacement_index_3(OptionalResourceIndex::none())
        .build();
    assert_eq!((t.v1, t.v2, t.v3), (0, 1, 2));
    assert_eq!(t.d1, OptionalResourceIndex::new(3));
    assert_eq!(t.d2, OptionalResourceIndex::new(4));
    assert_eq!(t.d3, OptionalResourceIndex::none());
}
