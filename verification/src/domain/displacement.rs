//! The displacement extension: displacement maps, normal vectors and displacement meshes.

use vstd::prelude::*;
use vstd::string::*;

use crate::domain::beamlattice::BeamLattice;
use crate::domain::triangle_set::TriangleSets;
use crate::text::{ascii_lower, ascii_lower_eq, str_eq};
use crate::types::{Double, OptionalResourceId, OptionalResourceIndex, ResourceId, ResourceIndex};

verus! {

/// A displacement map image.
#[derive(Debug, Clone, PartialEq, Eq)]
pub struct Displacement2D {
    pub id: ResourceId,
    pub path: String,
    pub channel: Option<ChannelName>,
    pub tilestyleu: Option<TileStyle>,
    pub tilestylev: Option<TileStyle>,
    pub filter: Option<Filter>,
}

/// The color channel of a displacement map that holds the displacement.
#[derive(Debug, Clone, Copy, PartialEq, Eq, Structural)]
pub enum ChannelName {
    R,
    G,
    B,
    A,
}

/// The channel named exactly `s`; any other name gives `G`.
pub open spec fn channel_name_from_name(s: Seq<char>) -> ChannelName {
    if s == "R"@ {
        ChannelName::R
    } else if s == "G"@ {
        ChannelName::G
    } else if s == "B"@ {
        ChannelName::B
    } else if s == "A"@ {
        ChannelName::A
    } else {
        ChannelName::G
    }
}

impl ChannelName {
    /// The channel named exactly `value` ("R", "G", "B" or "A"); any other name gives `G`.
    pub fn from_name(value: &str) -> (r: Self)
        ensures
            r == channel_name_from_name(value@),
    {
        if str_eq(value, "R") {
            ChannelName::R
        } else if str_eq(value, "G") {
            ChannelName::G
        } else if str_eq(value, "B") {
            ChannelName::B
        } else if str_eq(value, "A") {
            ChannelName::A
        } else {
            ChannelName::G
        }
    }
}

impl Default for ChannelName {
    fn default() -> (r: Self)
        ensures
            r == ChannelName::G,
    {
        ChannelName::G
    }
}

impl vstd::std_specs::convert::FromSpecImpl<String> for ChannelName {
    open spec fn obeys_from_spec() -> bool {
        true
    }

    open spec fn from_spec(v: String) -> Self {
        channel_name_from_name(v@)
    }
}

impl From<String> for ChannelName {
    fn from(value: String) -> (r: Self) {
        ChannelName::from_name(value.as_str())
    }
}

/// Tile style for displacement coordinates outside the `[0,1]` range.
#[derive(Debug, Clone, Copy, PartialEq, Eq, Structural)]
pub enum TileStyle {
    Wrap,
    Mirror,
    Clamp,
    NoTiling,
}

/// The tile style named by `s` (case-insensitive for ASCII letters); unknown names give `Wrap`.
pub open spec fn tile_style_from_name(s: Seq<char>) -> TileStyle {
    let l = ascii_lower(s);
    if l == "wrap"@ {
        TileStyle::Wrap
    } else if l == "mirror"@ {
        TileStyle::Mirror
    } else if l == "clamp"@ {
        TileStyle::Clamp
    } else if l == "none"@ {
        TileStyle::NoTiling
    } else {
        TileStyle::Wrap
    }
}

impl TileStyle {
    /// The tile style named by `value`, case-insensitively; unknown names give `Wrap`.
    pub fn from_name(value: &str) -> (r: Self)
        ensures
            r == tile_style_from_name(value@),
    {
        if ascii_lower_eq(value, "wrap") {
            TileStyle::Wrap
        } else if ascii_lower_eq(value, "mirror") {
            TileStyle::Mirror
        } else if ascii_lower_eq(value, "clamp") {
            TileStyle::Clamp
        } else if ascii_lower_eq(value, "none") {
            TileStyle::NoTiling
        } else {
            TileStyle::Wrap
        }
    }
}

impl Default for TileStyle {
    fn default() -> (r: Self)
        ensures
            r == TileStyle::Wrap,
    {
        TileStyle::Wrap
    }
}

impl vstd::std_specs::convert::FromSpecImpl<String> for TileStyle {
    open spec fn obeys_from_spec() -> bool {
        true
    }

    open spec fn from_spec(v: String) -> Self {
        tile_style_from_name(v@)
    }
}

impl From<String> for TileStyle {
    fn from(value: String) -> (r: Self) {
        TileStyle::from_name(value.as_str())
    }
}

/// Filter used for displacement map sampling.
#[derive(Debug, Clone, Copy, PartialEq, Eq, Structural)]
pub enum Filter {
    Auto,
    Linear,
    Nearest,
}

/// The filter named by `s` (case-insensitive for ASCII letters); unknown names give `Auto`.
pub open spec fn filter_from_name(s: Seq<char>) -> Filter {
    let l = ascii_lower(s);
    if l == "auto"@ {
        Filter::Auto
    } else if l == "linear"@ {
        Filter::Linear
    } else if l == "nearest"@ {
        Filter::Nearest
    } else {
        Filter::Auto
    }
}

impl Filter {
    /// The filter named by `value`, case-insensitively; unknown names give `Auto`.
    pub fn from_name(value: &str) -> (r: Self)
        ensures
            r == filter_from_name(value@),
    {
        if ascii_lower_eq(value, "auto") {
            Filter::Auto
        } else if ascii_lower_eq(value, "linear") {
            Filter::Linear
        } else if ascii_lower_eq(value, "nearest") {
            Filter::Nearest
        } else {
            Filter::Auto
        }
    }
}

impl Default for Filter {
    fn default() -> (r: Self)
        ensures
            r == Filter::Auto,
    {
        Filter::Auto
    }
}

impl vstd::std_specs::convert::FromSpecImpl<String> for Filter {
    open spec fn obeys_from_spec() -> bool {
        true
    }

    open spec fn from_spec(v: String) -> Self {
        filter_from_name(v@)
    }
}

impl From<String> for Filter {
    fn from(value: String) -> (r: Self) {
        Filter::from_name(value.as_str())
    }
}

/// A group of normal vectors.
#[derive(Debug, Clone, PartialEq, Eq)]
pub struct NormVectorGroup {
    pub id: ResourceId,
    pub normvector: Vec<NormVector>,
}

/// A normal vector.
#[derive(Debug, Clone, Copy, PartialEq, Eq)]
pub struct NormVector {
    pub x: Double,
    pub y: Double,
    pub z: Double,
}

/// A group of displacement coordinates into a displacement map.
#[derive(Debug, Clone, PartialEq, Eq)]
pub struct Disp2DGroup {
    pub id: ResourceId,
    pub dispid: ResourceId,
    pub nid: ResourceId,
    pub height: Double,
    pub offset: Option<Double>,
    pub disp2dcoord: Vec<Disp2DCoord>,
}

/// A displacement coordinate with its normal vector index and factor.
#[derive(Debug, Clone, Copy, PartialEq, Eq)]
pub struct Disp2DCoord {
    pub u: Double,
    pub v: Double,
    pub n: ResourceIndex,
    pub f: Option<Double>,
}

/// A mesh whose triangles carry displacement references.
#[derive(Debug, Clone, PartialEq, Eq)]
pub struct DisplacementMesh {
    pub vertices: Vertices,
    pub triangles: Triangles,
    pub trianglesets: Option<TriangleSets>,
    pub beamlattice: Option<BeamLattice>,
}

/// The vertices of a displacement mesh.
#[derive(Debug, Clone, PartialEq, Eq)]
pub struct Vertices {
    pub vertex: Vec<Vertex>,
}

/// A vertex of a displacement mesh.
#[derive(Debug, Clone, Copy, PartialEq, Eq)]
pub struct Vertex {
    pub x: Double,
    pub y: Double,
    pub z: Double,
}

/// The triangles of a displacement mesh, with their default displacement group.
#[derive(Debug, Clone, PartialEq, Eq)]
pub struct Triangles {
    pub did: OptionalResourceId,
    pub triangle: Vec<Triangle>,
}

/// A triangle of a displacement mesh.
#[derive(Debug, Clone, Copy, PartialEq, Eq)]
pub struct Triangle {
    pub v1: ResourceIndex,
    pub v2: ResourceIndex,
    pub v3: ResourceIndex,
    pub d1: OptionalResourceIndex,
    pub d2: OptionalResourceIndex,
    pub d3: OptionalResourceIndex,
    pub did: OptionalResourceId,
    pub p1: OptionalResourceIndex,
    pub p2: OptionalResourceIndex,
    pub p3: OptionalResourceIndex,
    pub pid: OptionalResourceId,
}

} // verus!
