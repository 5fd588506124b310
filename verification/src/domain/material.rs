//! The material extension: color groups, textures, composite materials and
//! multi-properties.

use vstd::prelude::*;
use vstd::string::*;

use crate::text::{ascii_lower, ascii_lower_eq, str_eq};
use crate::types::{Color, Double, ResourceId};

verus! {

/// Tile style for texture coordinates outside the `[0,1]` range.
#[derive(Debug, Clone, Copy, PartialEq, Eq, Structural)]
pub enum TileStyle {
    Wrap,
    Mirror,
    Clamp,
    NoTiling,
}

/// The tile style named by `s` (case-insensitive for ASCII letters); unknown names give `Wrap`.
pub open spec fn tile_style_from_name(s: Seq<char>) -> TileStyle {
    let l = ascii_lower(s);
    if l == "wrap"@ {
        TileStyle::Wrap
    } else if l == "mirror"@ {
        TileStyle::Mirror
    } else if l == "clamp"@ {
        TileStyle::Clamp
    } else if l == "none"@ {
        TileStyle::NoTiling
    } else {
        TileStyle::Wrap
    }
}

impl TileStyle {
    /// The tile style named by `value`, case-insensitively; unknown names give `Wrap`.
    pub fn from_name(value: &str) -> (r: Self)
        ensures
            r == tile_style_from_name(value@),
    {
        if ascii_lower_eq(value, "wrap") {
            TileStyle::Wrap
        } else if ascii_lower_eq(value, "mirror") {
            TileStyle::Mirror
        } else if ascii_lower_eq(value, "clamp") {
            TileStyle::Clamp
        } else if ascii_lower_eq(value, "none") {
            TileStyle::NoTiling
        } else {
            TileStyle::Wrap
        }
    }
}

impl Default for TileStyle {
    fn default() -> (r: Self)
        ensures
            r == TileStyle::Wrap,
    {
        TileStyle::Wrap
    }
}

impl vstd::std_specs::convert::FromSpecImpl<String> for TileStyle {
    open spec fn obeys_from_spec() -> bool {
        true
    }

    open spec fn from_spec(v: String) -> Self {
        tile_style_from_name(v@)
    }
}

impl From<String> for TileStyle {
    fn from(value: String) -> (r: Self) {
        TileStyle::from_name(value.as_str())
    }
}

/// Texture filter for scaling operations.
#[derive(Debug, Clone, Copy, PartialEq, Eq, Structural)]
pub enum Filter {
    Auto,
    Linear,
    Nearest,
}

/// The filter named by `s` (case-insensitive for ASCII letters); unknown names give `Auto`.
pub open spec fn filter_from_name(s: Seq<char>) -> Filter {
    let l = ascii_lower(s);
    if l == "auto"@ {
        Filter::Auto
    } else if l == "linear"@ {
        Filter::Linear
    } else if l == "nearest"@ {
        Filter::Nearest
    } else {
        Filter::Auto
    }
}

impl Filter {
    /// The filter named by `value`, case-insensitively; unknown names give `Auto`.
    pub fn from_name(value: &str) -> (r: Self)
        ensures
            r == filter_from_name(value@),
    {
        if ascii_lower_eq(value, "auto") {
            Filter::Auto
        } else if ascii_lower_eq(value, "linear") {
            Filter::Linear
        } else if ascii_lower_eq(value, "nearest") {
            Filter::Nearest
        } else {
            Filter::Auto
        }
    }
}

impl Default for Filter {
    fn default() -> (r: Self)
        ensures
            r == Filter::Auto,
    {
        Filter::Auto
    }
}

impl vstd::std_specs::convert::FromSpecImpl<String> for Filter {
    open spec fn obeys_from_spec() -> bool {
        true
    }

    open spec fn from_spec(v: String) -> Self {
        filter_from_name(v@)
    }
}

impl From<String> for Filter {
    fn from(value: String) -> (r: Self) {
        Filter::from_name(value.as_str())
    }
}

/// Blend method for combining layers in multi-properties.
#[derive(Debug, Clone, Copy, PartialEq, Eq, Structural)]
pub enum BlendMethod {
    Mix,
    Multiply,
}

/// The blend method named by `s` (case-insensitive for ASCII letters); unknown names give `Mix`.
pub open spec fn blend_method_from_name(s: Seq<char>) -> BlendMethod {
    let l = ascii_lower(s);
    if l == "mix"@ {
        BlendMethod::Mix
    } else if l == "multiply"@ {
        BlendMethod::Multiply
    } else {
        BlendMethod::Mix
    }
}

impl BlendMethod {
    /// The blend method named by `value`, case-insensitively; unknown names give `Mix`.
    pub fn from_name(value: &str) -> (r: Self)
        ensures
            r == blend_method_from_name(value@),
    {
        if ascii_lower_eq(value, "mix") {
            BlendMethod::Mix
        } else if ascii_lower_eq(value, "multiply") {
            BlendMethod::Multiply
        } else {
            BlendMethod::Mix
        }
    }
}

impl Default for BlendMethod {
    fn default() -> (r: Self)
        ensures
            r == BlendMethod::Mix,
    {
        BlendMethod::Mix
    }
}

impl vstd::std_specs::convert::FromSpecImpl<String> for BlendMethod {
    open spec fn obeys_from_spec() -> bool {
        true
    }

    open spec fn from_spec(v: String) -> Self {
        blend_method_from_name(v@)
    }
}

impl From<String> for BlendMethod {
    fn from(value: String) -> (r: Self) {
        BlendMethod::from_name(value.as_str())
    }
}

/// Container for color properties, referenced by 0-based index.
#[derive(Debug, Clone, PartialEq, Eq)]
pub struct ColorGroup {
    pub id: ResourceId,
    pub color: Vec<ColorElement>,
}

/// A color of a color group.
#[derive(Debug, Clone, Copy, PartialEq, Eq)]
pub struct ColorElement {
    pub color: Color,
}

/// Container for texture coordinates into a 2D texture.
#[derive(Debug, Clone, PartialEq, Eq)]
pub struct Texture2DGroup {
    pub id: ResourceId,
    pub texid: ResourceId,
    pub tex2coord: Vec<Tex2Coord>,
}

/// A texture coordinate.
#[derive(Debug, Clone, Copy, PartialEq, Eq)]
pub struct Tex2Coord {
    pub u: Double,
    pub v: Double,
}

/// Mixtures of base materials in given ratios.
#[derive(Debug, Clone, PartialEq, Eq)]
pub struct CompositeMaterials {
    pub id: ResourceId,
    pub matid: ResourceId,
    pub matindices: Vec<u32>,
    pub composite: Vec<Composite>,
}

/// The ratios of one mixture.
#[derive(Debug, Clone, PartialEq, Eq)]
pub struct Composite {
    pub values: Vec<Double>,
}

/// Layered combinations of properties.
#[derive(Debug, Clone, PartialEq, Eq)]
pub struct MultiProperties {
    pub id: ResourceId,
    pub pids: Vec<u32>,
    pub blendmethods: Option<String>,
    pub multi: Vec<Multi>,
}

/// The property indices of one combination.
#[derive(Debug, Clone, PartialEq, Eq)]
pub struct Multi {
    pub pindices: Vec<u32>,
}

/// The image type of a texture.
#[derive(Debug, Clone, Copy, PartialEq, Eq, Structural)]
pub enum TextureContentType {
    Jpeg,
    Png,
}

/// The MIME type written for a texture content type.
pub open spec fn texture_content_type_str(t: TextureContentType) -> Seq<char> {
    match t {
        TextureContentType::Jpeg => "image/jpeg"@,
        TextureContentType::Png => "image/png"@,
    }
}

/// The texture content type with MIME type `s`, if any.
pub open spec fn texture_content_type_from_str(s: Seq<char>) -> Option<TextureContentType> {
    if s == "image/jpeg"@ {
        Some(TextureContentType::Jpeg)
    } else if s == "image/png"@ {
        Some(TextureContentType::Png)
    } else {
        None
    }
}

impl TextureContentType {
    /// The MIME type of the content type.
    pub fn to_str(&self) -> (r: &'static str)
        ensures
            r@ == texture_content_type_str(*self),
    {
        match self {
            TextureContentType::Jpeg => "image/jpeg",
            TextureContentType::Png => "image/png",
        }
    }

    /// The content type with MIME type `value`, if it is one of the two supported ones.
    pub fn from_str(value: &str) -> (r: Option<Self>)
        ensures
            r == texture_content_type_from_str(value@),
    {
        if str_eq(value, "image/jpeg") {
            Some(TextureContentType::Jpeg)
        } else if str_eq(value, "image/png") {
            Some(TextureContentType::Png)
        } else {
            None
        }
    }
}

/// The content type with MIME type `s`, and `Jpeg` for any other string.
pub open spec fn texture_content_type_from_string(s: Seq<char>) -> TextureContentType {
    match texture_content_type_from_str(s) {
        Some(t) => t,
        None => TextureContentType::Jpeg,
    }
}

impl vstd::std_specs::convert::FromSpecImpl<String> for TextureContentType {
    open spec fn obeys_from_spec() -> bool {
        true
    }

    open spec fn from_spec(v: String) -> Self {
        texture_content_type_from_string(v@)
    }
}

impl From<String> for TextureContentType {
    fn from(value: String) -> (r: Self) {
        match TextureContentType::from_str(value.as_str()) {
            Some(t) => t,
            None => TextureContentType::Jpeg,
        }
    }
}

/// A 2D texture image referenced by texture groups.
#[derive(Debug, Clone, PartialEq, Eq)]
pub struct Texture2D {
    pub id: ResourceId,
    pub path: String,
    pub contenttype: TextureContentType,
    pub tilestyleu: Option<TileStyle>,
    pub tilestylev: Option<TileStyle>,
    pub filter: Option<Filter>,
}

} // verus!
