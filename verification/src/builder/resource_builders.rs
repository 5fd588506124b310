//! Builders of resources other than objects: material groups, textures, displacement
//! maps and groups, and slice stacks.

use vstd::prelude::*;

use crate::builder::errors::{
    CompositeMaterialsError, Disp2DGroupError, Displacement2DError, MultiPropertiesError,
    SliceStackBuilderError, Texture2DError, Texture2DGroupError,
};
use crate::builder::ids::SliceStackId;
use crate::domain::displacement::{
    ChannelName, Disp2DCoord, Disp2DGroup, Displacement2D, NormVector, NormVectorGroup,
};
use crate::domain::displacement;
use crate::domain::material::{
    BlendMethod, ColorElement, ColorGroup, Composite, CompositeMaterials, Filter, Multi,
    MultiProperties, Tex2Coord, Texture2D, Texture2DGroup, TextureContentType, TileStyle,
};
use crate::domain::resources::{Base, BaseMaterials};
use crate::domain::slice::{Polygon, Segment, Slice, SliceRef, SliceStack, Vertex, Vertices};
use crate::text::opt_chars;
use crate::types::{
    hex_compact, Color, Double, OptionalResourceId, OptionalResourceIndex, ResourceId, ResourceIndex,
};

verus! {

// ---------------------------------------------------------------------------------------
// Color groups and base materials
// ---------------------------------------------------------------------------------------

/// Builds a group of colors.
pub struct ColorGroupBuilder {
    group: ColorGroup,
}

impl View for ColorGroupBuilder {
    type V = ColorGroup;

    closed spec fn view(&self) -> ColorGroup {
        self.group
    }
}

impl ColorGroupBuilder {
    /// An empty group with id `id`.
    pub fn new(id: ResourceId) -> (r: Self)
        ensures
            r@.id == id,
            r@.color@.len() == 0,
    {
        ColorGroupBuilder { group: ColorGroup { id, color: Vec::new() } }
    }

    /// Adds a color.
    pub fn add_color(&mut self, color: Color) -> (r: &mut Self)
        ensures
            r@.id == old(self)@.id,
            r@.color@ == old(self)@.color@.push(ColorElement { color }),
            *final(self) == *final(r),
    {
        self.group.color.push(ColorElement { color });
        self
    }

    /// Adds the colors, in order.
    pub fn add_colors(&mut self, colors: &[Color]) -> (r: &mut Self)
        ensures
            r@.id == old(self)@.id,
            r@.color@ == old(self)@.color@ + colors@.map_values(|c: Color| ColorElement { color: c }),
            *final(self) == *final(r),
    {
        let n = colors.len();
        let ghost start = self.group.color@;
        for k in 0..n
            invariant
                n == colors@.len(),
                self.group.id == old(self).group.id,
                self.group.color@ =~= start + colors@.take(k as int).map_values(|c: Color| ColorElement { color: c }),
        {
            self.group.color.push(ColorElement { color: colors[k] });
            proof {
                assert(colors@.take(k + 1) =~= colors@.take(k as int).push(colors@[k as int]));
            }
        }
        proof {
            assert(colors@.take(n as int) =~= colors@);
        }
        self
    }

    /// The color group.
    pub fn build(self) -> (r: ColorGroup)
        ensures
            r == self@,
    {
        self.group
    }
}

/// Builds a group of base materials.
pub struct BaseMaterialsBuilder {
    materials: BaseMaterials,
}

impl View for BaseMaterialsBuilder {
    type V = BaseMaterials;

    closed spec fn view(&self) -> BaseMaterials {
        self.materials
    }
}

impl BaseMaterialsBuilder {
    /// An empty group with id `id`.
    pub fn new(id: ResourceId) -> (r: Self)
        ensures
            r@.id == id,
            r@.base@.len() == 0,
    {
        BaseMaterialsBuilder { materials: BaseMaterials { id, base: Vec::new() } }
    }

    /// Adds a base material with its name and display color.
    pub fn add_base(&mut self, name: &str, displaycolor: &str) -> (r: &mut Self)
        ensures
            r@.id == old(self)@.id,
            r@.base@.len() == old(self)@.base@.len() + 1,
            r@.base@.take(old(self)@.base@.len() as int) == old(self)@.base@,
            r@.base@.last().name@ == name@,
            r@.base@.last().displaycolor@ == displaycolor@,
            *final(self) == *final(r),
    {
        let ghost before = self.materials.base@;
        self.materials.base.push(Base { name: name.to_owned(), displaycolor: displaycolor.to_owned() });
        proof {
            assert(self.materials.base@.take(before.len() as int) =~= before);
        }
        self
    }

    /// Adds a base material with its name and the display color written as
    /// `#RRGGBB`, or `#RRGGBBAA` where the color is not opaque.
    pub fn add_base_color(&mut self, name: &str, displaycolor: Color) -> (r: &mut Self)
        ensures
            r@.id == old(self)@.id,
            r@.base@.len() == old(self)@.base@.len() + 1,
            r@.base@.take(old(self)@.base@.len() as int) == old(self)@.base@,
            r@.base@.last().name@ == name@,
            r@.base@.last().displaycolor@ == hex_compact(displaycolor),
            *final(self) == *final(r),
    {
        let ghost before = self.materials.base@;
        self.materials.base.push(Base { name: name.to_owned(), displaycolor: displaycolor.to_hex_compact() });
        proof {
            assert(self.materials.base@.take(before.len() as int) =~= before);
        }
        self
    }

    /// The base materials.
    pub fn build(self) -> (r: BaseMaterials)
        ensures
            r == self@,
    {
        self.materials
    }
}

// ---------------------------------------------------------------------------------------
// Textures
// ---------------------------------------------------------------------------------------

/// What a texture builder has been told.
pub struct Texture2DFields {
    pub id: ResourceId,
    pub path: Option<String>,
    pub contenttype: Option<TextureContentType>,
    pub tilestyleu: Option<TileStyle>,
    pub tilestylev: Option<TileStyle>,
    pub filter: Option<Filter>,
}

/// What a texture builder told `f` builds: the path must be set, then the content type.
pub open spec fn texture2d_built(f: Texture2DFields) -> Result<Texture2D, Texture2DError> {
    if f.path is None {
        Err(Texture2DError::PathNotSet)
    } else if f.contenttype is None {
        Err(Texture2DError::ContentTypeNotSet)
    } else {
        Ok(
            Texture2D {
                id: f.id,
                path: f.path.unwrap(),
                contenttype: f.contenttype.unwrap(),
                tilestyleu: f.tilestyleu,
                tilestylev: f.tilestylev,
                filter: f.filter,
            },
        )
    }
}

/// Builds a 2D texture; its path and content type must be set.
pub struct Texture2DBuilder {
    fields: Texture2DFields,
}

impl View for Texture2DBuilder {
    type V = Texture2DFields;

    closed spec fn view(&self) -> Texture2DFields {
        self.fields
    }
}

impl Texture2DBuilder {
    /// A texture with id `id` and nothing set.
    pub fn new(id: ResourceId) -> (r: Self)
        ensures
            r@ == (Texture2DFields { id, path: None, contenttype: None, tilestyleu: None, tilestylev: None, filter: None }),
    {
        Texture2DBuilder {
            fields: Texture2DFields { id, path: None, contenttype: None, tilestyleu: None, tilestylev: None, filter: None },
        }
    }

    /// Sets the path of the texture image.
    pub fn path(&mut self, path: &str) -> (r: &mut Self)
        ensures
            r@ == (Texture2DFields { path: r@.path, ..old(self)@ }),
            opt_chars(r@.path) == Some(path@),
            *final(self) == *final(r),
    {
        self.fields.path = Some(path.to_owned());
        self
    }

    /// Sets the content type of the texture image.
    pub fn content_type(&mut self, content_type: TextureContentType) -> (r: &mut Self)
        ensures
            r@ == (Texture2DFields { contenttype: Some(content_type), ..old(self)@ }),
            *final(self) == *final(r),
    {
        self.fields.contenttype = Some(content_type);
        self
    }

    /// Sets the tile style along u.
    pub fn tilestyle_u(&mut self, tilestyle: TileStyle) -> (r: &mut Self)
        ensures
            r@ == (Texture2DFields { tilestyleu: Some(tilestyle), ..old(self)@ }),
            *final(self) == *final(r),
    {
        self.fields.tilestyleu = Some(tilestyle);
        self
    }

    /// Sets the tile style along v.
    pub fn tilestyle_v(&mut self, tilestyle: TileStyle) -> (r: &mut Self)
        ensures
            r@ == (Texture2DFields { tilestylev: Some(tilestyle), ..old(self)@ }),
            *final(self) == *final(r),
    {
        self.fields.tilestylev = Some(tilestyle);
        self
    }

    /// Sets the filter.
    pub fn filter(&mut self, filter: Filter) -> (r: &mut Self)
        ensures
            r@ == (Texture2DFields { filter: Some(filter), ..old(self)@ }),
            *final(self) == *final(r),
    {
        self.fields.filter = Some(filter);
        self
    }

    /// The texture; the path is checked first, then the content type.
    pub fn build(self) -> (r: Result<Texture2D, Texture2DError>)
        ensures
            self@.path is None ==> r == Err::<Texture2D, Texture2DError>(Texture2DError::PathNotSet),
            self@.path is Some && self@.contenttype is None ==> r == Err::<Texture2D, Texture2DError>(
                Texture2DError::ContentTypeNotSet,
            ),
            self@.path is Some && self@.contenttype is Some ==> r == Ok::<Texture2D, Texture2DError>(
                Texture2D {
                    id: self@.id,
                    path: self@.path.unwrap(),
                    contenttype: self@.contenttype.unwrap(),
                    tilestyleu: self@.tilestyleu,
                    tilestylev: self@.tilestylev,
                    filter: self@.filter,
                },
            ),
    {
        let f = self.fields;
        let path = match f.path {
            Some(p) => p,
            None => return Err(Texture2DError::PathNotSet),
        };
        let contenttype = match f.contenttype {
            Some(c) => c,
            None => return Err(Texture2DError::ContentTypeNotSet),
        };
        Ok(Texture2D { id: f.id, path, contenttype, tilestyleu: f.tilestyleu, tilestylev: f.tilestylev, filter: f.filter })
    }
}

/// What a texture group builder has been told.
pub struct Texture2DGroupFields {
    pub id: ResourceId,
    pub texid: Option<ResourceId>,
    pub tex2coord: Vec<Tex2Coord>,
}

/// What a texture group builder told `f` builds: the texture must be set.
pub open spec fn texture2d_group_built(f: Texture2DGroupFields) -> Result<Texture2DGroup, Texture2DGroupError> {
    match f.texid {
        Some(t) => Ok(Texture2DGroup { id: f.id, texid: t, tex2coord: f.tex2coord }),
        None => Err(Texture2DGroupError::TexIdNotSet),
    }
}

/// Builds a group of texture coordinates; its texture must be set.
pub struct Texture2DGroupBuilder {
    fields: Texture2DGroupFields,
}

impl View for Texture2DGroupBuilder {
    type V = Texture2DGroupFields;

    closed spec fn view(&self) -> Texture2DGroupFields {
        self.fields
    }
}

impl Texture2DGroupBuilder {
    /// A group with id `id`, no texture and no coordinates.
    pub fn new(id: ResourceId) -> (r: Self)
        ensures
            r@.id == id,
            r@.texid is None,
            r@.tex2coord@.len() == 0,
    {
        Texture2DGroupBuilder { fields: Texture2DGroupFields { id, texid: None, tex2coord: Vec::new() } }
    }

    /// Sets the texture of the group.
    pub fn texid(&mut self, texid: ResourceId) -> (r: &mut Self)
        ensures
            r@ == (Texture2DGroupFields { texid: Some(texid), ..old(self)@ }),
            *final(self) == *final(r),
    {
        self.fields.texid = Some(texid);
        self
    }

    /// Adds the texture coordinate `(u, v)`.
    pub fn add_tex_coord(&mut self, u: Double, v: Double) -> (r: &mut Self)
        ensures
            r@.id == old(self)@.id,
            r@.texid == old(self)@.texid,
            r@.tex2coord@ == old(self)@.tex2coord@.push(Tex2Coord { u, v }),
            *final(self) == *final(r),
    {
        self.fields.tex2coord.push(Tex2Coord { u, v });
        self
    }

    /// Adds the texture coordinates, in order.
    pub fn add_tex_coords(&mut self, coords: &[(Double, Double)]) -> (r: &mut Self)
        ensures
            r@.id == old(self)@.id,
            r@.texid == old(self)@.texid,
            r@.tex2coord@ == old(self)@.tex2coord@ + coords@.map_values(|c: (Double, Double)| Tex2Coord { u: c.0, v: c.1 }),
            *final(self) == *final(r),
    {
        let n = coords.len();
        let ghost start = self.fields.tex2coord@;
        for k in 0..n
            invariant
                n == coords@.len(),
                self.fields.id == old(self).fields.id,
                self.fields.texid == old(self).fields.texid,
                self.fields.tex2coord@ =~= start + coords@.take(k as int).map_values(
                    |c: (Double, Double)| Tex2Coord { u: c.0, v: c.1 },
                ),
        {
            let (u, v) = coords[k];
            self.fields.tex2coord.push(Tex2Coord { u, v });
            proof {
                assert(coords@.take(k + 1) =~= coords@.take(k as int).push(coords@[k as int]));
            }
        }
        proof {
            assert(coords@.take(n as int) =~= coords@);
        }
        self
    }

    /// The texture group, if its texture is set.
    pub fn build(self) -> (r: Result<Texture2DGroup, Texture2DGroupError>)
        ensures
            match self@.texid {
                Some(t) => r == Ok::<Texture2DGroup, Texture2DGroupError>(
                    Texture2DGroup { id: self@.id, texid: t, tex2coord: self@.tex2coord },
                ),
                None => r == Err::<Texture2DGroup, Texture2DGroupError>(Texture2DGroupError::TexIdNotSet),
            },
    {
        let f = self.fields;
        match f.texid {
            Some(t) => Ok(Texture2DGroup { id: f.id, texid: t, tex2coord: f.tex2coord }),
            None => Err(Texture2DGroupError::TexIdNotSet),
        }
    }
}

// ---------------------------------------------------------------------------------------
// Composite materials and multi-properties
// ---------------------------------------------------------------------------------------

/// What a composite materials builder has been told.
pub struct CompositeMaterialsFields {
    pub id: ResourceId,
    pub matid: Option<ResourceId>,
    pub matindices: Vec<ResourceIndex>,
    pub composite: Vec<Composite>,
}

/// What a composite materials builder told `f` builds: the material indices must not be
/// empty, then the base material group must be set.
pub open spec fn composite_materials_built(f: CompositeMaterialsFields) -> Result<CompositeMaterials, CompositeMaterialsError> {
    if f.matindices@.len() == 0 {
        Err(CompositeMaterialsError::MatIndicesEmpty)
    } else if f.matid is None {
        Err(CompositeMaterialsError::MatIdNotSet)
    } else {
        Ok(CompositeMaterials { id: f.id, matid: f.matid.unwrap(), matindices: f.matindices, composite: f.composite })
    }
}

/// Builds composite materials; the material indices must not be empty and the base
/// material group must be set.
pub struct CompositeMaterialsBuilder {
    fields: CompositeMaterialsFields,
}

impl View for CompositeMaterialsBuilder {
    type V = CompositeMaterialsFields;

    closed spec fn view(&self) -> CompositeMaterialsFields {
        self.fields
    }
}

/// A copy of the indices.
fn indices_to_vec(s: &[u32]) -> (r: Vec<u32>)
    ensures
        r@ == s@,
{
    let mut r: Vec<u32> = Vec::new();
    let n = s.len();
    for k in 0..n
        invariant
            n == s@.len(),
            r@ =~= s@.take(k as int),
    {
        r.push(s[k]);
        proof {
            assert(s@.take(k + 1) =~= s@.take(k as int).push(s@[k as int]));
        }
    }
    proof {
        assert(s@.take(n as int) =~= s@);
    }
    r
}

impl CompositeMaterialsBuilder {
    /// Composite materials with id `id` and nothing set.
    pub fn new(id: ResourceId) -> (r: Self)
        ensures
            r@.id == id,
            r@.matid is None,
            r@.matindices@.len() == 0,
            r@.composite@.len() == 0,
    {
        CompositeMaterialsBuilder {
            fields: CompositeMaterialsFields { id, matid: None, matindices: Vec::new(), composite: Vec::new() },
        }
    }

    /// Sets the base material group.
    pub fn matid(&mut self, matid: ResourceId) -> (r: &mut Self)
        ensures
            r@ == (CompositeMaterialsFields { matid: Some(matid), ..old(self)@ }),
            *final(self) == *final(r),
    {
        self.fields.matid = Some(matid);
        self
    }

    /// Replaces the material indices.
    pub fn matindices(&mut self, matindices: &[ResourceIndex]) -> (r: &mut Self)
        ensures
            r@ == (CompositeMaterialsFields { matindices: r@.matindices, ..old(self)@ }),
            r@.matindices@ == matindices@,
            *final(self) == *final(r),
    {
        self.fields.matindices = indices_to_vec(matindices);
        self
    }

    /// Adds a material index.
    pub fn add_matindex(&mut self, matindex: ResourceIndex) -> (r: &mut Self)
        ensures
            r@ == (CompositeMaterialsFields { matindices: r@.matindices, ..old(self)@ }),
            r@.matindices@ == old(self)@.matindices@.push(matindex),
            *final(self) == *final(r),
    {
        self.fields.matindices.push(matindex);
        self
    }

    /// Adds a composite with the given mixing values.
    pub fn add_composite(&mut self, values: &[Double]) -> (r: &mut Self)
        ensures
            r@ == (CompositeMaterialsFields { composite: r@.composite, ..old(self)@ }),
            r@.composite@.len() == old(self)@.composite@.len() + 1,
            r@.composite@.take(old(self)@.composite@.len() as int) == old(self)@.composite@,
            r@.composite@.last().values@ == values@,
            *final(self) == *final(r),
    {
        let mut v: Vec<Double> = Vec::new();
        let n = values.len();
        for k in 0..n
            invariant
                n == values@.len(),
                v@ =~= values@.take(k as int),
        {
            v.push(values[k]);
            proof {
                assert(values@.take(k + 1) =~= values@.take(k as int).push(values@[k as int]));
            }
        }
        proof {
            assert(values@.take(n as int) =~= values@);
        }
        let ghost before = self.fields.composite@;
        self.fields.composite.push(Composite { values: v });
        proof {
            assert(self.fields.composite@.take(before.len() as int) =~= before);
        }
        self
    }

    /// Adds a composite for each list of mixing values, in order.
    pub fn add_composites(&mut self, values: &[Vec<Double>]) -> (r: &mut Self)
        ensures
            r@ == (CompositeMaterialsFields { composite: r@.composite, ..old(self)@ }),
            r@.composite@.len() == old(self)@.composite@.len() + values@.len(),
            r@.composite@.take(old(self)@.composite@.len() as int) == old(self)@.composite@,
            forall|i: int| 0 <= i < values@.len()
                ==> (#[trigger] r@.composite@[old(self)@.composite@.len() + i]).values@ == values@[i]@,
            *final(self) == *final(r),
    {
        let n = values.len();
        let ghost start = self.fields.composite@;
        for k in 0..n
            invariant
                n == values@.len(),
                self.fields.id == old(self).fields.id,
                self.fields.matid == old(self).fields.matid,
                self.fields.matindices == old(self).fields.matindices,
                self.fields.composite@.len() == start.len() + k,
                self.fields.composite@.take(start.len() as int) == start,
                forall|i: int| 0 <= i < k ==> (#[trigger] self.fields.composite@[start.len() + i]).values@ == values@[i]@,
        {
            let ghost before = self.fields.composite@;
            self.add_composite(values[k].as_slice());
            proof {
                assert(self.fields.composite@.take(start.len() as int) =~= before.take(start.len() as int));
                assert forall|i: int| 0 <= i < k + 1 implies (#[trigger] self.fields.composite@[start.len() + i]).values@ == values@[i]@ by {
                    if i < k {
                        assert(self.fields.composite@.take(before.len() as int)[start.len() + i] == before[start.len() + i]);
                    }
                }
            }
        }
        self
    }

    /// The composite materials; empty material indices are reported first, then a
    /// missing base material group.
    pub fn build(self) -> (r: Result<CompositeMaterials, CompositeMaterialsError>)
        ensures
            self@.matindices@.len() == 0 ==> r == Err::<CompositeMaterials, CompositeMaterialsError>(
                CompositeMaterialsError::MatIndicesEmpty,
            ),
            self@.matindices@.len() > 0 && self@.matid is None ==> r == Err::<CompositeMaterials, CompositeMaterialsError>(
                CompositeMaterialsError::MatIdNotSet,
            ),
            self@.matindices@.len() > 0 && self@.matid is Some ==> r == Ok::<CompositeMaterials, CompositeMaterialsError>(
                CompositeMaterials {
                    id: self@.id,
                    matid: self@.matid.unwrap(),
                    matindices: self@.matindices,
                    composite: self@.composite,
                },
            ),
    {
        let f = self.fields;
        if f.matindices.len() == 0 {
            return Err(CompositeMaterialsError::MatIndicesEmpty);
        }
        match f.matid {
            Some(m) => Ok(CompositeMaterials { id: f.id, matid: m, matindices: f.matindices, composite: f.composite }),
            None => Err(CompositeMaterialsError::MatIdNotSet),
        }
    }
}

/// The keyword of a blend method.
pub open spec fn blend_method_word(m: BlendMethod) -> Seq<char> {
    match m {
        BlendMethod::Mix => "mix"@,
        BlendMethod::Multiply => "multiply"@,
    }
}

/// The keywords of blend methods, separated by single spaces.
pub open spec fn blend_methods_text(ms: Seq<BlendMethod>) -> Seq<char>
    decreases ms.len(),
{
    if ms.len() == 0 {
        Seq::empty()
    } else if ms.len() == 1 {
        blend_method_word(ms[0])
    } else {
        blend_methods_text(ms.drop_last()) + " "@ + blend_method_word(ms.last())
    }
}

/// What a multi-properties builder has been told.
pub struct MultiPropertiesFields {
    pub id: ResourceId,
    pub pids: Vec<ResourceId>,
    pub blendmethods: Option<String>,
    pub multi: Vec<Multi>,
}

/// What a multi-properties builder told `f` builds: the property groups must not be
/// empty.
pub open spec fn multi_properties_built(f: MultiPropertiesFields) -> Result<MultiProperties, MultiPropertiesError> {
    if f.pids@.len() == 0 {
        Err(MultiPropertiesError::PidsEmpty)
    } else {
        Ok(MultiProperties { id: f.id, pids: f.pids, blendmethods: f.blendmethods, multi: f.multi })
    }
}

/// Builds multi-properties; the property groups must not be empty.
pub struct MultiPropertiesBuilder {
    fields: MultiPropertiesFields,
}

impl View for MultiPropertiesBuilder {
    type V = MultiPropertiesFields;

    closed spec fn view(&self) -> MultiPropertiesFields {
        self.fields
    }
}

impl MultiPropertiesBuilder {
    /// Multi-properties with id `id` and nothing set.
    pub fn new(id: ResourceId) -> (r: Self)
        ensures
            r@.id == id,
            r@.pids@.len() == 0,
            r@.blendmethods is None,
            r@.multi@.len() == 0,
    {
        MultiPropertiesBuilder { fields: MultiPropertiesFields { id, pids: Vec::new(), blendmethods: None, multi: Vec::new() } }
    }

    /// Replaces the property groups.
    pub fn pids(&mut self, pids: &[ResourceId]) -> (r: &mut Self)
        ensures
            r@ == (MultiPropertiesFields { pids: r@.pids, ..old(self)@ }),
            r@.pids@ == pids@,
            *final(self) == *final(r),
    {
        self.fields.pids = indices_to_vec(pids);
        self
    }

    /// Adds a property group.
    pub fn add_pid(&mut self, pid: ResourceId) -> (r: &mut Self)
        ensures
            r@ == (MultiPropertiesFields { pids: r@.pids, ..old(self)@ }),
            r@.pids@ == old(self)@.pids@.push(pid),
            *final(self) == *final(r),
    {
        self.fields.pids.push(pid);
        self
    }

    /// Sets the blend methods, written as their keywords separated by spaces.
    pub fn blendmethods(&mut self, methods: &[BlendMethod]) -> (r: &mut Self)
        ensures
            r@ == (MultiPropertiesFields { blendmethods: r@.blendmethods, ..old(self)@ }),
            opt_chars(r@.blendmethods) == Some(blend_methods_text(methods@)),
            *final(self) == *final(r),
    {
        let mut value = String::new();
        let n = methods.len();
        for k in 0..n
            invariant
                n == methods@.len(),
                value@ =~= blend_methods_text(methods@.take(k as int)),
        {
            proof {
                assert(methods@.take(k + 1).drop_last() =~= methods@.take(k as int));
            }
            if k > 0 {
                value.append(" ");
            }
            match methods[k] {
                BlendMethod::Mix => value.append("mix"),
                BlendMethod::Multiply => value.append("multiply"),
            }
        }
        proof {
            assert(methods@.take(n as int) =~= methods@);
        }
        self.fields.blendmethods = Some(value);
        self
    }

    /// Sets the blend methods as written.
    pub fn blendmethods_raw(&mut self, methods: &str) -> (r: &mut Self)
        ensures
            r@ == (MultiPropertiesFields { blendmethods: r@.blendmethods, ..old(self)@ }),
            opt_chars(r@.blendmethods) == Some(methods@),
            *final(self) == *final(r),
    {
        self.fields.blendmethods = Some(methods.to_owned());
        self
    }

    /// Adds an element with the given property indices.
    pub fn add_multi(&mut self, pindices: &[ResourceIndex]) -> (r: &mut Self)
        ensures
            r@ == (MultiPropertiesFields { multi: r@.multi, ..old(self)@ }),
            r@.multi@.len() == old(self)@.multi@.len() + 1,
            r@.multi@.take(old(self)@.multi@.len() as int) == old(self)@.multi@,
            r@.multi@.last().pindices@ == pindices@,
            *final(self) == *final(r),
    {
        let ghost before = self.fields.multi@;
        self.fields.multi.push(Multi { pindices: indices_to_vec(pindices) });
        proof {
            assert(self.fields.multi@.take(before.len() as int) =~= before);
        }
        self
    }

    /// The multi-properties, if the property groups are not empty.
    pub fn build(self) -> (r: Result<MultiProperties, MultiPropertiesError>)
        ensures
            self@.pids@.len() == 0 ==> r == Err::<MultiProperties, MultiPropertiesError>(MultiPropertiesError::PidsEmpty),
            self@.pids@.len() > 0 ==> r == Ok::<MultiProperties, MultiPropertiesError>(
                MultiProperties { id: self@.id, pids: self@.pids, blendmethods: self@.blendmethods, multi: self@.multi },
            ),
    {
        let f = self.fields;
        if f.pids.len() == 0 {
            return Err(MultiPropertiesError::PidsEmpty);
        }
        Ok(MultiProperties { id: f.id, pids: f.pids, blendmethods: f.blendmethods, multi: f.multi })
    }
}

// ---------------------------------------------------------------------------------------
// Displacement resources
// ---------------------------------------------------------------------------------------

/// What a displacement map builder has been told.
pub struct Displacement2DFields {
    pub id: ResourceId,
    pub path: Option<String>,
    pub channel: Option<ChannelName>,
    pub tilestyleu: Option<displacement::TileStyle>,
    pub tilestylev: Option<displacement::TileStyle>,
    pub filter: Option<displacement::Filter>,
}

/// What a displacement map builder told `f` builds: the path must be set.
pub open spec fn displacement2d_built(f: Displacement2DFields) -> Result<Displacement2D, Displacement2DError> {
    match f.path {
        Some(p) => Ok(
            Displacement2D {
                id: f.id,
                path: p,
                channel: f.channel,
                tilestyleu: f.tilestyleu,
                tilestylev: f.tilestylev,
                filter: f.filter,
            },
        ),
        None => Err(Displacement2DError::PathNotSet),
    }
}

/// Builds a 2D displacement map; its path must be set.
pub struct Displacement2DBuilder {
    fields: Displacement2DFields,
}

impl View for Displacement2DBuilder {
    type V = Displacement2DFields;

    closed spec fn view(&self) -> Displacement2DFields {
        self.fields
    }
}

impl Displacement2DBuilder {
    /// A displacement map with id `id` and nothing set.
    pub fn new(id: ResourceId) -> (r: Self)
        ensures
            r@ == (Displacement2DFields { id, path: None, channel: None, tilestyleu: None, tilestylev: None, filter: None }),
    {
        Displacement2DBuilder {
            fields: Displacement2DFields { id, path: None, channel: None, tilestyleu: None, tilestylev: None, filter: None },
        }
    }

    /// Sets the path of the displacement image.
    pub fn path(&mut self, path: &str) -> (r: &mut Self)
        ensures
            r@ == (Displacement2DFields { path: r@.path, ..old(self)@ }),
            opt_chars(r@.path) == Some(path@),
            *final(self) == *final(r),
    {
        self.fields.path = Some(path.to_owned());
        self
    }

    /// Sets the channel that holds the displacement.
    pub fn channel(&mut self, channel: ChannelName) -> (r: &mut Self)
        ensures
            r@ == (Displacement2DFields { channel: Some(channel), ..old(self)@ }),
            *final(self) == *final(r),
    {
        self.fields.channel = Some(channel);
        self
    }

    /// Sets the tile style along u.
    pub fn tilestyle_u(&mut self, tilestyle: displacement::TileStyle) -> (r: &mut Self)
        ensures
            r@ == (Displacement2DFields { tilestyleu: Some(tilestyle), ..old(self)@ }),
            *final(self) == *final(r),
    {
        self.fields.tilestyleu = Some(tilestyle);
        self
    }

    /// Sets the tile style along v.
    pub fn tilestyle_v(&mut self, tilestyle: displacement::TileStyle) -> (r: &mut Self)
        ensures
            r@ == (Displacement2DFields { tilestylev: Some(tilestyle), ..old(self)@ }),
            *final(self) == *final(r),
    {
        self.fields.tilestylev = Some(tilestyle);
        self
    }

    /// Sets the filter.
    pub fn filter(&mut self, filter: displacement::Filter) -> (r: &mut Self)
        ensures
            r@ == (Displacement2DFields { filter: Some(filter), ..old(self)@ }),
            *final(self) == *final(r),
    {
        self.fields.filter = Some(filter);
        self
    }

    /// The displacement map, if its path is set.
    pub fn build(self) -> (r: Result<Displacement2D, Displacement2DError>)
        ensures
            match self@.path {
                Some(p) => r == Ok::<Displacement2D, Displacement2DError>(
                    Displacement2D {
                        id: self@.id,
                        path: p,
                        channel: self@.channel,
                        tilestyleu: self@.tilestyleu,
                        tilestylev: self@.tilestylev,
                        filter: self@.filter,
                    },
                ),
                None => r == Err::<Displacement2D, Displacement2DError>(Displacement2DError::PathNotSet),
            },
    {
        let f = self.fields;
        match f.path {
            Some(p) => Ok(
                Displacement2D {
                    id: f.id,
                    path: p,
                    channel: f.channel,
                    tilestyleu: f.tilestyleu,
                    tilestylev: f.tilestylev,
                    filter: f.filter,
                },
            ),
            None => Err(Displacement2DError::PathNotSet),
        }
    }
}

/// Builds a group of normal vectors.
pub struct NormVectorGroupBuilder {
    group: NormVectorGroup,
}

impl View for NormVectorGroupBuilder {
    type V = NormVectorGroup;

    closed spec fn view(&self) -> NormVectorGroup {
        self.group
    }
}

impl NormVectorGroupBuilder {
    /// An empty group with id `id`.
    pub fn new(id: ResourceId) -> (r: Self)
        ensures
            r@.id == id,
            r@.normvector@.len() == 0,
    {
        NormVectorGroupBuilder { group: NormVectorGroup { id, normvector: Vec::new() } }
    }

    /// Adds the normal vector `(x, y, z)`.
    pub fn add_norm_vector(&mut self, x: Double, y: Double, z: Double) -> (r: &mut Self)
        ensures
            r@.id == old(self)@.id,
            r@.normvector@ == old(self)@.normvector@.push(NormVector { x, y, z }),
            *final(self) == *final(r),
    {
        self.group.normvector.push(NormVector { x, y, z });
        self
    }

    /// Adds the normal vectors, in order.
    pub fn add_norm_vectors(&mut self, vectors: &[[Double; 3]]) -> (r: &mut Self)
        ensures
            r@.id == old(self)@.id,
            r@.normvector@ == old(self)@.normvector@ + vectors@.map_values(
                |v: [Double; 3]| NormVector { x: v@[0], y: v@[1], z: v@[2] },
            ),
            *final(self) == *final(r),
    {
        let n = vectors.len();
        let ghost start = self.group.normvector@;
        for k in 0..n
            invariant
                n == vectors@.len(),
                self.group.id == old(self).group.id,
                self.group.normvector@ =~= start + vectors@.take(k as int).map_values(
                    |v: [Double; 3]| NormVector { x: v@[0], y: v@[1], z: v@[2] },
                ),
        {
            let v = &vectors[k];
            self.group.normvector.push(NormVector { x: v[0], y: v[1], z: v[2] });
            proof {
                assert(vectors@.take(k + 1) =~= vectors@.take(k as int).push(vectors@[k as int]));
            }
        }
        proof {
            assert(vectors@.take(n as int) =~= vectors@);
        }
        self
    }

    /// The normal vector group.
    pub fn build(self) -> (r: NormVectorGroup)
        ensures
            r == self@,
    {
        self.group
    }
}

/// What a displacement group builder has been told.
pub struct Disp2DGroupFields {
    pub id: ResourceId,
    pub dispid: Option<ResourceId>,
    pub nid: Option<ResourceId>,
    pub height: Option<Double>,
    pub offset: Option<Double>,
    pub coords: Vec<Disp2DCoord>,
}

/// What a displacement group builder told `f` builds: the displacement map, then the
/// normal vector group, then the height must be set.
pub open spec fn disp2d_group_built(f: Disp2DGroupFields) -> Result<Disp2DGroup, Disp2DGroupError> {
    if f.dispid is None {
        Err(Disp2DGroupError::DispIdNotSet)
    } else if f.nid is None {
        Err(Disp2DGroupError::NormVectorGroupIdNotSet)
    } else if f.height is None {
        Err(Disp2DGroupError::HeightNotSet)
    } else {
        Ok(
            Disp2DGroup {
                id: f.id,
                dispid: f.dispid.unwrap(),
                nid: f.nid.unwrap(),
                height: f.height.unwrap(),
                offset: f.offset,
                disp2dcoord: f.coords,
            },
        )
    }
}

/// Builds a group of displacement coordinates; its displacement map, normal vector
/// group and height must be set.
pub struct Disp2DGroupBuilder {
    fields: Disp2DGroupFields,
}

impl View for Disp2DGroupBuilder {
    type V = Disp2DGroupFields;

    closed spec fn view(&self) -> Disp2DGroupFields {
        self.fields
    }
}

impl Disp2DGroupBuilder {
    /// A group with id `id` and nothing set.
    pub fn new(id: ResourceId) -> (r: Self)
        ensures
            r@.id == id,
            r@.dispid is None,
            r@.nid is None,
            r@.height is None,
            r@.offset is None,
            r@.coords@.len() == 0,
    {
        Disp2DGroupBuilder {
            fields: Disp2DGroupFields { id, dispid: None, nid: None, height: None, offset: None, coords: Vec::new() },
        }
    }

    /// Sets the displacement map.
    pub fn displacement_map_id(&mut self, dispid: ResourceId) -> (r: &mut Self)
        ensures
            r@ == (Disp2DGroupFields { dispid: Some(dispid), ..old(self)@ }),
            *final(self) == *final(r),
    {
        self.fields.dispid = Some(dispid);
        self
    }

    /// Sets the normal vector group.
    pub fn norm_vector_group_id(&mut self, nid: ResourceId) -> (r: &mut Self)
        ensures
            r@ == (Disp2DGroupFields { nid: Some(nid), ..old(self)@ }),
            *final(self) == *final(r),
    {
        self.fields.nid = Some(nid);
        self
    }

    /// Sets the height of the displacement.
    pub fn height(&mut self, height: Double) -> (r: &mut Self)
        ensures
            r@ == (Disp2DGroupFields { height: Some(height), ..old(self)@ }),
            *final(self) == *final(r),
    {
        self.fields.height = Some(height);
        self
    }

    /// Sets the offset of the displacement.
    pub fn offset(&mut self, offset: Double) -> (r: &mut Self)
        ensures
            r@ == (Disp2DGroupFields { offset: Some(offset), ..old(self)@ }),
            *final(self) == *final(r),
    {
        self.fields.offset = Some(offset);
        self
    }

    /// Adds a displacement coordinate.
    pub fn add_coord(&mut self, u: Double, v: Double, n: ResourceIndex, f: Option<Double>) -> (r: &mut Self)
        ensures
            r@ == (Disp2DGroupFields { coords: r@.coords, ..old(self)@ }),
            r@.coords@ == old(self)@.coords@.push(Disp2DCoord { u, v, n, f }),
            *final(self) == *final(r),
    {
        self.fields.coords.push(Disp2DCoord { u, v, n, f });
        self
    }

    /// Adds the displacement coordinates, in order.
    pub fn add_coords(&mut self, coords: &[(Double, Double, ResourceIndex, Option<Double>)]) -> (r: &mut Self)
        ensures
            r@ == (Disp2DGroupFields { coords: r@.coords, ..old(self)@ }),
            r@.coords@ == old(self)@.coords@ + coords@.map_values(
                |c: (Double, Double, ResourceIndex, Option<Double>)| Disp2DCoord { u: c.0, v: c.1, n: c.2, f: c.3 },
            ),
            *final(self) == *final(r),
    {
        let n = coords.len();
        let ghost start = self.fields.coords@;
        for k in 0..n
            invariant
                n == coords@.len(),
                self.fields.id == old(self).fields.id,
                self.fields.dispid == old(self).fields.dispid,
                self.fields.nid == old(self).fields.nid,
                self.fields.height == old(self).fields.height,
                self.fields.offset == old(self).fields.offset,
                self.fields.coords@ =~= start + coords@.take(k as int).map_values(
                    |c: (Double, Double, ResourceIndex, Option<Double>)| Disp2DCoord { u: c.0, v: c.1, n: c.2, f: c.3 },
                ),
        {
            let (u, v, idx, f) = coords[k];
            self.fields.coords.push(Disp2DCoord { u, v, n: idx, f });
            proof {
                assert(coords@.take(k + 1) =~= coords@.take(k as int).push(coords@[k as int]));
            }
        }
        proof {
            assert(coords@.take(n as int) =~= coords@);
        }
        self
    }

    /// The displacement group; a missing displacement map is reported first, then a
    /// missing normal vector group, then a missing height.
    pub fn build(self) -> (r: Result<Disp2DGroup, Disp2DGroupError>)
        ensures
            self@.dispid is None ==> r == Err::<Disp2DGroup, Disp2DGroupError>(Disp2DGroupError::DispIdNotSet),
            self@.dispid is Some && self@.nid is None ==> r == Err::<Disp2DGroup, Disp2DGroupError>(
                Disp2DGroupError::NormVectorGroupIdNotSet,
            ),
            self@.dispid is Some && self@.nid is Some && self@.height is None ==> r == Err::<Disp2DGroup, Disp2DGroupError>(
                Disp2DGroupError::HeightNotSet,
            ),
            self@.dispid is Some && self@.nid is Some && self@.height is Some ==> r == Ok::<Disp2DGroup, Disp2DGroupError>(
                Disp2DGroup {
                    id: self@.id,
                    dispid: self@.dispid.unwrap(),
                    nid: self@.nid.unwrap(),
                    height: self@.height.unwrap(),
                    offset: self@.offset,
                    disp2dcoord: self@.coords,
                },
            ),
    {
        let f = self.fields;
        let dispid = match f.dispid {
            Some(d) => d,
            None => return Err(Disp2DGroupError::DispIdNotSet),
        };
        let nid = match f.nid {
            Some(n) => n,
            None => return Err(Disp2DGroupError::NormVectorGroupIdNotSet),
        };
        let height = match f.height {
            Some(h) => h,
            None => return Err(Disp2DGroupError::HeightNotSet),
        };
        Ok(Disp2DGroup { id: f.id, dispid, nid, height, offset: f.offset, disp2dcoord: f.coords })
    }
}

// ---------------------------------------------------------------------------------------
// Slice stacks
// ---------------------------------------------------------------------------------------

/// Builds a polygon of a slice: a start vertex and segments.
pub struct PolygonBuilder {
    startv: Option<ResourceIndex>,
    segments: Vec<Segment>,
}

impl View for PolygonBuilder {
    type V = Polygon;

    /// The polygon that the builder makes; the start vertex defaults to 0.
    closed spec fn view(&self) -> Polygon {
        Polygon {
            startv: match self.startv {
                Some(v) => v,
                None => 0,
            },
            segment: self.segments,
        }
    }
}

impl PolygonBuilder {
    /// A polygon starting at vertex 0, without segments.
    pub fn new() -> (r: Self)
        ensures
            r@.startv == 0,
            r@.segment@.len() == 0,
    {
        PolygonBuilder { startv: None, segments: Vec::new() }
    }

    /// Sets the start vertex.
    pub fn start_vertex(&mut self, startv: ResourceIndex) -> (r: &mut Self)
        ensures
            r@ == (Polygon { startv, ..old(self)@ }),
            *final(self) == *final(r),
    {
        self.startv = Some(startv);
        self
    }

    /// Adds a segment to vertex `v2`, without properties.
    pub fn add_segment(&mut self, v2: ResourceIndex) -> (r: &mut Self)
        ensures
            r@.startv == old(self)@.startv,
            r@.segment@ == old(self)@.segment@.push(
                Segment {
                    v2,
                    p1: OptionalResourceIndex { value: None },
                    p2: OptionalResourceIndex { value: None },
                    pid: OptionalResourceId { value: None },
                },
            ),
            *final(self) == *final(r),
    {
        self.segments.push(
            Segment { v2, p1: OptionalResourceIndex::none(), p2: OptionalResourceIndex::none(), pid: OptionalResourceId::none() },
        );
        self
    }

    /// Adds a segment to vertex `v2` with property indices.
    pub fn add_segment_with_properties(&mut self, v2: ResourceIndex, p1: OptionalResourceIndex, p2: OptionalResourceIndex) -> (r: &mut Self)
        ensures
            r@.startv == old(self)@.startv,
            r@.segment@ == old(self)@.segment@.push(Segment { v2, p1, p2, pid: OptionalResourceId { value: None } }),
            *final(self) == *final(r),
    {
        self.segments.push(Segment { v2, p1, p2, pid: OptionalResourceId::none() });
        self
    }

    /// Adds a segment to vertex `v2` with property indices and a property resource.
    pub fn add_segment_with_properties_and_pid(
        &mut self,
        v2: ResourceIndex,
        p1: OptionalResourceIndex,
        p2: OptionalResourceIndex,
        pid: OptionalResourceId,
    ) -> (r: &mut Self)
        ensures
            r@.startv == old(self)@.startv,
            r@.segment@ == old(self)@.segment@.push(Segment { v2, p1, p2, pid }),
            *final(self) == *final(r),
    {
        self.segments.push(Segment { v2, p1, p2, pid });
        self
    }

    /// The polygon.
    pub fn build(self) -> (r: Polygon)
        ensures
            r == self@,
    {
        Polygon {
            startv: match self.startv {
                Some(v) => v,
                None => 0,
            },
            segment: self.segments,
        }
    }
}

/// The vertices of a slice; none where it has no vertices.
pub open spec fn slice_vertices(s: Slice) -> Seq<Vertex> {
    match s.vertices {
        Some(v) => v.vertex@,
        None => Seq::empty(),
    }
}

/// Builds a slice: its top height, vertices and polygons.
pub struct SliceBuilder {
    ztop: Option<Double>,
    vertices: Vec<Vertex>,
    polygons: Vec<Polygon>,
}

impl View for SliceBuilder {
    type V = Slice;

    /// The slice that the builder makes: the top height defaults to 0.0, and the
    /// vertices are absent where none were added.
    closed spec fn view(&self) -> Slice {
        Slice {
            ztop: match self.ztop {
                Some(z) => z,
                None => Double { bits: 0 },
            },
            vertices: if self.vertices@.len() == 0 {
                None
            } else {
                Some(Vertices { vertex: self.vertices })
            },
            polygon: self.polygons,
        }
    }
}

impl SliceBuilder {
    /// The vertices added so far.
    pub closed spec fn vertices_spec(&self) -> Seq<Vertex> {
        self.vertices@
    }

    /// The vertices added so far are those of the slice that the builder makes.
    pub proof fn lemma_vertices_of_view(&self)
        ensures
            slice_vertices(self@) == self.vertices_spec(),
            self@.vertices is Some <==> self.vertices_spec().len() > 0,
    {
    }

    /// A slice at height 0.0 without vertices or polygons.
    pub fn new() -> (r: Self)
        ensures
            r@.ztop == (Double { bits: 0 }),
            r@.vertices is None,
            r@.polygon@.len() == 0,
            r.vertices_spec().len() == 0,
    {
        SliceBuilder { ztop: None, vertices: Vec::new(), polygons: Vec::new() }
    }

    /// Sets the top height of the slice.
    pub fn ztop(&mut self, ztop: Double) -> (r: &mut Self)
        ensures
            r@ == (Slice { ztop, ..old(self)@ }),
            r.vertices_spec() == old(self).vertices_spec(),
            *final(self) == *final(r),
    {
        self.ztop = Some(ztop);
        self
    }

    /// Adds the vertex `(x, y)`.
    pub fn add_vertex(&mut self, x: Double, y: Double) -> (r: &mut Self)
        ensures
            r.vertices_spec() == old(self).vertices_spec().push(Vertex { x, y }),
            r@.vertices is Some,
            slice_vertices(r@) == slice_vertices(old(self)@).push(Vertex { x, y }),
            r@.ztop == old(self)@.ztop,
            r@.polygon == old(self)@.polygon,
            *final(self) == *final(r),
    {
        self.vertices.push(Vertex { x, y });
        self
    }

    /// Adds the vertices, in order.
    pub fn add_vertices(&mut self, vertices: &[(Double, Double)]) -> (r: &mut Self)
        ensures
            r.vertices_spec() == old(self).vertices_spec() + vertices@.map_values(|v: (Double, Double)| Vertex { x: v.0, y: v.1 }),
            slice_vertices(r@) == slice_vertices(old(self)@) + vertices@.map_values(|v: (Double, Double)| Vertex { x: v.0, y: v.1 }),
            r@.vertices is Some <==> slice_vertices(r@).len() > 0,
            r@.ztop == old(self)@.ztop,
            r@.polygon == old(self)@.polygon,
            *final(self) == *final(r),
    {
        let n = vertices.len();
        let ghost start = self.vertices@;
        for k in 0..n
            invariant
                n == vertices@.len(),
                self.ztop == old(self).ztop,
                self.polygons == old(self).polygons,
                self.vertices@ =~= start + vertices@.take(k as int).map_values(|v: (Double, Double)| Vertex { x: v.0, y: v.1 }),
        {
            let (x, y) = vertices[k];
            self.vertices.push(Vertex { x, y });
            proof {
                assert(vertices@.take(k + 1) =~= vertices@.take(k as int).push(vertices@[k as int]));
            }
        }
        proof {
            assert(vertices@.take(n as int) =~= vertices@);
        }
        self
    }

    /// Adds a polygon configured by `f`.
    pub fn add_polygon<F>(&mut self, f: F) -> (r: &mut Self)
        where
            F: FnOnce(&mut PolygonBuilder),
        requires
            forall|b: &mut PolygonBuilder| call_requires(f, (b,)),
        ensures
            r@.polygon@.len() == old(self)@.polygon@.len() + 1,
            r@.polygon@.take(old(self)@.polygon@.len() as int) == old(self)@.polygon@,
            r@.ztop == old(self)@.ztop,
            r.vertices_spec() == old(self).vertices_spec(),
            r@.vertices == old(self)@.vertices,
            exists|b: &mut PolygonBuilder| {
                &&& call_ensures(f, (b,), ())
                &&& (*b)@.startv == 0
                &&& (*b)@.segment@.len() == 0
                &&& r@.polygon@ == old(self)@.polygon@.push(mut_ref_future(b)@)
            },
            *final(self) == *final(r),
    {
        let mut builder = PolygonBuilder::new();
        let ghost fresh = builder;
        f(&mut builder);
        let ghost made = builder;
        assert(exists|w: &mut PolygonBuilder| call_ensures(f, (w,), ()) && *w == fresh && mut_ref_future(w) == made);
        let ghost before = self.polygons@;
        self.polygons.push(builder.build());
        proof {
            assert(self.polygons@.take(before.len() as int) =~= before);
        }
        self
    }

    /// The slice.
    pub fn build(self) -> (r: Slice)
        ensures
            r == self@,
    {
        let vertices = if self.vertices.len() == 0 {
            None
        } else {
            Some(Vertices { vertex: self.vertices })
        };
        Slice {
            ztop: match self.ztop {
                Some(z) => z,
                None => Double::from_bits(0),
            },
            vertices,
            polygon: self.polygons,
        }
    }
}

/// What a slice stack builder has been told.
pub struct SliceStackFields {
    pub id: SliceStackId,
    pub zbottom: Option<Double>,
    pub slices: Vec<Slice>,
    pub slicerefs: Vec<SliceRef>,
}

/// What a slice stack builder told `f` builds: not both slices and references.
pub open spec fn slice_stack_built(f: SliceStackFields) -> Result<SliceStack, SliceStackBuilderError> {
    if f.slices@.len() > 0 && f.slicerefs@.len() > 0 {
        Err(SliceStackBuilderError::BothSliceAndSliceRefCannotBeSet)
    } else {
        Ok(SliceStack { id: f.id.0, zbottom: f.zbottom, slice: f.slices, sliceref: f.slicerefs })
    }
}

/// Builds a slice stack: slices of its own, or references to other stacks, not both.
pub struct SliceStackBuilder {
    fields: SliceStackFields,
}

impl View for SliceStackBuilder {
    type V = SliceStackFields;

    closed spec fn view(&self) -> SliceStackFields {
        self.fields
    }
}

impl SliceStackBuilder {
    /// A stack with id `id`, without bottom height, slices or references.
    pub fn new(id: SliceStackId) -> (r: Self)
        ensures
            r@.id == id,
            r@.zbottom is None,
            r@.slices@.len() == 0,
            r@.slicerefs@.len() == 0,
    {
        SliceStackBuilder { fields: SliceStackFields { id, zbottom: None, slices: Vec::new(), slicerefs: Vec::new() } }
    }

    /// Sets the bottom height of the stack.
    pub fn zbottom(&mut self, zbottom: Double) -> (r: &mut Self)
        ensures
            r@ == (SliceStackFields { zbottom: Some(zbottom), ..old(self)@ }),
            *final(self) == *final(r),
    {
        self.fields.zbottom = Some(zbottom);
        self
    }

    /// Adds a slice configured by `f`.
    pub fn add_slice<F>(&mut self, f: F) -> (r: &mut Self)
        where
            F: FnOnce(&mut SliceBuilder),
        requires
            forall|b: &mut SliceBuilder| call_requires(f, (b,)),
        ensures
            r@ == (SliceStackFields { slices: r@.slices, ..old(self)@ }),
            r@.slices@.len() == old(self)@.slices@.len() + 1,
            r@.slices@.take(old(self)@.slices@.len() as int) == old(self)@.slices@,
            exists|b: &mut SliceBuilder| {
                &&& call_ensures(f, (b,), ())
                &&& (*b)@.ztop == (Double { bits: 0 })
                &&& (*b)@.vertices is None
                &&& (*b)@.polygon@.len() == 0
                &&& r@.slices@ == old(self)@.slices@.push(mut_ref_future(b)@)
            },
            *final(self) == *final(r),
    {
        let mut builder = SliceBuilder::new();
        let ghost fresh = builder;
        f(&mut builder);
        let ghost made = builder;
        assert(exists|w: &mut SliceBuilder| call_ensures(f, (w,), ()) && *w == fresh && mut_ref_future(w) == made);
        let ghost before = self.fields.slices@;
        self.fields.slices.push(builder.build());
        proof {
            assert(self.fields.slices@.take(before.len() as int) =~= before);
        }
        self
    }

    /// Adds a reference to the slice stack `slicestackid` in the model at `slicepath`.
    pub fn add_sliceref(&mut self, slicestackid: ResourceId, slicepath: &str) -> (r: &mut Self)
        ensures
            r@ == (SliceStackFields { slicerefs: r@.slicerefs, ..old(self)@ }),
            r@.slicerefs@.len() == old(self)@.slicerefs@.len() + 1,
            r@.slicerefs@.take(old(self)@.slicerefs@.len() as int) == old(self)@.slicerefs@,
            r@.slicerefs@.last().slicestackid == slicestackid,
            r@.slicerefs@.last().slicepath@ == slicepath@,
            *final(self) == *final(r),
    {
        let ghost before = self.fields.slicerefs@;
        self.fields.slicerefs.push(SliceRef { slicestackid, slicepath: slicepath.to_owned() });
        proof {
            assert(self.fields.slicerefs@.take(before.len() as int) =~= before);
        }
        self
    }

    /// The slice stack, unless it has both slices and references.
    pub fn build(self) -> (r: Result<SliceStack, SliceStackBuilderError>)
        ensures
            self@.slices@.len() > 0 && self@.slicerefs@.len() > 0 ==> r == Err::<SliceStack, SliceStackBuilderError>(
                SliceStackBuilderError::BothSliceAndSliceRefCannotBeSet,
            ),
            !(self@.slices@.len() > 0 && self@.slicerefs@.len() > 0) ==> r == Ok::<SliceStack, SliceStackBuilderError>(
                SliceStack { id: self@.id.0, zbottom: self@.zbottom, slice: self@.slices, sliceref: self@.slicerefs },
            ),
    {
        let f = self.fields;
        if f.slicerefs.len() > 0 && f.slices.len() > 0 {
            Err(SliceStackBuilderError::BothSliceAndSliceRefCannotBeSet)
        } else {
            Ok(SliceStack { id: f.id.0, zbottom: f.zbottom, slice: f.slices, sliceref: f.slicerefs })
        }
    }
}

} // verus!
