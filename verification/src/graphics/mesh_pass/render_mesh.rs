//! Choosing how a loaded mesh part is drawn.
use vstd::prelude::*;
use crate::assets::data::MaterialData;
use crate::float_bits::{F32Bits, f32_eq, f32_equal};
use crate::graphics::color::Rgb;
use super::material::{MaterialFactors, MaterialLayout, MaterialShading, layout_for};

verus! {

/// The color is not black: some channel differs (as a float) from `0.0`.
pub open spec fn is_emissive_color(c: Rgb<F32Bits>) -> bool {
    !(f32_eq(c.r, 0) && f32_eq(c.g, 0) && f32_eq(c.b, 0))
}

/// The shading that a lit/textured/emissive combination calls for. There is no unlit
/// emissive shading.
pub open spec fn shading_for(lit: bool, textured: bool, emissive: bool) -> MaterialShading
    recommends
        lit || !emissive,
{
    if !lit {
        if textured { MaterialShading::TexturedUnlit } else { MaterialShading::UntexturedUnlit }
    } else if emissive {
        if textured { MaterialShading::TexturedEmissive } else { MaterialShading::UntexturedEmissive }
    } else {
        if textured { MaterialShading::Textured } else { MaterialShading::Untextured }
    }
}

/// Computes `is_emissive_color(*c)`.
pub fn emissive_color(c: &Rgb<F32Bits>) -> (r: bool)
    ensures
        r == is_emissive_color(*c),
{
    !(f32_equal(c.r, 0) && f32_equal(c.g, 0) && f32_equal(c.b, 0))
}

/// The shading of a mesh part with this material: lit when the material asks for lighting,
/// textured when it has a diffuse map, emissive when its emissive color is not black.
/// Unlit emissive materials have no shading.
pub fn part_shading<M>(material: &MaterialData<M>) -> (s: MaterialShading)
    requires
        material.lighting || !is_emissive_color(material.color_emissive),
    ensures
        s == shading_for(material.lighting, material.diffuse_map is Some, is_emissive_color(material.color_emissive)),
{
    let is_emissive = emissive_color(&material.color_emissive);
    let is_lit = material.lighting;
    let is_textured = material.diffuse_map.is_some();
    match (is_lit, is_textured, is_emissive) {
        (false, false, false) => MaterialShading::UntexturedUnlit,
        (false, true, false) => MaterialShading::TexturedUnlit,
        (true, false, false) => MaterialShading::Untextured,
        (true, true, false) => MaterialShading::Textured,
        (true, false, true) => MaterialShading::UntexturedEmissive,
        (true, true, true) => MaterialShading::TexturedEmissive,
        (false, _, true) => MaterialShading::UntexturedUnlit,
    }
}

/// The uniform factors of a mesh part: the diffuse color with the material's alpha, and
/// the emissive color.
pub fn part_factors<M>(material: &MaterialData<M>) -> (f: MaterialFactors)
    ensures
        f.diffuse@ == seq![material.color_diffuse.r, material.color_diffuse.g, material.color_diffuse.b, material.alpha],
        f.emissive@ == seq![material.color_emissive.r, material.color_emissive.g, material.color_emissive.b],
{
    let diffuse: [F32Bits; 4] = material.color_diffuse.alpha(material.alpha).into();
    let emissive: [F32Bits; 3] = material.color_emissive.into();
    let f = MaterialFactors { diffuse, emissive };
    assert(f.diffuse@ =~= seq![material.color_diffuse.r, material.color_diffuse.g, material.color_diffuse.b, material.alpha]);
    assert(f.emissive@ =~= seq![material.color_emissive.r, material.color_emissive.g, material.color_emissive.b]);
    f
}

/// Whatever combination a material has, its shading reports it back: the shading is
/// textured exactly when the material has a diffuse map, emissive exactly when its emissive
/// color is not black, and one of the variants that `_is_lit` names exactly when the
/// material is unlit.
pub proof fn lemma_shading_reports_material(lit: bool, textured: bool, emissive: bool)
    requires
        lit || !emissive,
    ensures
        shading_for(lit, textured, emissive).textured() == textured,
        shading_for(lit, textured, emissive).emissive() == emissive,
        shading_for(lit, textured, emissive).unlit() == !lit,
{
}

/// A mesh part's material can always be created: its shading is textured exactly when the
/// material has a diffuse map, and that map is the texture that the part uploads.
pub proof fn lemma_part_material_is_creatable<M>(material: MaterialData<M>)
    requires
        material.lighting || !is_emissive_color(material.color_emissive),
    ensures
        layout_for(
            shading_for(material.lighting, material.diffuse_map is Some, is_emissive_color(material.color_emissive)),
            material.diffuse_map is Some,
        ) == if material.diffuse_map is Some {
            Ok::<MaterialLayout, crate::graphics::mesh_pass::material::MaterialError>(MaterialLayout::Textured)
        } else {
            Ok::<MaterialLayout, crate::graphics::mesh_pass::material::MaterialError>(MaterialLayout::Untextured)
        },
{
}

} // verus!
