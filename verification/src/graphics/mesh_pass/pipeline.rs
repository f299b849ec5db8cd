//! Which compiled shaders a mesh pipeline loads.
use vstd::prelude::*;
use super::material::MaterialShading;

verus! {

/// The name of the fragment shader that draws a shading.
pub open spec fn fragment_shader_name(shading: MaterialShading) -> Seq<char> {
    match shading {
        MaterialShading::Untextured => "untex"@,
        MaterialShading::UntexturedUnlit => "untex_unlit"@,
        MaterialShading::Textured => "tex"@,
        MaterialShading::TexturedUnlit => "tex_unlit"@,
        MaterialShading::UntexturedEmissive => "emissive_untex"@,
        MaterialShading::TexturedEmissive => "emissive"@,
    }
}

/// The asset path of the compiled vertex shader that every mesh pipeline uses.
pub fn vertex_shader_path() -> (p: String)
    ensures
        p@ == "shaders/compiled/"@ + "mesh"@ + ".vert.spv"@,
{
    let mut p = String::from_str("shaders/compiled/");
    p.append("mesh");
    p.append(".vert.spv");
    p
}

/// The asset path of the compiled fragment shader that draws `shading`.
pub fn fragment_shader_path(shading: MaterialShading) -> (p: String)
    ensures
        p@ == "shaders/compiled/"@ + fragment_shader_name(shading) + ".frag.spv"@,
{
    let mut p = String::from_str("shaders/compiled/");
    match shading {
        MaterialShading::Untextured => p.append("untex"),
        MaterialShading::UntexturedUnlit => p.append("untex_unlit"),
        MaterialShading::Textured => p.append("tex"),
        MaterialShading::TexturedUnlit => p.append("tex_unlit"),
        MaterialShading::UntexturedEmissive => p.append("emissive_untex"),
        MaterialShading::TexturedEmissive => p.append("emissive"),
    }
    p.append(".frag.spv");
    p
}

} // verus!
