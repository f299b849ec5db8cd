//! Materials of the first-generation mesh pass.
use vstd::prelude::*;
use super::mesh_pass::material::{MaterialError, MaterialLayout};

verus! {

/// The shader variant that draws a mesh part.
#[derive(Debug, PartialEq, Eq, Clone, Copy)]
pub enum MaterialShading {
    Untextured,
    Textured,
    TexturedUnlit,
    TexturedEmissive,
    UntexturedEmissive,
}

impl MaterialShading {
    /// The shading samples a diffuse texture.
    pub open spec fn textured(self) -> bool {
        !(self == MaterialShading::Untextured || self == MaterialShading::UntexturedEmissive)
    }
}

/// The layout of each shading, variant by variant: the three textured variants need the
/// texture, the two untextured ones take the uniform block alone.
pub open spec fn layout_of_variant(shading: MaterialShading, has_texture: bool) -> Result<MaterialLayout, MaterialError> {
    match shading {
        MaterialShading::Textured | MaterialShading::TexturedUnlit | MaterialShading::TexturedEmissive => if has_texture {
            Ok(MaterialLayout::Textured)
        } else {
            Err(MaterialError::MissingTexture)
        },
        MaterialShading::Untextured | MaterialShading::UntexturedEmissive => Ok(MaterialLayout::Untextured),
    }
}

/// Chooses the bind group layout of a new material: the untextured shadings take the
/// uniform block alone, the others also a texture, which must be there.
pub fn material_layout(shading: &MaterialShading, has_texture: bool) -> (r: Result<MaterialLayout, MaterialError>)
    ensures
        !shading.textured() ==> r == Ok::<MaterialLayout, MaterialError>(MaterialLayout::Untextured),
        shading.textured() && has_texture ==> r == Ok::<MaterialLayout, MaterialError>(MaterialLayout::Textured),
        shading.textured() && !has_texture ==> r == Err::<MaterialLayout, MaterialError>(MaterialError::MissingTexture),
        r == layout_of_variant(*shading, has_texture),
{
    match shading {
        MaterialShading::Untextured | MaterialShading::UntexturedEmissive => Ok(MaterialLayout::Untextured),
        MaterialShading::Textured | MaterialShading::TexturedUnlit | MaterialShading::TexturedEmissive => {
            if has_texture {
                Ok(MaterialLayout::Textured)
            } else {
                Err(MaterialError::MissingTexture)
            }
        },
    }
}

/// Whatever layout a material gets, it is what its variant asks for: `Textured`,
/// `TexturedUnlit` and `TexturedEmissive` are created with their texture and refused without
/// one; `Untextured` and `UntexturedEmissive` never need one. The textured shadings are
/// exactly those three.
pub proof fn lemma_layout_by_variant(shading: MaterialShading, has_texture: bool, r: Result<MaterialLayout, MaterialError>)
    requires
        !shading.textured() ==> r == Ok::<MaterialLayout, MaterialError>(MaterialLayout::Untextured),
        shading.textured() && has_texture ==> r == Ok::<MaterialLayout, MaterialError>(MaterialLayout::Textured),
        shading.textured() && !has_texture ==> r == Err::<MaterialLayout, MaterialError>(MaterialError::MissingTexture),
    ensures
        (shading == MaterialShading::Textured || shading == MaterialShading::TexturedUnlit || shading
            == MaterialShading::TexturedEmissive) ==> r == (if has_texture {
            Ok::<MaterialLayout, MaterialError>(MaterialLayout::Textured)
        } else {
            Err::<MaterialLayout, MaterialError>(MaterialError::MissingTexture)
        }),
        (shading == MaterialShading::Untextured || shading == MaterialShading::UntexturedEmissive) ==> r
            == Ok::<MaterialLayout, MaterialError>(MaterialLayout::Untextured),
        shading.textured() <==> (shading == MaterialShading::Textured || shading == MaterialShading::TexturedUnlit
            || shading == MaterialShading::TexturedEmissive),
{
}

} // verus!
