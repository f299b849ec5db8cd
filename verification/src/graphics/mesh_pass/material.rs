//! How a mesh part is shaded, and what its material needs from the GPU.
use vstd::prelude::*;
use crate::float_bits::F32Bits;

verus! {

/// The shader variant that draws a mesh part.
#[derive(Debug, PartialEq, Eq, Clone, Copy)]
pub enum MaterialShading {
    Untextured,
    Textured,
    UntexturedUnlit,
    TexturedUnlit,
    TexturedEmissive,
    UntexturedEmissive,
}

impl MaterialShading {
    /// The shading is one of the two unlit variants.
    pub open spec fn unlit(self) -> bool {
        self == MaterialShading::UntexturedUnlit || self == MaterialShading::TexturedUnlit
    }

    /// The shading samples a diffuse texture.
    pub open spec fn textured(self) -> bool {
        self == MaterialShading::Textured || self == MaterialShading::TexturedUnlit || self
            == MaterialShading::TexturedEmissive
    }

    /// The shading is one of the two emissive variants.
    pub open spec fn emissive(self) -> bool {
        self == MaterialShading::TexturedEmissive || self == MaterialShading::UntexturedEmissive
    }

    /// True for the two unlit variants (`UntexturedUnlit`, `TexturedUnlit`).
    pub fn _is_lit(&self) -> (r: bool)
        ensures
            r == self.unlit(),
    {
        match self {
            MaterialShading::UntexturedUnlit | MaterialShading::TexturedUnlit => true,
            _ => false,
        }
    }

    /// True for the variants that sample a diffuse texture.
    pub fn is_textured(&self) -> (r: bool)
        ensures
            r == self.textured(),
    {
        match self {
            MaterialShading::Textured | MaterialShading::TexturedUnlit | MaterialShading::TexturedEmissive => true,
            MaterialShading::Untextured | MaterialShading::UntexturedUnlit | MaterialShading::UntexturedEmissive => false,
        }
    }

    /// True for the two emissive variants.
    pub fn _is_emissive(&self) -> (r: bool)
        ensures
            r == self.emissive(),
    {
        match self {
            MaterialShading::TexturedEmissive | MaterialShading::UntexturedEmissive => true,
            _ => false,
        }
    }
}

/// The per-material uniform block: diffuse color with alpha, and emissive color, as the bit
/// patterns of `f32` values.
#[derive(Debug, Clone, Copy)]
pub struct MaterialFactors {
    pub diffuse: [F32Bits; 4],
    pub emissive: [F32Bits; 3],
}

/// The bind group layout that a material is created with.
#[derive(Debug, PartialEq, Eq, Clone, Copy)]
pub enum MaterialLayout {
    /// Uniform block only.
    Untextured,
    /// Uniform block, sampler and diffuse texture.
    Textured,
}

/// Errors in creating a material.
#[derive(Debug, PartialEq, Eq, Clone, Copy)]
pub enum MaterialError {
    /// A textured shading was asked for without a texture.
    MissingTexture,
}

/// The layout of a material with this shading: untextured shadings take the uniform block
/// alone; textured ones also a texture, and fail without one.
pub open spec fn layout_for(shading: MaterialShading, has_texture: bool) -> Result<MaterialLayout, MaterialError> {
    if !shading.textured() {
        Ok(MaterialLayout::Untextured)
    } else if has_texture {
        Ok(MaterialLayout::Textured)
    } else {
        Err(MaterialError::MissingTexture)
    }
}

/// Chooses the bind group layout of a new material: textured shadings need a texture.
pub fn material_layout(shading: &MaterialShading, has_texture: bool) -> (r: Result<MaterialLayout, MaterialError>)
    ensures
        r == layout_for(*shading, has_texture),
{
    if !shading.is_textured() {
        Ok(MaterialLayout::Untextured)
    } else if has_texture {
        Ok(MaterialLayout::Textured)
    } else {
        Err(MaterialError::MissingTexture)
    }
}

/// A material's layout is what its shading's variant asks for: `Textured`, `TexturedUnlit` and
/// `TexturedEmissive` are created with their texture and refused without one; `Untextured`,
/// `UntexturedUnlit` and `UntexturedEmissive` never need one.
pub proof fn lemma_layout_by_variant(shading: MaterialShading, has_texture: bool)
    ensures
        (shading == MaterialShading::Textured || shading == MaterialShading::TexturedUnlit || shading
            == MaterialShading::TexturedEmissive) ==> layout_for(shading, has_texture) == (if has_texture {
            Ok::<MaterialLayout, MaterialError>(MaterialLayout::Textured)
        } else {
            Err::<MaterialLayout, MaterialError>(MaterialError::MissingTexture)
        }),
        (shading == MaterialShading::Untextured || shading == MaterialShading::UntexturedUnlit || shading
            == MaterialShading::UntexturedEmissive) ==> layout_for(shading, has_texture) == Ok::<
            MaterialLayout,
            MaterialError,
        >(MaterialLayout::Untextured),
{
}

} // verus!
