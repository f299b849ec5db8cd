//! Mesh data as it comes out of the asset loader, ready to be uploaded to the GPU.
use vstd::prelude::*;
use crate::float_bits::F32Bits;
use crate::graphics::color::Rgb;
use crate::wavefront::Vertex;

verus! {

/// All the parts of one loaded object.
pub struct MeshData<M> {
    pub parts: Vec<MeshPartData<M>>,
}

/// One geometry of an object: its vertices, its index list and its material.
pub struct MeshPartData<M> {
    pub vertices: Vec<Vertex>,
    pub indices: Vec<u32>,
    pub material: MaterialData<M>,
}

/// The material of a mesh part. `M` is the diffuse map: the library hands out the map's
/// file name, and the loader that reads the file replaces it with the image.
#[derive(Debug)]
pub struct MaterialData<M> {
    pub specular_coefficient: F32Bits,
    pub color_ambient: Rgb<F32Bits>,
    pub color_diffuse: Rgb<F32Bits>,
    pub color_specular: Rgb<F32Bits>,
    pub color_emissive: Rgb<F32Bits>,
    pub alpha: F32Bits,
    pub lighting: bool,
    pub diffuse_map: Option<M>,
}

/// The bit pattern of `1.0f32`.
pub const ONE_F32: F32Bits = 0x3f80_0000u32;

/// The material of parts that name no known material: magenta, lit, opaque, specular
/// coefficient 1, no specular or emissive color and no diffuse map.
pub open spec fn default_material<M>() -> MaterialData<M> {
    MaterialData {
        specular_coefficient: ONE_F32,
        color_ambient: Rgb { r: ONE_F32, g: 0, b: ONE_F32 },
        color_diffuse: Rgb { r: ONE_F32, g: 0, b: ONE_F32 },
        color_specular: Rgb { r: 0, g: 0, b: 0 },
        color_emissive: Rgb { r: 0, g: 0, b: 0 },
        lighting: true,
        alpha: ONE_F32,
        diffuse_map: None,
    }
}

impl<M> Default for MaterialData<M> {
    fn default() -> (m: Self)
        ensures
            m == default_material::<M>(),
    {
        MaterialData {
            specular_coefficient: ONE_F32,
            color_ambient: Rgb::new(ONE_F32, 0, ONE_F32),
            color_diffuse: Rgb::new(ONE_F32, 0, ONE_F32),
            color_specular: Rgb::new(0, 0, 0),
            color_emissive: Rgb::new(0, 0, 0),
            lighting: true,
            alpha: ONE_F32,
            diffuse_map: None,
        }
    }
}

} // verus!
