//! Mesh data as the first-generation asset loader produces it: 16-bit indices and colors as
//! plain arrays.
use vstd::prelude::*;
use crate::float_bits::F32Bits;
use crate::wavefront::Vertex;

verus! {

/// All the parts of one loaded object.
pub struct MeshData<M> {
    pub parts: Vec<MeshPartData<M>>,
}

/// One geometry of an object: its vertices, its 16-bit index list and its material.
pub struct MeshPartData<M> {
    pub vertices: Vec<Vertex>,
    pub indices: Vec<u16>,
    pub material: MaterialData<M>,
}

/// The material of a mesh part. `M` is the diffuse map (its file name, until the loader
/// that reads the file replaces it with the image).
#[derive(Debug)]
pub struct MaterialData<M> {
    pub specular_coefficient: F32Bits,
    pub color_ambient: [F32Bits; 3],
    pub color_diffuse: [F32Bits; 3],
    pub color_specular: [F32Bits; 3],
    pub color_emissive: [F32Bits; 3],
    pub alpha: F32Bits,
    pub lighting: bool,
    pub diffuse_map: Option<M>,
}

/// The bit pattern of `1.0f32`.
pub const ONE_F32: F32Bits = 0x3f80_0000u32;

/// The material of parts that name no known material: magenta ambient color, black
/// diffuse, specular and emissive colors, lit, opaque, specular coefficient 1, no map.
pub open spec fn default_material<M>() -> MaterialData<M> {
    MaterialData {
        specular_coefficient: ONE_F32,
        color_ambient: [ONE_F32, 0, ONE_F32],
        color_diffuse: [0, 0, 0],
        color_specular: [0, 0, 0],
        color_emissive: [0, 0, 0],
        lighting: true,
        alpha: ONE_F32,
        diffuse_map: None,
    }
}

impl<M> Default for MaterialData<M> {
    fn default() -> (m: Self)
        ensures
            m == default_material::<M>(),
    {
        MaterialData {
            specular_coefficient: ONE_F32,
            color_ambient: [ONE_F32, 0, ONE_F32],
            color_diffuse: [0, 0, 0],
            color_specular: [0, 0, 0],
            color_emissive: [0, 0, 0],
            lighting: true,
            alpha: ONE_F32,
            diffuse_map: None,
        }
    }
}

} // verus!
