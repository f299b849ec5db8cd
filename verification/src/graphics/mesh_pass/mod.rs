pub mod material;
pub mod pipeline;
pub mod render_mesh;
pub mod shadow_pass;
pub use crate::wavefront::Vertex;
