pub mod bitmap_font;
pub mod buffer;
pub mod color;
pub mod debug;
pub mod mesh;
pub mod mesh_pass;
pub mod model;
pub mod setup;
pub mod shader;
pub mod texture;
