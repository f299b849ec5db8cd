//! The targets that OpenGL buffers are bound to.
use vstd::prelude::*;

verus! {

/// A kind of OpenGL buffer, named by the target it binds to.
pub trait BufferType {
    /// The OpenGL binding target (a `GLenum`).
    const BUFFER_TYPE: u32;
}

/// Vertex attribute data, bound to `GL_ARRAY_BUFFER`.
pub struct BufferTypeArray;

/// Vertex index data, bound to `GL_ELEMENT_ARRAY_BUFFER`.
pub struct BufferTypeElementArray;

impl BufferType for BufferTypeArray {
    const BUFFER_TYPE: u32 = 0x8892u32;
}

impl BufferType for BufferTypeElementArray {
    const BUFFER_TYPE: u32 = 0x8893u32;
}

} // verus!
