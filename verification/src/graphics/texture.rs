//! How texture pixels are laid out when they are copied to the GPU.
use vstd::prelude::*;

verus! {

/// The copy layout of an RGBA8 image: bytes per row and rows per image, each absent when
/// zero (the GPU API takes them as non-zero numbers).
pub fn upload_layout(width: u32, height: u32) -> (r: (Option<u32>, Option<u32>))
    requires
        4 * width <= u32::MAX,
    ensures
        r.0 == if width == 0 { None } else { Some((4 * width) as u32) },
        r.1 == if height == 0 { None } else { Some(height) },
{
    let bytes_per_row = 4 * width;
    (
        if bytes_per_row == 0 { None } else { Some(bytes_per_row) },
        if height == 0 { None } else { Some(height) },
    )
}

} // verus!
