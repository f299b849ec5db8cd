//! Diffuse maps as plain RGBA pixels, and their turn into the orientation that OBJ texture
//! coordinates sample them in.
use vstd::prelude::*;

verus! {

/// An image of 8-bit RGBA pixels. `pixels` holds the rows from the top one down, each row
/// from left to right, four bytes (red, green, blue, alpha) per pixel.
pub struct Rgba8Image {
    pub width: u32,
    pub height: u32,
    pub pixels: Vec<u8>,
}

/// Where byte `c` of the pixel in column `x`, row `y` stands in an image `width` pixels wide.
pub open spec fn texel_offset(width: int, x: int, y: int, c: int) -> int {
    (y * width + x) * 4 + c
}

impl Rgba8Image {
    /// The buffer holds exactly `width * height` pixels.
    pub open spec fn well_formed(&self) -> bool {
        self.pixels@.len() == self.width as int * self.height as int * 4
    }

    /// Byte `c` of the pixel in column `x`, row `y` (row 0 is the top one).
    pub open spec fn channel(&self, x: int, y: int, c: int) -> u8 {
        self.pixels@[texel_offset(self.width as int, x, y, c)]
    }
}

/// `out` is `img` upside down: of the same size, with row `y` of `out` holding row
/// `height - 1 - y` of `img`.
pub open spec fn flipped_vertically(img: Rgba8Image, out: Rgba8Image) -> bool {
    &&& out.width == img.width
    &&& out.height == img.height
    &&& out.well_formed()
    &&& forall|x: int, y: int, c: int|
        0 <= x < img.width && 0 <= y < img.height && 0 <= c < 4 ==> #[trigger] out.channel(x, y, c)
            == img.channel(x, img.height - 1 - y, c)
}

/// Calls `image::imageops::flip_vertical` on the image. Its source makes a buffer of the same
/// size and puts the pixel at `(x, y)` of the input at `(x, height - 1 - y)`, for every pixel;
/// the contract states that of every byte. A well-formed buffer is exactly as long as
/// `ImageBuffer::from_raw` asks, so the buffer is always made.
#[verifier::external_body]
fn flip_vertical(img: Rgba8Image) -> (out: Rgba8Image)
    requires
        img.well_formed(),
    ensures
        flipped_vertically(img, out),
{
    let Rgba8Image { width, height, pixels } = img;
    let buffer = image::RgbaImage::from_raw(width, height, pixels).unwrap();
    let flipped = image::imageops::flip_vertical(&buffer);
    Rgba8Image { width, height, pixels: flipped.into_raw() }
}

/// Turns a decoded diffuse map upside down, so that its rows follow the texture coordinates
/// of OBJ models, which count `v` from the bottom of the image.
pub fn map_image(decoded: Rgba8Image) -> (img: Rgba8Image)
    requires
        decoded.well_formed(),
    ensures
        flipped_vertically(decoded, img),
{
    flip_vertical(decoded)
}

/// Every byte of a well-formed buffer belongs to one pixel and channel.
proof fn lemma_texel_of(width: int, height: int, i: int) -> (xyc: (int, int, int))
    requires
        0 <= width,
        0 <= height,
        0 <= i < width * height * 4,
    ensures
        0 <= xyc.0 < width,
        0 <= xyc.1 < height,
        0 <= xyc.2 < 4,
        texel_offset(width, xyc.0, xyc.1, xyc.2) == i,
{
    let c = i % 4;
    let p = i / 4;
    assert(p < width * height) by (nonlinear_arith)
        requires
            0 <= i < width * height * 4,
            p == i / 4,
    ;
    assert(width > 0) by (nonlinear_arith)
        requires
            0 <= p < width * height,
            0 <= height,
            0 <= width,
    ;
    let x = p % width;
    let y = p / width;
    assert(0 <= y < height) by (nonlinear_arith)
        requires
            0 <= p < width * height,
            width > 0,
            y == p / width,
    ;
    assert(p == y * width + x) by (nonlinear_arith)
        requires
            width > 0,
            x == p % width,
            y == p / width,
    ;
    (x, y, c)
}

/// Turning an image upside down twice gives back the image.
pub proof fn lemma_flip_twice(img: Rgba8Image, once: Rgba8Image, twice: Rgba8Image)
    requires
        img.well_formed(),
        flipped_vertically(img, once),
        flipped_vertically(once, twice),
    ensures
        twice.width == img.width,
        twice.height == img.height,
        twice.pixels@ == img.pixels@,
{
    let w = img.width as int;
    let h = img.height as int;
    assert forall|i: int| 0 <= i < img.pixels@.len() implies twice.pixels@[i] == img.pixels@[i] by {
        let (x, y, c) = lemma_texel_of(w, h, i);
        assert(twice.channel(x, y, c) == once.channel(x, h - 1 - y, c));
        assert(once.channel(x, h - 1 - y, c) == img.channel(x, y, c));
    }
    assert(twice.pixels@ =~= img.pixels@);
}

} // verus!
