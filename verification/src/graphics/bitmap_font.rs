//! Laying out the glyphs of a bitmap font image.
use vstd::prelude::*;

verus! {

/// How a font image is cut into glyphs, and where the font's files are.
pub struct BitmapFontOptions {
    pub glyph_width: u32,
    pub glyph_height: u32,
    pub border: u32,
    pub image_path: &'static str,
    pub shader_path: &'static str,
}

impl BitmapFontOptions {
    pub fn new(
        g_width: u32,
        g_height: u32,
        border: u32,
        img_path: &'static str,
        shader_path: &'static str,
    ) -> (o: Self)
        ensures
            o.glyph_width == g_width,
            o.glyph_height == g_height,
            o.border == border,
            o.image_path == img_path,
            o.shader_path == shader_path,
    {
        BitmapFontOptions {
            glyph_width: g_width,
            glyph_height: g_height,
            border: border,
            image_path: img_path,
            shader_path: shader_path,
        }
    }
}

/// How many glyphs fit across: the image width over the glyph width plus one border.
pub open spec fn glyphs_across(o: BitmapFontOptions, image_width: u32) -> int {
    image_width as int / (o.glyph_width + o.border)
}

/// How many glyphs fit down.
pub open spec fn glyphs_down(o: BitmapFontOptions, image_height: u32) -> int {
    image_height as int / (o.glyph_height + o.border)
}

/// The column of glyph `i` in a grid `across` glyphs wide, counted from 1; a glyph that
/// ends a row is put in column 4.
pub open spec fn glyph_column(across: int, i: int) -> int {
    if i % across == 0 { 4 } else { i % across }
}

/// The row of glyph `i`, counted from 1.
pub open spec fn glyph_row(across: int, i: int) -> int {
    i / across + 1
}

/// The top-left texel of glyph `i`: past `column` borders and `column - 1` glyphs across,
/// and `row` borders and `row - 1` glyphs down.
pub open spec fn glyph_origin(o: BitmapFontOptions, across: int, i: int) -> (int, int) {
    let column = glyph_column(across, i);
    let row = glyph_row(across, i);
    (o.border * column + o.glyph_width * (column - 1), o.border * row + o.glyph_height * (row - 1))
}

/// The grid fits in 32-bit arithmetic: the cell sizes, the glyph count and every origin.
pub open spec fn layout_fits(o: BitmapFontOptions, image_width: u32, image_height: u32) -> bool {
    let across = glyphs_across(o, image_width);
    let down = glyphs_down(o, image_height);
    &&& 0 < o.glyph_width + o.border <= u32::MAX
    &&& 0 < o.glyph_height + o.border <= u32::MAX
    &&& across * down <= u32::MAX
    &&& origins_fit(o, across, across * down)
}

/// The origins of glyphs 1 up to (not including) `total` fit in 32 bits.
pub open spec fn origins_fit(o: BitmapFontOptions, across: int, total: int) -> bool {
    forall|i: int| 1 <= i < total ==> #[trigger] origin_fits(o, across, i)
}

/// Both coordinates of glyph `i`'s origin fit in 32 bits.
pub open spec fn origin_fits(o: BitmapFontOptions, across: int, i: int) -> bool {
    glyph_origin(o, across, i).0 <= u32::MAX && glyph_origin(o, across, i).1 <= u32::MAX
}

/// The origins of glyphs 1, 2, ... of a font image of the given size; glyph 0 is left out.
pub fn glyph_origins(options: &BitmapFontOptions, image_width: u32, image_height: u32) -> (r: Vec<(u32, u32)>)
    requires
        layout_fits(*options, image_width, image_height),
    ensures
        ({
            let across = glyphs_across(*options, image_width);
            let total = across * glyphs_down(*options, image_height);
            &&& r@.len() == if total == 0 { 0 } else { total - 1 }
            &&& forall|k: int| 0 <= k < r@.len() ==> (#[trigger] r@[k]).0 == glyph_origin(*options, across, k + 1).0
                && r@[k].1 == glyph_origin(*options, across, k + 1).1
            &&& forall|k: int|
                0 <= k < r@.len() ==> {
                    let row = (k + 1) / across + 1;
                    let column = if (k + 1) % across == 0 { 4 } else { (k + 1) % across };
                    &&& (#[trigger] r@[k]).0 == options.border * column + options.glyph_width * (column - 1)
                    &&& r@[k].1 == options.border * row + options.glyph_height * (row - 1)
                }
        }),
{
    let num_glyphs_x: u32 = image_width / (options.glyph_width + options.border);
    let num_glyphs_y: u32 = image_height / (options.glyph_height + options.border);
    proof {
        assert(0 <= num_glyphs_x * num_glyphs_y) by (nonlinear_arith)
            requires num_glyphs_x >= 0, num_glyphs_y >= 0;
    }
    let total_num_glyphs = num_glyphs_x * num_glyphs_y;
    let ghost across = glyphs_across(*options, image_width);
    assert(num_glyphs_x * num_glyphs_y == across * glyphs_down(*options, image_height));
    let mut glyphs: Vec<(u32, u32)> = Vec::new();
    let mut i: u32 = 1;
    while i < total_num_glyphs
        invariant
            1 <= i,
            i <= total_num_glyphs || total_num_glyphs == 0,
            total_num_glyphs == 0 ==> i == 1,
            across == num_glyphs_x,
            across == glyphs_across(*options, image_width),
            num_glyphs_y == glyphs_down(*options, image_height),
            total_num_glyphs == num_glyphs_x * num_glyphs_y,
            num_glyphs_x * num_glyphs_y == across * glyphs_down(*options, image_height),
            layout_fits(*options, image_width, image_height),
            glyphs@.len() == i - 1,
            forall|k: int| 0 <= k < glyphs@.len() ==> (#[trigger] glyphs@[k]).0 == glyph_origin(*options, across, k + 1).0
                && glyphs@[k].1 == glyph_origin(*options, across, k + 1).1,
        decreases total_num_glyphs - i,
    {
        assert(num_glyphs_x > 0) by {
            if num_glyphs_x == 0 {
                assert(num_glyphs_x * num_glyphs_y == 0);
            }
        }
        let row: u32 = (i / num_glyphs_x) + 1;
        let mut column: u32 = i % num_glyphs_x;
        if column == 0 {
            column = 4;
        }
        let ghost p = glyph_origin(*options, across, i as int);
        assert(1 <= i < across * glyphs_down(*options, image_height));
        assert(origins_fit(*options, across, total_num_glyphs as int));
        assert(origin_fits(*options, across, i as int));
        assert(options.border * column <= p.0 && options.glyph_width * (column - 1) <= p.0) by (nonlinear_arith)
            requires
                p.0 == options.border * column + options.glyph_width * (column - 1),
                column >= 1,
                options.border >= 0,
                options.glyph_width >= 0;
        assert(options.border * row <= p.1 && options.glyph_height * (row - 1) <= p.1) by (nonlinear_arith)
            requires
                p.1 == options.border * row + options.glyph_height * (row - 1),
                row >= 1,
                options.border >= 0,
                options.glyph_height >= 0;
        let x_uv = (options.border * column) + (options.glyph_width * (column - 1));
        let y_uv = (options.border * row) + (options.glyph_height * (row - 1));
        glyphs.push((x_uv, y_uv));
        i = i + 1;
    }
    glyphs
}

/// Glyphs lie on a grid of cells `glyph_width + border` wide and `glyph_height + border`
/// high: a glyph's origin is one cell height below the glyph one row above it, and one
/// cell width right of its left neighbour (inside a row, away from the column that the
/// last glyph of a row is put in).
pub proof fn lemma_glyph_grid(o: BitmapFontOptions, across: int, i: int)
    requires
        across > 0,
        i >= 1,
    ensures
        glyph_origin(o, across, i + across).1 == glyph_origin(o, across, i).1 + o.glyph_height + o.border,
        glyph_origin(o, across, i + across).0 == glyph_origin(o, across, i).0,
        (i + 1) % across != 0 && i % across != 0 ==> glyph_origin(o, across, i + 1).0 == glyph_origin(o, across, i).0
            + o.glyph_width + o.border,
        (i + 1) % across != 0 ==> glyph_origin(o, across, i + 1).1 == glyph_origin(o, across, i).1,
{
    let b = o.border as int;
    let gw = o.glyph_width as int;
    let gh = o.glyph_height as int;
    assert((i + across) / across == i / across + 1 && (i + across) % across == i % across) by (nonlinear_arith)
        requires
            across > 0,
    {
        vstd::arithmetic::div_mod::lemma_div_plus_one(i, across);
        vstd::arithmetic::div_mod::lemma_mod_add_multiples_vanish(i, across);
    }
    let row = i / across + 1;
    assert(b * (row + 1) + gh * row == b * row + gh * (row - 1) + gh + b) by (nonlinear_arith);
    if (i + 1) % across != 0 {
        assert((i + 1) / across == i / across && (i + 1) % across == i % across + 1) by (nonlinear_arith)
            requires
                across > 0,
                i >= 0,
                (i + 1) % across != 0,
        {
            vstd::arithmetic::div_mod::lemma_fundamental_div_mod(i, across);
            vstd::arithmetic::div_mod::lemma_fundamental_div_mod(i + 1, across);
        }
        if i % across != 0 {
            let c = i % across;
            assert(b * (c + 1) + gw * c == b * c + gw * (c - 1) + gw + b) by (nonlinear_arith);
        }
    }
}

/// A glyph's row offset depends on the glyph height and the border, never on the glyph
/// width: two option sets that differ only in their glyph width put a glyph (of a grid with
/// the same number of glyphs across) at the same height.
pub proof fn lemma_glyph_height_alone(o1: BitmapFontOptions, o2: BitmapFontOptions, across: int, i: int)
    requires
        o1.glyph_height == o2.glyph_height,
        o1.border == o2.border,
    ensures
        glyph_origin(o1, across, i).1 == glyph_origin(o2, across, i).1,
{
}

/// Computes `layout_fits`: whether `glyph_origins` can lay out a font image of this size
/// with these options.
pub fn layout_fits_check(options: &BitmapFontOptions, image_width: u32, image_height: u32) -> (r: bool)
    ensures
        r == layout_fits(*options, image_width, image_height),
{
    let cell_w: u64 = options.glyph_width as u64 + options.border as u64;
    let cell_h: u64 = options.glyph_height as u64 + options.border as u64;
    if cell_w == 0 || cell_w > u32::MAX as u64 || cell_h == 0 || cell_h > u32::MAX as u64 {
        return false;
    }
    let across: u64 = image_width as u64 / cell_w;
    let down: u64 = image_height as u64 / cell_h;
    assert(across == glyphs_across(*options, image_width));
    assert(down == glyphs_down(*options, image_height));
    assert(across <= u32::MAX && down <= u32::MAX);
    assert(across * down <= u32::MAX * u32::MAX) by (nonlinear_arith)
        requires across <= u32::MAX, down <= u32::MAX, across >= 0, down >= 0;
    let total: u64 = across * down;
    if total > u32::MAX as u64 {
        return false;
    }
    let mut i: u64 = 1;
    while i < total
        invariant
            1 <= i,
            i <= total || total == 0,
            across == glyphs_across(*options, image_width),
            down == glyphs_down(*options, image_height),
            total == across * down,
            total <= u32::MAX,
            0 < options.glyph_width + options.border <= u32::MAX,
            0 < options.glyph_height + options.border <= u32::MAX,
            forall|j: int| 1 <= j < i ==> #[trigger] origin_fits(*options, across as int, j),
        decreases total - i,
    {
        assert(across > 0) by {
            if across == 0 {
                assert(across * down == 0);
            }
        }
        let row: u128 = (i / across) as u128 + 1;
        let column: u128 = if i % across == 0 { 4 } else { (i % across) as u128 };
        assert(row <= u32::MAX + 1) by {
            assert(i / across <= i) by (nonlinear_arith) requires across > 0, i >= 0;
        }
        assert(column <= u32::MAX);
        let border = options.border as u128;
        let gw = options.glyph_width as u128;
        let gh = options.glyph_height as u128;
        assert(border * column <= u32::MAX * u32::MAX && gw * (column - 1) <= u32::MAX * u32::MAX) by (nonlinear_arith)
            requires border <= u32::MAX, gw <= u32::MAX, 1 <= column <= u32::MAX;
        assert(border * row <= u32::MAX * (u32::MAX + 1) && gh * (row - 1) <= u32::MAX * u32::MAX) by (nonlinear_arith)
            requires border <= u32::MAX, gh <= u32::MAX, 1 <= row <= u32::MAX + 1;
        let x: u128 = border * column + gw * (column - 1);
        let y: u128 = border * row + gh * (row - 1);
        assert(glyph_origin(*options, across as int, i as int) == (x as int, y as int));
        if x > u32::MAX as u128 || y > u32::MAX as u128 {
            assert(!origin_fits(*options, across as int, i as int));
            return false;
        }
        i = i + 1;
    }
    assert(origins_fit(*options, across as int, total as int));
    true
}

} // verus!
