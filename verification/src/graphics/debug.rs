//! Debug lines: colored segments drawn on top of the scene.
use vstd::prelude::*;
use crate::float_bits::F32Bits;
use crate::graphics::color::Rgba;

verus! {

/// One segment as it is sent to the GPU: two positions, each with its color (bit patterns
/// of `f32` values).
#[derive(Debug, Clone, Copy)]
pub struct Line {
    pub pos_a: [F32Bits; 3],
    pub color_a: [F32Bits; 4],
    pub pos_b: [F32Bits; 3],
    pub color_b: [F32Bits; 4],
}

/// The bit pattern of `1.0f32`.
pub const ONE_F32: F32Bits = 0x3f80_0000u32;

/// The segments to draw this frame, and how thick to draw them.
pub struct DebugLines {
    pub thickness: F32Bits,
    pub vec: Vec<Line>,
}

/// The line from `a` to `b`, colored `color_a` at `a` and `color_b` at `b`.
pub open spec fn line_between(a: [F32Bits; 3], b: [F32Bits; 3], color_a: Rgba<F32Bits>, color_b: Rgba<F32Bits>) -> Line {
    Line {
        pos_a: a,
        color_a: [color_a.r, color_a.g, color_a.b, color_a.a],
        pos_b: b,
        color_b: [color_b.r, color_b.g, color_b.b, color_b.a],
    }
}

impl DebugLines {
    /// No lines, thickness 1.
    pub fn new() -> (d: Self)
        ensures
            d.thickness == ONE_F32,
            d.vec@.len() == 0,
    {
        DebugLines { thickness: ONE_F32, vec: Vec::new() }
    }

    /// Adds a line from `a` to `b` in one color.
    pub fn push_line(&mut self, a: [F32Bits; 3], b: [F32Bits; 3], color: Rgba<F32Bits>)
        ensures
            final(self).thickness == old(self).thickness,
            final(self).vec@ == old(self).vec@.push(line_between(a, b, color, color)),
    {
        self.vec.push(Line { pos_a: a, color_a: color.into(), pos_b: b, color_b: color.into() });
    }

    /// Adds a line from `a` to `b` whose color fades from `color_a` to `color_b`.
    pub fn push_line_gradient(
        &mut self,
        a: [F32Bits; 3],
        b: [F32Bits; 3],
        color_a: Rgba<F32Bits>,
        color_b: Rgba<F32Bits>,
    )
        ensures
            final(self).thickness == old(self).thickness,
            final(self).vec@ == old(self).vec@.push(line_between(a, b, color_a, color_b)),
    {
        self.vec.push(Line { pos_a: a, color_a: color_a.into(), pos_b: b, color_b: color_b.into() });
    }
}

impl Default for DebugLines {
    fn default() -> (d: Self)
        ensures
            d.thickness == ONE_F32,
            d.vec@.len() == 0,
    {
        Self::new()
    }
}

/// A gradient between one color and itself is the one-colored line.
pub proof fn lemma_gradient_of_one_color(a: [F32Bits; 3], b: [F32Bits; 3], color: Rgba<F32Bits>)
    ensures
        line_between(a, b, color, color).color_a == line_between(a, b, color, color).color_b,
{
}

} // verus!
