//! Properties that hold across the renderer's operations.

use vstd::prelude::*;
use crate::glyph::{glyph_char, glyph_index, lit};
use crate::pixels::PixelsView;
use crate::stringifier::{annotation, rendered_count, resized, StringifierView};

verus! {

/// The glyph pattern carries one bit per quadrant, top-left highest, so it is
/// one of sixteen values; the sixteen glyphs are pairwise distinct; an all-dark
/// patch is blank at any threshold, and an all-bright one is full below 255.
pub proof fn lemma_glyph_pattern(a: u8, b: u8, c: u8, d: u8, threshold: u8)
    ensures
        glyph_index(a, b, c, d, threshold) < 16,
        (glyph_index(a, b, c, d, threshold) / 8) % 2 == 1 <==> lit(a, threshold),
        (glyph_index(a, b, c, d, threshold) / 4) % 2 == 1 <==> lit(b, threshold),
        (glyph_index(a, b, c, d, threshold) / 2) % 2 == 1 <==> lit(c, threshold),
        glyph_index(a, b, c, d, threshold) % 2 == 1 <==> lit(d, threshold),
        forall|i: nat, j: nat| i < 16 && j < 16 && i != j ==> glyph_char(i) != glyph_char(j),
        glyph_index(0, 0, 0, 0, threshold) == 0 && glyph_char(0) == ' ',
        threshold < 255 ==> glyph_index(255, 255, 255, 255, threshold) == 15 && glyph_char(15)
            == '█',
{
}

/// A whole render has one row per two rows of the grid, rounded up; when the
/// height is odd, the lower half of the last rendered row lies outside the
/// grid and reads as 0.
pub proof fn lemma_last_row_padding(p: PixelsView, x: int)
    ensures
        rendered_count(p) * 2 == p.height || rendered_count(p) * 2 == p.height + 1,
        p.height % 2 == 1 ==> p.at(x, 2 * (rendered_count(p) - 1) + 1) == 0,
{
}

/// A render annotated with fewer lines than it has rows shows an empty
/// annotation on every row past the last line.
pub proof fn lemma_short_annotation(lines: Seq<String>, k: int)
    requires
        k >= lines.len(),
    ensures
        annotation(lines, k) == Seq::<char>::empty(),
{
}

/// Scaling up by `n` and then down by `n` brings back the original size
/// (the samples themselves need not come back: resampling loses detail).
pub proof fn lemma_scale_round_trip(v: StringifierView, n: u32)
    requires
        n > 0,
        v.pixels.width * n <= u32::MAX,
        v.pixels.height * n <= u32::MAX,
    ensures
        ({
            let up = resized(v, (v.pixels.width * n) as u32, (v.pixels.height * n) as u32);
            let down = resized(up, (up.pixels.width / n as nat) as u32, (up.pixels.height / n as nat) as u32);
            down.pixels.width == v.pixels.width && down.pixels.height == v.pixels.height
        }),
{
    assert((v.pixels.width * n) / (n as int) == v.pixels.width) by (nonlinear_arith)
        requires n > 0;
    assert((v.pixels.height * n) / (n as int) == v.pixels.height) by (nonlinear_arith)
        requires n > 0;
}

} // verus!
