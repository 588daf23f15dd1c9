//! The block glyph mapper: a 2x2 patch of brightness samples becomes one of the
//! sixteen quadrant-block characters and a representative brightness.

use vstd::prelude::*;

verus! {

/// Whether a sample counts as lit: strictly brighter than the threshold.
pub open spec fn lit(v: u8, threshold: u8) -> bool {
    v > threshold
}

/// One bit per quadrant, top-left as the most significant bit.
pub open spec fn glyph_index(a: u8, b: u8, c: u8, d: u8, threshold: u8) -> nat {
    (if lit(a, threshold) { 8nat } else { 0nat })
        + (if lit(b, threshold) { 4nat } else { 0nat })
        + (if lit(c, threshold) { 2nat } else { 0nat })
        + (if lit(d, threshold) { 1nat } else { 0nat })
}

/// The quadrant-block character for each 4-bit pattern.
pub open spec fn glyph_char(i: nat) -> char {
    if i == 0 { ' ' }
    else if i == 1 { '▗' }
    else if i == 2 { '▖' }
    else if i == 3 { '▄' }
    else if i == 4 { '▝' }
    else if i == 5 { '▐' }
    else if i == 6 { '▞' }
    else if i == 7 { '▟' }
    else if i == 8 { '▘' }
    else if i == 9 { '▚' }
    else if i == 10 { '▌' }
    else if i == 11 { '▙' }
    else if i == 12 { '▀' }
    else if i == 13 { '▜' }
    else if i == 14 { '▛' }
    else { '█' }
}

/// The text of the glyph for a 4-bit pattern: exactly one character.
pub open spec fn glyph_text(i: nat) -> Seq<char> {
    seq![glyph_char(i)]
}

/// The representative brightness of a patch: the truncated mean of its samples.
pub open spec fn mean_brightness(a: u8, b: u8, c: u8, d: u8) -> int {
    (a + b + c + d) / 4
}

/// The glyph for a 4-bit pattern.
pub fn glyph_for_index(i: u8) -> (r: &'static str)
    requires
        i < 16,
    ensures
        r@ == glyph_text(i as nat),
{
    let r = if i == 0 { " " }
    else if i == 1 { "▗" }
    else if i == 2 { "▖" }
    else if i == 3 { "▄" }
    else if i == 4 { "▝" }
    else if i == 5 { "▐" }
    else if i == 6 { "▞" }
    else if i == 7 { "▟" }
    else if i == 8 { "▘" }
    else if i == 9 { "▚" }
    else if i == 10 { "▌" }
    else if i == 11 { "▙" }
    else if i == 12 { "▀" }
    else if i == 13 { "▜" }
    else if i == 14 { "▛" }
    else { "█" };
    proof {
        reveal_strlit(" ");
        reveal_strlit("▗");
        reveal_strlit("▖");
        reveal_strlit("▄");
        reveal_strlit("▝");
        reveal_strlit("▐");
        reveal_strlit("▞");
        reveal_strlit("▟");
        reveal_strlit("▘");
        reveal_strlit("▚");
        reveal_strlit("▌");
        reveal_strlit("▙");
        reveal_strlit("▀");
        reveal_strlit("▜");
        reveal_strlit("▛");
        reveal_strlit("█");
    }
    r
}

/// The 4-bit pattern of a patch under a threshold.
pub fn pattern(a: u8, b: u8, c: u8, d: u8, threshold: u8) -> (r: u8)
    ensures
        r as nat == glyph_index(a, b, c, d, threshold),
        r < 16,
{
    let mut r: u8 = 0;
    if a > threshold {
        r = r + 8;
    }
    if b > threshold {
        r = r + 4;
    }
    if c > threshold {
        r = r + 2;
    }
    if d > threshold {
        r = r + 1;
    }
    r
}

/// The truncated mean of four samples, summed without overflow.
pub fn brightness(a: u8, b: u8, c: u8, d: u8) -> (r: u8)
    ensures
        r as int == mean_brightness(a, b, c, d),
{
    let sum: u16 = a as u16 + b as u16 + c as u16 + d as u16;
    (sum / 4) as u8
}

} // verus!
