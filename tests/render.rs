use image_print::glyph::{brightness, glyph_for_index, pattern};
use image_print::pixels::{Filter, Pixels};
use image_print::stringifier::{render_rows, ImageStringifier, MakeRow};
use image_print::style::{Row, Style, StyleString};

const GLYPHS: [&str; 16] = [
    " ", "▗", "▖", "▄", "▝", "▐", "▞", "▟", "▘", "▚", "▌", "▙", "▀", "▜", "▛", "█",
];

fn grid(width: u32, height: u32, data: Vec<u8>) -> Pixels {
    Pixels::new(width, height, data).expect("one sample per pixel")
}

fn renderer(width: u32, height: u32, data: Vec<u8>) -> ImageStringifier {
    ImageStringifier::from_normalized(grid(width, height, data), Filter::Nearest)
}

#[test]
fn pattern_bits_follow_quadrants() {
    for i in 0u8..16 {
        let a = if i & 8 != 0 { 200 } else { 10 };
        let b = if i & 4 != 0 { 200 } else { 10 };
        let c = if i & 2 != 0 { 200 } else { 10 };
        let d = if i & 1 != 0 { 200 } else { 10 };
        assert_eq!(pattern(a, b, c, d, 65), i);
        assert_eq!(glyph_for_index(i), GLYPHS[i as usize]);
    }
}

#[test]
fn sixteen_distinct_glyphs() {
    for i in 0u8..16 {
        for j in 0u8..16 {
            if i != j {
                assert_ne!(glyph_for_index(i), glyph_for_index(j));
            }
        }
    }
}

#[test]
fn dark_patch_is_blank_and_bright_patch_is_full() {
    let r = renderer(1, 1, vec![0]);
    for t in [0u8, 65, 254, 255] {
        let r = renderer(1, 1, vec![0]).with_threshold(t);
        assert_eq!(r.str_from_u8s(0, 0, 0, 0), " ");
    }
    for t in [0u8, 65, 254] {
        let r = renderer(1, 1, vec![0]).with_threshold(t);
        assert_eq!(r.str_from_u8s(255, 255, 255, 255), "█");
    }
    assert_eq!(r.with_threshold(255).str_from_u8s(255, 255, 255, 255), " ");
}

#[test]
fn threshold_is_strict() {
    let r = renderer(1, 1, vec![0]);
    assert_eq!(r.str_from_u8s(65, 65, 65, 65), " ");
    assert_eq!(r.str_from_u8s(66, 65, 65, 66), "▚");
}

#[test]
fn brightness_truncates() {
    assert_eq!(brightness(10, 20, 30, 41), 25);
    assert_eq!(brightness(255, 255, 255, 255), 255);
    assert_eq!(brightness(1, 1, 1, 0), 0);
}

#[test]
fn checkerboard_block_renders_one_glyph() {
    let r = renderer(2, 2, vec![0, 255, 255, 0]);
    let rows = r.rendered_rows();
    assert_eq!(rows.len(), 1);
    assert_eq!(rows[0].len(), 1);
    assert_eq!(rows[0].item(0).text(), "▞");
    assert_eq!(pattern(0, 255, 255, 0, 65), 0b0110);
    let c = 127u8;
    assert_eq!(rows[0].item(0).style(), Style::new().truecolor(c, c, c));
}

#[test]
fn checkerboard_four_by_two() {
    let r = renderer(4, 2, vec![0, 255, 0, 255, 255, 0, 255, 0]);
    let rows = r.rendered_rows();
    assert_eq!(rows.len(), 1);
    assert_eq!(rows[0].len(), 2);
    assert_eq!(rows[0].item(0).text(), "▞");
    assert_eq!(rows[0].item(1).text(), "▞");
}

#[test]
fn out_of_bounds_reads_zero() {
    let r = renderer(2, 2, vec![1, 2, 3, 4]);
    assert_eq!(r.get_pixel(0, 0), 1);
    assert_eq!(r.get_pixel(1, 1), 4);
    assert_eq!(r.get_pixel(2, 0), 0);
    assert_eq!(r.get_pixel(0, 2), 0);
    assert_eq!(r.get_pixel(u32::MAX, u32::MAX), 0);
}

#[test]
fn row_counts_unstrided_and_strided() {
    let r = renderer(3, 3, vec![200; 9]);
    assert_eq!(r.rendered_rows().len(), 2);
    let last = r.make_row(2);
    assert_eq!(last.len(), 2);
    // lower half outside the grid, right half of the last block too
    assert_eq!(last.item(0).text(), "▀");
    assert_eq!(last.item(1).text(), "▘");
    assert_eq!(r.iter_rows().len(), 3);
    let r = renderer(4, 4, vec![200; 16]);
    assert_eq!(r.rendered_rows().len(), 2);
    assert_eq!(r.iter_rows().len(), 4);
}

#[test]
fn make_row_is_repeatable() {
    let r = renderer(4, 2, vec![0, 90, 180, 255, 30, 60, 120, 240]);
    assert_eq!(r.make_row(0).to_string(), r.make_row(0).to_string());
}

#[test]
fn short_annotation_leaves_rows_empty() {
    let r = renderer(2, 6, vec![200; 12]);
    let lines = vec!["first".to_string()];
    let rows = r.rows_with_text(&lines, " | ");
    assert_eq!(rows.len(), 3);
    for (k, row) in rows.iter().enumerate() {
        assert_eq!(row.len(), 3);
        assert_eq!(row.item(0).text(), "█");
        assert_eq!(row.item(1).text(), " | ");
        let expected = if k == 0 { "first" } else { "" };
        assert_eq!(row.item(2).text(), expected);
    }
}

#[test]
fn rows_beside_keep_every_rendered_row() {
    let r = renderer(2, 4, vec![0; 8]);
    let panel = vec![Row::new(vec![StyleString::plain("a"), StyleString::plain("b")])];
    let rows = r.rows_beside(panel);
    assert_eq!(rows.len(), 2);
    assert_eq!(rows[0].len(), 3);
    assert_eq!(rows[0].item(1).text(), "a");
    assert_eq!(rows[1].len(), 1);
}

#[test]
fn plain_span_renders_as_is() {
    assert_eq!(StyleString::plain("hello").to_string(), "hello");
}

#[test]
fn coloured_span_renders_escapes() {
    let s = StyleString::new("ab".to_string(), Style::new().truecolor(1, 2, 3));
    assert_eq!(s.to_string(), "\x1b[38;2;1;2;3mab\x1b[0m");
}

#[test]
fn whole_render_ends_each_row_with_a_line_break() {
    let r = renderer(2, 4, vec![0; 8]);
    let text = r.to_string();
    let blank = StyleString::new(" ".to_string(), Style::new().truecolor(0, 0, 0)).to_string();
    assert_eq!(text, format!("{blank}\n{blank}\n"));
    assert_eq!(render_rows(&r.rendered_rows()), text);
}

#[test]
fn normalisation_doubles_width_and_halves_height() {
    let source = grid(2, 5, vec![200; 10]);
    let r = ImageStringifier::new(&source, Filter::Nearest);
    assert_eq!((r.width(), r.height()), (4, 2));
    assert_eq!(r.get_pixel(3, 1), 200);
}

#[test]
fn scale_round_trip_restores_size() {
    let r = renderer(3, 5, (0u8..15).collect());
    let r = r.scale_up(3).scale_down(3);
    assert_eq!((r.width(), r.height()), (3, 5));
    let r = r.multiply_width(2).divide_width(2).multiply_height(4).divide_height(4);
    assert_eq!((r.width(), r.height()), (3, 5));
}

#[test]
fn resize_exact_resamples() {
    let r = renderer(1, 1, vec![77]).resize_exact(3, 2);
    assert_eq!((r.width(), r.height()), (3, 2));
    assert_eq!(r.get_pixel(2, 1), 77);
}

#[test]
fn grid_rejects_wrong_length() {
    assert!(Pixels::new(2, 2, vec![0; 3]).is_none());
    assert!(Pixels::new(2, 2, vec![0; 4]).is_some());
    assert!(Pixels::new(0, 5, vec![]).is_some());
}
