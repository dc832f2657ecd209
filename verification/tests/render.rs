use image::{Rgb, RgbImage};
use soomfon::render::{blit_glyph, into_rgb_bytes, solid, text_at_scale, text_extent, text_lines, KeyImage};

fn rgb(img: KeyImage) -> RgbImage {
    let ((w, h), bytes) = into_rgb_bytes(img);
    RgbImage::from_raw(w, h, bytes).unwrap()
}

#[test]
fn solid_fills_every_pixel() {
    let img = rgb(solid((60, 60), [10, 20, 30]));
    assert_eq!(img.dimensions(), (60, 60));
    assert_eq!(*img.get_pixel(0, 0), Rgb([10, 20, 30]));
    assert_eq!(*img.get_pixel(59, 59), Rgb([10, 20, 30]));
}

// The key-image labels are drawn at the largest integer factor that fits the
// text in 85% of the canvas; for one character on a 60x60 key that is 6.

#[test]
fn text_keeps_canvas_size_and_draws_foreground() {
    let img = rgb(text_at_scale((60, 60), &text_lines("5"), [255, 255, 255], [0, 0, 0], 6));
    assert_eq!(img.dimensions(), (60, 60));
    let drawn = img.pixels().filter(|p| **p == Rgb([255, 255, 255])).count();
    assert!(drawn > 0, "a glyph should leave foreground pixels");
}

#[test]
fn empty_text_is_pure_background() {
    let img = rgb(text_at_scale((60, 60), &text_lines(""), [255, 255, 255], [1, 2, 3], 1));
    assert!(img.pixels().all(|p| *p == Rgb([1, 2, 3])));
}

#[test]
fn space_draws_nothing() {
    let img = rgb(text_at_scale((60, 60), &text_lines(" "), [255, 255, 255], [0, 0, 0], 6));
    let drawn = img.pixels().filter(|p| **p == Rgb([255, 255, 255])).count();
    assert_eq!(drawn, 0);
}

fn line_strings(text: &str) -> Vec<String> {
    text_lines(text)
        .into_iter()
        .map(|l| l.into_iter().collect())
        .collect()
}

#[test]
fn lines_split_like_str_lines() {
    for text in ["", "a", "a\n", "a\nb", "\n", "\n\n", "foo\r\nbar\n\nbaz\r", "x\ry\r\n"] {
        let expected: Vec<String> = text.lines().map(String::from).collect();
        assert_eq!(line_strings(text), expected, "{text:?}");
    }
}

#[test]
fn extent_is_longest_line_by_line_count() {
    assert_eq!(text_extent(&text_lines("ab\nc\ndef")), (3, 3));
    assert_eq!(text_extent(&text_lines("")), (0, 0));
    assert_eq!(text_extent(&text_lines("\n")), (0, 1));
}

#[test]
fn glyph_is_centred_and_pixels_are_fg_or_bg() {
    let fg = Rgb([200, 100, 50]);
    let bg = Rgb([1, 2, 3]);
    let img = rgb(text_at_scale((60, 60), &text_lines("5"), fg.0, bg.0, 6));
    assert!(img.pixels().all(|p| *p == fg || *p == bg));
    // A 48x48 block centred on 60x60 starts at 6: nothing is drawn in the margin.
    for (x, y, p) in img.enumerate_pixels() {
        if x < 6 || y < 6 || x >= 54 || y >= 54 {
            assert_eq!(*p, bg, "({x}, {y})");
        }
    }
}

#[test]
fn unknown_characters_draw_a_question_mark() {
    let a = rgb(text_at_scale((16, 16), &text_lines("é"), [9, 9, 9], [0, 0, 0], 2));
    let b = rgb(text_at_scale((16, 16), &text_lines("?"), [9, 9, 9], [0, 0, 0], 2));
    assert_eq!(a, b);
}

#[test]
fn wide_text_is_clipped_to_the_canvas() {
    let img = rgb(text_at_scale((10, 10), &text_lines("WWWW"), [7, 7, 7], [0, 0, 0], 1));
    assert_eq!(img.dimensions(), (10, 10));
}

#[test]
fn rgb_bytes_are_row_major_three_per_pixel() {
    let ((w, h), bytes) = into_rgb_bytes(solid((3, 2), [4, 5, 6]));
    assert_eq!((w, h), (3, 2));
    assert_eq!(bytes, [4, 5, 6].repeat(6));
    let ((w, h), bytes) = into_rgb_bytes(solid((0, 7), [1, 1, 1]));
    assert_eq!((w, h), (0, 7));
    assert!(bytes.is_empty());
}

#[test]
fn a_blank_glyph_can_be_blitted_anywhere() {
    let mut img = solid((4, 4), [0, 0, 0]);
    blit_glyph(&mut img, [0; 8], u32::MAX, u32::MAX, 9, [1, 1, 1]);
    assert!(rgb(img).pixels().all(|p| *p == Rgb([0, 0, 0])));
}

#[test]
fn a_glyph_pixel_becomes_a_scaled_square() {
    let mut img = solid((6, 6), [0, 0, 0]);
    // Bit 1 of row 2: column 1, row 2 of the glyph.
    blit_glyph(&mut img, [0, 0, 0b10, 0, 0, 0, 0, 0], 1, 0, 2, [9, 9, 9]);
    let img = rgb(img);
    for (x, y, p) in img.enumerate_pixels() {
        let lit = (3..5).contains(&x) && (4..6).contains(&y);
        assert_eq!(*p == Rgb([9, 9, 9]), lit, "({x}, {y})");
    }
}
