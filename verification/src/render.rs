//! Building key images: solid fills and text labels.
//!
//! Stream-deck keys are only 60x60, so labels and solid fills cover most of
//! what the app needs. Text is drawn with the public-domain 8x8 bitmap font
//! of `font8x8`, scaled up by an integer factor so glyphs stay crisp.

use font8x8::UnicodeFonts;
use image::{Rgb, RgbImage};
use crate::keyboard::chars_of;
use vstd::prelude::*;

verus! {

/// Side length of one font cell, in source pixels.
pub const GLYPH: u32 = 8;


/// An RGB key image: an `image::RgbImage` held opaque (Verus refuses a
/// declaration of `image::ImageBuffer`, whose pixel type is bounded by an
/// outside trait). Its contents are described by [`image_pixels`] and
/// [`image_size`], and only the wrappers below change them.
#[verifier::external_body]
pub struct KeyImage {
    rgb: RgbImage,
}

/// The pixels of an RGB image, by `(x, y)` coordinate.
pub uninterp spec fn image_pixels(img: KeyImage) -> Map<(u32, u32), [u8; 3]>;

/// The `(width, height)` an RGB image was made with.
pub uninterp spec fn image_size(img: KeyImage) -> (u32, u32);

/// The coordinates inside a `width` x `height` canvas.
pub open spec fn canvas(size: (u32, u32)) -> Set<(u32, u32)> {
    Set::new(|p: (u32, u32)| p.0 < size.0 && p.1 < size.1)
}

/// Whether `img` holds exactly one pixel per coordinate of its canvas.
pub open spec fn well_shaped(img: KeyImage) -> bool {
    image_pixels(img).dom() == canvas(image_size(img))
}

/// Whether an image of `size` fits in memory as a byte buffer.
pub open spec fn fits_in_memory(size: (u32, u32)) -> bool {
    3 * (size.0 as int) * (size.1 as int) <= isize::MAX
}

/// Builds an image through `image::ImageBuffer::from_pixel`.
///
/// Trusted: as the source shows, the image has the given size and every
/// pixel of it is `color`. It panics when the byte buffer would not fit, which
/// `requires` rules out.
#[verifier::external_body]
fn rgb_from_pixel(size: (u32, u32), color: [u8; 3]) -> (img: KeyImage)
    requires
        fits_in_memory(size),
    ensures
        image_size(img) == size,
        well_shaped(img),
        forall|p: (u32, u32)| #[trigger] canvas(size).contains(p) ==> image_pixels(img)[p] == color,
{
    KeyImage { rgb: RgbImage::from_pixel(size.0, size.1, Rgb(color)) }
}

/// Writes one pixel through `image::ImageBuffer::put_pixel`.
///
/// Trusted: as the source shows, the pixel at `(x, y)` becomes `color` and
/// nothing else changes. It panics outside the canvas, which `requires` rules
/// out.
#[verifier::external_body]
fn rgb_put_pixel(img: &mut KeyImage, x: u32, y: u32, color: [u8; 3])
    requires
        x < image_size(*old(img)).0,
        y < image_size(*old(img)).1,
    ensures
        image_size(*final(img)) == image_size(*old(img)),
        image_pixels(*final(img)) == image_pixels(*old(img)).insert((x, y), color),
{
    img.rgb.put_pixel(x, y, Rgb(color));
}

/// Reads the size through `image::ImageBuffer::dimensions`.
///
/// Trusted: the result is the size the image was made with, and the image
/// holds one pixel per coordinate of that canvas (the buffer's own invariant).
#[verifier::external_body]
fn rgb_dimensions(img: &KeyImage) -> (r: (u32, u32))
    ensures
        r == image_size(*img),
        image_pixels(*img).dom() == canvas(r),
{
    img.rgb.dimensions()
}

/// Where byte `k` (0 red, 1 green, 2 blue) of pixel `(x, y)` stands in the
/// row-major RGB bytes of an image `width` pixels wide.
pub open spec fn rgb_byte_index(width: u32, x: u32, y: u32, k: int) -> int {
    3 * ((y as int) * (width as int) + (x as int)) + k
}

/// Whether `bytes` are the pixels of an image of `size`, row by row, three
/// bytes (red, green, blue) per pixel.
pub open spec fn are_rgb_bytes_of(
    bytes: Seq<u8>,
    size: (u32, u32),
    pixels: Map<(u32, u32), [u8; 3]>,
) -> bool {
    &&& bytes.len() == 3 * (size.0 as int) * (size.1 as int)
    &&& forall|x: u32, y: u32, k: int|
        x < size.0 && y < size.1 && 0 <= k < 3 ==> #[trigger] bytes[rgb_byte_index(
            size.0,
            x,
            y,
            k,
        )] == pixels[(x, y)][k]
}

/// Takes the byte buffer out through `image::ImageBuffer::into_raw`.
///
/// Trusted: as the source shows, the buffer holds each pixel's red, green
/// and blue bytes at `3 * (y * width + x)`, row by row; a key image is only
/// ever made by `from_pixel`, whose buffer is exactly `3 * width * height`
/// bytes long.
#[verifier::external_body]
fn rgb_into_raw(img: KeyImage) -> (bytes: Vec<u8>)
    ensures
        are_rgb_bytes_of(bytes@, image_size(img), image_pixels(img)),
{
    img.rgb.into_raw()
}

/// An image as its size and its row-major RGB bytes (three per pixel), the
/// form encoders and `image::RgbImage::from_raw` take.
pub fn into_rgb_bytes(img: KeyImage) -> (r: ((u32, u32), Vec<u8>))
    ensures
        r.0 == image_size(img),
        are_rgb_bytes_of(r.1@, image_size(img), image_pixels(img)),
{
    let size = rgb_dimensions(&img);
    let bytes = rgb_into_raw(img);
    (size, bytes)
}

/// The 8x8 bitmap of a character in `font8x8::BASIC_FONTS`, when it has one.
pub uninterp spec fn basic_glyph(c: char) -> Option<[u8; 8]>;

/// Looks a glyph up through `font8x8::BASIC_FONTS.get`.
///
/// Trusted: the result depends on the character alone; as the source's table
/// shows, the basic set covers exactly the ASCII range `'\0'..='\x7f'`. The
/// bitmaps themselves are left to the name.
#[verifier::external_body]
fn basic_font_glyph(c: char) -> (r: Option<[u8; 8]>)
    ensures
        r == basic_glyph(c),
        r is Some <==> (c as u32) < 128,
{
    font8x8::BASIC_FONTS.get(c)
}

/// Build a solid-colour image of the given `(width, height)`.
pub fn solid(size: (u32, u32), color: [u8; 3]) -> (img: KeyImage)
    requires
        fits_in_memory(size),
    ensures
        image_size(img) == size,
        well_shaped(img),
        forall|p: (u32, u32)| #[trigger] canvas(size).contains(p) ==> image_pixels(img)[p] == color,
{
    rgb_from_pixel(size, color)
}

/// Whether `p` lies in the `side` x `side` square whose top-left corner is
/// `(x0, y0)`.
pub open spec fn in_square(p: (u32, u32), x0: int, y0: int, side: int) -> bool {
    x0 <= p.0 < x0 + side && y0 <= p.1 < y0 + side
}

/// Paint the part of a square that falls inside the canvas.
fn fill_square(img: &mut KeyImage, x0: u32, y0: u32, side: u32, color: [u8; 3])
    requires
        well_shaped(*old(img)),
        x0 + side <= u32::MAX + 1,
        y0 + side <= u32::MAX + 1,
    ensures
        image_size(*final(img)) == image_size(*old(img)),
        well_shaped(*final(img)),
        forall|p: (u32, u32)|
            #[trigger] canvas(image_size(*old(img))).contains(p) ==> image_pixels(*final(img))[p]
                == if in_square(p, x0 as int, y0 as int, side as int) {
                color
            } else {
                image_pixels(*old(img))[p]
            },
{
    let ghost before = image_pixels(*img);
    let (w, h) = rgb_dimensions(img);
    let mut dy: u32 = 0;
    while dy < side
        invariant
            0 <= dy <= side,
            x0 + side <= u32::MAX + 1,
            y0 + side <= u32::MAX + 1,
            image_size(*img) == (w, h),
            image_pixels(*img).dom() == canvas((w, h)),
            before.dom() == canvas((w, h)),
            forall|p: (u32, u32)|
                #[trigger] canvas((w, h)).contains(p) ==> image_pixels(*img)[p] == if in_square(
                    p,
                    x0 as int,
                    y0 as int,
                    side as int,
                ) && p.1 < y0 + dy {
                    color
                } else {
                    before[p]
                },
        decreases side - dy,
    {
        let mut dx: u32 = 0;
        while dx < side
            invariant
                0 <= dy < side,
                0 <= dx <= side,
                x0 + side <= u32::MAX + 1,
                y0 + side <= u32::MAX + 1,
                image_size(*img) == (w, h),
                image_pixels(*img).dom() == canvas((w, h)),
                before.dom() == canvas((w, h)),
                forall|p: (u32, u32)|
                    #[trigger] canvas((w, h)).contains(p) ==> image_pixels(*img)[p] == if in_square(
                        p,
                        x0 as int,
                        y0 as int,
                        side as int,
                    ) && (p.1 < y0 + dy || (p.1 == y0 + dy && p.0 < x0 + dx)) {
                        color
                    } else {
                        before[p]
                    },
            decreases side - dx,
        {
            let px = x0 + dx;
            let py = y0 + dy;
            if px < w && py < h {
                rgb_put_pixel(img, px, py, color);
                assert(image_pixels(*img).dom() =~= canvas((w, h)));
            }
            dx = dx + 1;
        }
        dy = dy + 1;
    }
}

/// Whether bit `gx` of a glyph row is set; bit `n` (from the least
/// significant) is the pixel at column `n` (from the left).
pub open spec fn glyph_bit(row: u8, gx: u32) -> bool {
    row & (1u8 << gx) != 0
}

/// Whether the pixels of glyph cell `g` (a column or a row index), drawn
/// from `start` with factor `scale`, have `u32` coordinates.
pub open spec fn cell_fits(start: int, g: int, scale: int) -> bool {
    start + g * scale + (if scale > 0 {
        scale - 1
    } else {
        0
    }) <= u32::MAX
}

/// Whether every set cell of a glyph drawn at `(x, y)` with factor `scale`
/// has `u32` pixel coordinates; cells whose bit is clear are never drawn.
pub open spec fn glyph_fits(glyph: [u8; 8], x: int, y: int, scale: int) -> bool {
    forall|gy: int, gx: u32|
        0 <= gy < 8 && gx < 8 && #[trigger] glyph_bit(glyph@[gy], gx) ==> cell_fits(
            x,
            gx as int,
            scale,
        ) && cell_fits(y, gy, scale)
}

/// The glyph cell `(column, row)` a pixel falls in, for a glyph drawn with
/// its top-left corner at `(x, y)` and each glyph pixel scaled to a
/// `scale` x `scale` square.
pub open spec fn glyph_cell(x: int, y: int, scale: int, p: (u32, u32)) -> (int, int) {
    ((p.0 - x) / scale, (p.1 - y) / scale)
}

/// Whether a glyph drawn at `(x, y)` with factor `scale` covers pixel `p`:
/// `p` lies in one of the glyph's 8x8 cells, and that cell's bit is set.
pub open spec fn glyph_covers(glyph: [u8; 8], x: int, y: int, scale: int, p: (u32, u32)) -> bool {
    let (cx, cy) = glyph_cell(x, y, scale, p);
    &&& scale > 0
    &&& x <= p.0
    &&& y <= p.1
    &&& cx < 8
    &&& cy < 8
    &&& glyph_bit(glyph@[cy], cx as u32)
}

proof fn lemma_cell_of_offset(a: int, s: int, q: int)
    requires
        s > 0,
        a >= 0,
        q >= 0,
    ensures
        (q * s <= a < q * s + s) <==> a / s == q,
{
    vstd::arithmetic::div_mod::lemma_fundamental_div_mod(a, s);
    vstd::arithmetic::div_mod::lemma_mod_bound(a, s);
    if q * s <= a < q * s + s {
        vstd::arithmetic::div_mod::lemma_fundamental_div_mod_converse(a, s, q, a - q * s);
    }
    if a / s == q {
        assert(a == s * q + a % s);
        assert(q * s == s * q) by (nonlinear_arith);
    }
}

/// Draw one 8x8 glyph, scaled, with its top-left corner at `(x, y)`: every
/// canvas pixel the glyph covers becomes `color`, every other pixel is kept.
pub fn blit_glyph(img: &mut KeyImage, glyph: [u8; 8], x: u32, y: u32, scale: u32, color: [u8; 3])
    requires
        well_shaped(*old(img)),
        glyph_fits(glyph, x as int, y as int, scale as int),
    ensures
        image_size(*final(img)) == image_size(*old(img)),
        well_shaped(*final(img)),
        forall|p: (u32, u32)|
            #[trigger] canvas(image_size(*old(img))).contains(p) ==> image_pixels(*final(img))[p]
                == if glyph_covers(glyph, x as int, y as int, scale as int, p) {
                color
            } else {
                image_pixels(*old(img))[p]
            },
{
    let ghost before = image_pixels(*img);
    let ghost size = image_size(*img);
    let mut gy: u32 = 0;
    while gy < GLYPH
        invariant
            gy <= 8,
            glyph_fits(glyph, x as int, y as int, scale as int),
            image_size(*img) == size,
            well_shaped(*img),
            before.dom() == canvas(size),
            forall|p: (u32, u32)|
                #[trigger] canvas(size).contains(p) ==> image_pixels(*img)[p] == if glyph_covers(
                    glyph,
                    x as int,
                    y as int,
                    scale as int,
                    p,
                ) && glyph_cell(x as int, y as int, scale as int, p).1 < gy {
                    color
                } else {
                    before[p]
                },
        decreases 8 - gy,
    {
        let row_bits = glyph[gy as usize];
        let mut gx: u32 = 0;
        while gx < GLYPH
            invariant
                gy < 8,
                gx <= 8,
                row_bits == glyph@[gy as int],
                glyph_fits(glyph, x as int, y as int, scale as int),
                image_size(*img) == size,
                well_shaped(*img),
                before.dom() == canvas(size),
                forall|p: (u32, u32)|
                    #[trigger] canvas(size).contains(p) ==> image_pixels(*img)[p] == if glyph_covers(
                        glyph,
                        x as int,
                        y as int,
                        scale as int,
                        p,
                    ) && ({
                        let c = glyph_cell(x as int, y as int, scale as int, p);
                        c.1 < gy || (c.1 == gy && c.0 < gx)
                    }) {
                        color
                    } else {
                        before[p]
                    },
            decreases 8 - gx,
        {
            if row_bits & (1u8 << gx) != 0 {
                assert(glyph_bit(glyph@[gy as int], gx));
                assert(cell_fits(x as int, gx as int, scale as int) && cell_fits(
                    y as int,
                    gy as int,
                    scale as int,
                ));
                assert(gx * scale <= x + gx * scale && gy * scale <= y + gy * scale);
                let px0 = x + gx * scale;
                let py0 = y + gy * scale;
                let ghost mid = image_pixels(*img);
                fill_square(img, px0, py0, scale, color);
                assert forall|p: (u32, u32)| #[trigger] canvas(size).contains(p) implies image_pixels(
                    *img,
                )[p] == if glyph_covers(glyph, x as int, y as int, scale as int, p) && ({
                    let c = glyph_cell(x as int, y as int, scale as int, p);
                    c.1 < gy || (c.1 == gy && c.0 < gx + 1)
                }) {
                    color
                } else {
                    before[p]
                } by {
                    if x <= p.0 && y <= p.1 && scale > 0 {
                        lemma_cell_of_offset(p.0 - x, scale as int, gx as int);
                        lemma_cell_of_offset(p.1 - y, scale as int, gy as int);
                    }
                }
            } else {
                assert forall|p: (u32, u32)| #[trigger] canvas(size).contains(p) implies image_pixels(
                    *img,
                )[p] == if glyph_covers(glyph, x as int, y as int, scale as int, p) && ({
                    let c = glyph_cell(x as int, y as int, scale as int, p);
                    c.1 < gy || (c.1 == gy && c.0 < gx + 1)
                }) {
                    color
                } else {
                    before[p]
                } by {}
            }
            gx = gx + 1;
        }
        gy = gy + 1;
    }
}

/// A line without the carriage return that ends it, if any.
pub open spec fn strip_cr(line: Seq<char>) -> Seq<char> {
    if line.len() > 0 && line.last() == '\r' {
        line.drop_last()
    } else {
        line
    }
}

/// Scanning `s` from the left: the lines ended by a `'\n'` so far (each
/// without its `"\n"` or `"\r\n"` ending), and the unfinished last line.
pub open spec fn scan_lines(s: Seq<char>) -> (Seq<Seq<char>>, Seq<char>)
    decreases s.len(),
{
    if s.len() == 0 {
        (Seq::empty(), Seq::empty())
    } else {
        let (done, cur) = scan_lines(s.drop_last());
        if s.last() == '\n' {
            (done.push(strip_cr(cur)), Seq::empty())
        } else {
            (done, cur.push(s.last()))
        }
    }
}

/// The lines of a text, as `str::lines` splits it: lines end at `"\n"` or
/// `"\r\n"`, the ending is not part of the line, and the final line ending
/// is optional (a text ending in one has no extra empty line).
pub open spec fn text_lines_of(s: Seq<char>) -> Seq<Seq<char>> {
    let (done, cur) = scan_lines(s);
    if cur.len() > 0 {
        done.push(cur)
    } else {
        done
    }
}

/// The characters of each line, as sequences.
pub open spec fn lines_view(lines: Seq<Vec<char>>) -> Seq<Seq<char>> {
    lines.map_values(|l: Vec<char>| l@)
}

/// Split a text into its lines, each as a buffer of characters.
pub fn text_lines(text: &str) -> (r: Vec<Vec<char>>)
    ensures
        lines_view(r@) == text_lines_of(text@),
{
    let chars = chars_of(text);
    let mut done: Vec<Vec<char>> = Vec::new();
    let mut cur: Vec<char> = Vec::new();
    let mut i: usize = 0;
    while i < chars.len()
        invariant
            i <= chars@.len(),
            chars@ == text@,
            (lines_view(done@), cur@) == scan_lines(chars@.subrange(0, i as int)),
        decreases chars@.len() - i,
    {
        let ghost prefix = chars@.subrange(0, i as int);
        assert(chars@.subrange(0, i + 1).drop_last() =~= prefix);
        let c = chars[i];
        if c == '\n' {
            let n = cur.len();
            if n > 0 && cur[n - 1] == '\r' {
                cur.pop();
            }
            done.push(cur);
            cur = Vec::new();
            assert(lines_view(done@) =~= scan_lines(prefix).0.push(strip_cr(scan_lines(prefix).1)));
        } else {
            cur.push(c);
            assert(lines_view(done@) =~= scan_lines(prefix).0);
        }
        i = i + 1;
    }
    assert(chars@.subrange(0, chars@.len() as int) =~= chars@);
    if cur.len() > 0 {
        done.push(cur);
        assert(lines_view(done@) =~= text_lines_of(text@));
    }
    done
}

/// The length of the longest line.
pub open spec fn max_line_len(lines: Seq<Seq<char>>) -> nat
    decreases lines.len(),
{
    if lines.len() == 0 {
        0
    } else {
        let m = max_line_len(lines.drop_last());
        if lines.last().len() > m {
            lines.last().len()
        } else {
            m
        }
    }
}

proof fn lemma_max_line_len_bounds(lines: Seq<Seq<char>>, i: int)
    requires
        0 <= i < lines.len(),
    ensures
        lines[i].len() <= max_line_len(lines),
    decreases lines.len(),
{
    if i < lines.len() - 1 {
        lemma_max_line_len_bounds(lines.drop_last(), i);
    }
}

/// The size of a text block in glyph cells: `(columns, rows)`, the length of
/// its longest line and its number of lines.
pub fn text_extent(lines: &Vec<Vec<char>>) -> (r: (usize, usize))
    ensures
        r.0 == max_line_len(lines_view(lines@)),
        r.1 == lines@.len(),
{
    let mut cols: usize = 0;
    let mut i: usize = 0;
    while i < lines.len()
        invariant
            i <= lines@.len(),
            cols == max_line_len(lines_view(lines@.subrange(0, i as int))),
        decreases lines@.len() - i,
    {
        assert(lines_view(lines@.subrange(0, i + 1)).drop_last() =~= lines_view(
            lines@.subrange(0, i as int),
        ));
        if lines[i].len() > cols {
            cols = lines[i].len();
        }
        i = i + 1;
    }
    assert(lines@.subrange(0, lines@.len() as int) =~= lines@);
    (cols, lines.len())
}

/// The glyph drawn for a character: its own when the basic font has one,
/// else that of `'?'`, else an empty cell.
pub open spec fn glyph_of(c: char) -> [u8; 8] {
    match basic_glyph(c) {
        Some(g) => g,
        None => match basic_glyph('?') {
            Some(g) => g,
            None => [0u8, 0u8, 0u8, 0u8, 0u8, 0u8, 0u8, 0u8],
        },
    }
}

fn glyph_for(c: char) -> (g: [u8; 8])
    ensures
        g == glyph_of(c),
{
    match basic_font_glyph(c) {
        Some(g) => g,
        None => match basic_font_glyph('?') {
            Some(g) => g,
            None => [0u8, 0u8, 0u8, 0u8, 0u8, 0u8, 0u8, 0u8],
        },
    }
}

/// Where a block of `cells` glyph cells starts along a canvas side of
/// `side` pixels so that it is centred (at 0 when it does not fit).
pub open spec fn centred_start(side: int, cells: int, scale: int) -> int {
    let block = cells * GLYPH * scale;
    if block < side {
        (side - block) / 2
    } else {
        0
    }
}

/// The top-left corner of the glyph cell of character `col` of line `row`:
/// the block of lines is centred on the canvas, and each line is centred
/// within the block.
pub open spec fn char_origin(
    size: (u32, u32),
    lines: Seq<Seq<char>>,
    scale: int,
    row: int,
    col: int,
) -> (int, int) {
    let cols = max_line_len(lines) as int;
    let block_w = cols * GLYPH * scale;
    let line_w = lines[row].len() * GLYPH * scale;
    let line_x = centred_start(size.0 as int, cols, scale) + (block_w - line_w) / 2;
    let line_y = centred_start(size.1 as int, lines.len() as int, scale) + row * GLYPH * scale;
    (line_x + col * GLYPH * scale, line_y)
}

/// Whether the glyph of character `col` of line `row` covers pixel `p`.
pub open spec fn char_covers(
    size: (u32, u32),
    lines: Seq<Seq<char>>,
    scale: int,
    row: int,
    col: int,
    p: (u32, u32),
) -> bool {
    let o = char_origin(size, lines, scale, row, col);
    glyph_covers(glyph_of(lines[row][col]), o.0, o.1, scale, p)
}

/// Whether some character before position `(row, col)` (in reading order)
/// covers pixel `p`.
pub open spec fn covered_before(
    size: (u32, u32),
    lines: Seq<Seq<char>>,
    scale: int,
    row: int,
    col: int,
    p: (u32, u32),
) -> bool {
    exists|r: int, c: int|
        0 <= r < lines.len() && 0 <= c < lines[r].len() && (r < row || (r == row && c < col))
            && #[trigger] char_covers(size, lines, scale, r, c, p)
}

/// Whether some character of the text covers pixel `p`.
pub open spec fn text_covers(size: (u32, u32), lines: Seq<Seq<char>>, scale: int, p: (u32, u32)) -> bool {
    covered_before(size, lines, scale, lines.len() as int, 0, p)
}

/// Whether a text laid out at integer factor `scale` stays within `u32`
/// pixel coordinates.
pub open spec fn layout_fits(lines: Seq<Seq<char>>, scale: int) -> bool {
    &&& max_line_len(lines) * GLYPH * scale <= u32::MAX
    &&& lines.len() * GLYPH * scale <= u32::MAX
}

/// Render lines of text centred on a solid background, each glyph scaled
/// by the integer factor `scale`: every pixel some glyph covers has colour
/// `fg`, every other pixel colour `bg`.
pub fn text_at_scale(
    size: (u32, u32),
    lines: &Vec<Vec<char>>,
    fg: [u8; 3],
    bg: [u8; 3],
    scale: u32,
) -> (img: KeyImage)
    requires
        fits_in_memory(size),
        scale >= 1,
        max_line_len(lines_view(lines@)) > 0 ==> layout_fits(lines_view(lines@), scale as int),
    ensures
        image_size(img) == size,
        well_shaped(img),
        forall|p: (u32, u32)|
            #[trigger] canvas(size).contains(p) ==> image_pixels(img)[p] == if text_covers(
                size,
                lines_view(lines@),
                scale as int,
                p,
            ) {
                fg
            } else {
                bg
            },
{
    let ghost ls = lines_view(lines@);
    let mut img = solid(size, bg);
    let (cols_n, rows_n) = text_extent(lines);
    if cols_n == 0 || rows_n == 0 {
        assert forall|p: (u32, u32)| #[trigger] canvas(size).contains(p) implies !text_covers(
            size,
            ls,
            scale as int,
            p,
        ) by {
            if rows_n == 0 {
                assert(max_line_len(ls) == 0);
            }
            law_blank_text_covers_nothing(size, ls, scale as int, p);
        }
        return img;
    }
    assert(cols_n * GLYPH * scale <= u32::MAX);
    assert(cols_n * GLYPH <= cols_n * GLYPH * scale) by (nonlinear_arith)
        requires
            scale >= 1,
    ;
    assert(rows_n * GLYPH <= rows_n * GLYPH * scale) by (nonlinear_arith)
        requires
            scale >= 1,
    ;
    let cols = cols_n as u32;
    let rows = rows_n as u32;
    let block_w = cols * GLYPH * scale;
    let block_h = rows * GLYPH * scale;
    let block_x = size.0.saturating_sub(block_w) / 2;
    let block_y = size.1.saturating_sub(block_h) / 2;
    let mut row: usize = 0;
    while row < rows_n
        invariant
            ls == lines_view(lines@),
            rows_n == lines@.len(),
            cols_n == max_line_len(ls),
            cols == cols_n,
            rows == rows_n,
            row <= rows_n,
            scale >= 1,
            layout_fits(ls, scale as int),
            block_w == cols * GLYPH * scale,
            block_h == rows * GLYPH * scale,
            block_x == centred_start(size.0 as int, cols as int, scale as int),
            block_y == centred_start(size.1 as int, rows as int, scale as int),
            image_size(img) == size,
            well_shaped(img),
            forall|p: (u32, u32)|
                #[trigger] canvas(size).contains(p) ==> image_pixels(img)[p] == if covered_before(
                    size,
                    ls,
                    scale as int,
                    row as int,
                    0,
                    p,
                ) {
                    fg
                } else {
                    bg
                },
        decreases rows_n - row,
    {
        let line = &lines[row];
        let len = line.len();
        proof {
            lemma_max_line_len_bounds(ls, row as int);
            assert(len * GLYPH * scale <= cols * GLYPH * scale) by (nonlinear_arith)
                requires
                    len <= cols,
            ;
            assert(row * GLYPH * scale + GLYPH * scale <= rows * GLYPH * scale) by (nonlinear_arith)
                requires
                    row < rows,
            ;
            assert(len * GLYPH <= len * GLYPH * scale) by (nonlinear_arith)
                requires
                    scale >= 1,
            ;
            assert(row * GLYPH <= row * GLYPH * scale) by (nonlinear_arith)
                requires
                    scale >= 1,
            ;
            if block_h < size.1 {
                assert(block_y + block_h <= size.1);
            } else {
                assert(block_y == 0);
            }
        }
        let line_w = (len as u32) * GLYPH * scale;
        let line_x = block_x + block_w.saturating_sub(line_w) / 2;
        let line_y = block_y + (row as u32) * GLYPH * scale;
        let mut col: usize = 0;
        while col < len
            invariant
                ls == lines_view(lines@),
                rows_n == lines@.len(),
                cols_n == max_line_len(ls),
                cols == cols_n,
                rows == rows_n,
                row < rows_n,
                *line == lines@[row as int],
                len == line@.len(),
                len <= cols,
                col <= len,
                scale >= 1,
                block_w == cols * GLYPH * scale,
                block_x == centred_start(size.0 as int, cols as int, scale as int),
                block_y == centred_start(size.1 as int, rows as int, scale as int),
                line_w == len * GLYPH * scale,
                line_w <= block_w,
                block_w <= u32::MAX,
                line_x == block_x + (block_w - line_w) / 2,
                line_y == block_y + row * GLYPH * scale,
                line_y + GLYPH * scale <= u32::MAX,
                image_size(img) == size,
                well_shaped(img),
                forall|p: (u32, u32)|
                    #[trigger] canvas(size).contains(p) ==> image_pixels(img)[p] == if covered_before(
                        size,
                        ls,
                        scale as int,
                        row as int,
                        col as int,
                        p,
                    ) {
                        fg
                    } else {
                        bg
                    },
            decreases len - col,
        {
            proof {
                assert(col * GLYPH * scale + GLYPH * scale <= len * GLYPH * scale) by (nonlinear_arith)
                    requires
                        col < len,
                ;
                assert(col * GLYPH <= col * GLYPH * scale) by (nonlinear_arith)
                    requires
                        scale >= 1,
                ;
                if block_w < size.0 {
                    assert(block_x + block_w <= size.0);
                } else {
                    assert(block_x == 0);
                }
            }
            let glyph = glyph_for(line[col]);
            let gx = line_x + (col as u32) * GLYPH * scale;
            proof {
                assert forall|gy: int, g: u32|
                    0 <= gy < 8 && g < 8 && #[trigger] glyph_bit(glyph@[gy], g) implies cell_fits(
                    gx as int,
                    g as int,
                    scale as int,
                ) && cell_fits(line_y as int, gy, scale as int) by {
                    assert(g * scale + scale <= GLYPH * scale) by (nonlinear_arith)
                        requires
                            g < 8,
                            scale >= 1,
                    ;
                    assert(gy * scale + scale <= GLYPH * scale) by (nonlinear_arith)
                        requires
                            gy < 8,
                            scale >= 1,
                    ;
                }
            }
            let ghost before = image_pixels(img);
            blit_glyph(&mut img, glyph, gx, line_y, scale, fg);
            proof {
                assert(ls[row as int] == line@);
                assert(char_origin(size, ls, scale as int, row as int, col as int) == (
                    gx as int,
                    line_y as int,
                ));
                assert forall|p: (u32, u32)| #[trigger] canvas(size).contains(p) implies image_pixels(
                    img,
                )[p] == if covered_before(size, ls, scale as int, row as int, col + 1, p) {
                    fg
                } else {
                    bg
                } by {
                    if char_covers(size, ls, scale as int, row as int, col as int, p) {
                        assert(covered_before(size, ls, scale as int, row as int, col + 1, p));
                    } else if covered_before(size, ls, scale as int, row as int, col as int, p) {
                        let (r, c) = choose|r: int, c: int|
                            0 <= r < ls.len() && 0 <= c < ls[r].len() && (r < row || (r == row
                                && c < col)) && #[trigger] char_covers(
                                size,
                                ls,
                                scale as int,
                                r,
                                c,
                                p,
                            );
                        assert(covered_before(size, ls, scale as int, row as int, col + 1, p));
                    } else {
                        if covered_before(size, ls, scale as int, row as int, col + 1, p) {
                            let (r, c) = choose|r: int, c: int|
                                0 <= r < ls.len() && 0 <= c < ls[r].len() && (r < row || (r
                                    == row && c < col + 1)) && #[trigger] char_covers(
                                    size,
                                    ls,
                                    scale as int,
                                    r,
                                    c,
                                    p,
                                );
                            assert(false);
                        }
                    }
                }
            }
            col = col + 1;
        }
        proof {
            assert forall|p: (u32, u32)| #[trigger] canvas(size).contains(p) implies image_pixels(
                img,
            )[p] == if covered_before(size, ls, scale as int, row + 1, 0, p) {
                fg
            } else {
                bg
            } by {
                if covered_before(size, ls, scale as int, row as int, len as int, p) {
                    let (r, c) = choose|r: int, c: int|
                        0 <= r < ls.len() && 0 <= c < ls[r].len() && (r < row || (r == row && c
                            < len)) && #[trigger] char_covers(size, ls, scale as int, r, c, p);
                    assert(covered_before(size, ls, scale as int, row + 1, 0, p));
                }
                if covered_before(size, ls, scale as int, row + 1, 0, p) {
                    let (r, c) = choose|r: int, c: int|
                        0 <= r < ls.len() && 0 <= c < ls[r].len() && (r < row + 1 || (r == row
                            + 1 && c < 0)) && #[trigger] char_covers(size, ls, scale as int, r, c, p);
                    assert(covered_before(size, ls, scale as int, row as int, len as int, p));
                }
            }
        }
        row = row + 1;
    }
    img
}

/// A text without any character (no line, or only empty lines) covers no
/// pixel, so its image is pure background.
pub proof fn law_blank_text_covers_nothing(
    size: (u32, u32),
    lines: Seq<Seq<char>>,
    scale: int,
    p: (u32, u32),
)
    requires
        max_line_len(lines) == 0,
    ensures
        !text_covers(size, lines, scale, p),
{
    if text_covers(size, lines, scale, p) {
        let (r, c) = choose|r: int, c: int|
            0 <= r < lines.len() && 0 <= c < lines[r].len() && (r < lines.len() || (r
                == lines.len() && c < 0)) && #[trigger] char_covers(size, lines, scale, r, c, p);
        lemma_max_line_len_bounds(lines, r);
    }
}

proof fn lemma_glyph_cover_extent(glyph: [u8; 8], x: int, y: int, scale: int, p: (u32, u32))
    requires
        glyph_covers(glyph, x, y, scale, p),
    ensures
        x <= p.0 < x + GLYPH * scale,
        y <= p.1 < y + GLYPH * scale,
{
    let a = p.0 - x;
    let b = p.1 - y;
    vstd::arithmetic::div_mod::lemma_fundamental_div_mod(a, scale);
    vstd::arithmetic::div_mod::lemma_mod_bound(a, scale);
    vstd::arithmetic::div_mod::lemma_fundamental_div_mod(b, scale);
    vstd::arithmetic::div_mod::lemma_mod_bound(b, scale);
    let qa = a / scale;
    let qb = b / scale;
    assert(scale * qa <= scale * 7) by (nonlinear_arith)
        requires
            qa <= 7,
            scale > 0,
    ;
    assert(scale * qb <= scale * 7) by (nonlinear_arith)
        requires
            qb <= 7,
            scale > 0,
    ;
}

/// Line `r` of a text (0-based, in text order) is drawn in the band of
/// glyph rows starting at `r * 8 * scale` below the top of the centred
/// block: every pixel a glyph of that line covers lies in that band.
pub proof fn law_text_line_band(
    size: (u32, u32),
    lines: Seq<Seq<char>>,
    scale: int,
    r: int,
    c: int,
    p: (u32, u32),
)
    requires
        0 <= r < lines.len(),
        0 <= c < lines[r].len(),
        char_covers(size, lines, scale, r, c, p),
    ensures
        centred_start(size.1 as int, lines.len() as int, scale) + r * 8 * scale <= p.1,
        p.1 < centred_start(size.1 as int, lines.len() as int, scale) + (r + 1) * 8 * scale,
{
    let o = char_origin(size, lines, scale, r, c);
    lemma_glyph_cover_extent(glyph_of(lines[r][c]), o.0, o.1, scale, p);
    assert((r + 1) * 8 * scale == r * 8 * scale + 8 * scale) by (nonlinear_arith);
}

/// Lines are laid out top to bottom in text order: every pixel drawn for
/// an earlier line lies above every pixel drawn for a later line.
pub proof fn law_text_lines_top_to_bottom(
    size: (u32, u32),
    lines: Seq<Seq<char>>,
    scale: int,
    r1: int,
    c1: int,
    p: (u32, u32),
    r2: int,
    c2: int,
    q: (u32, u32),
)
    requires
        0 <= r1 < r2 < lines.len(),
        0 <= c1 < lines[r1].len(),
        0 <= c2 < lines[r2].len(),
        char_covers(size, lines, scale, r1, c1, p),
        char_covers(size, lines, scale, r2, c2, q),
    ensures
        p.1 < q.1,
{
    law_text_line_band(size, lines, scale, r1, c1, p);
    law_text_line_band(size, lines, scale, r2, c2, q);
    assert((r1 + 1) * 8 * scale <= r2 * 8 * scale) by (nonlinear_arith)
        requires
            r1 + 1 <= r2,
            scale >= 0,
    ;
}

/// Within a line, characters are laid out left to right in text order, one
/// `8 * scale` wide cell each: every pixel drawn for a character lies left of
/// every pixel drawn for a later character of the same line, exactly
/// `(c2 - c1) * 8 * scale` further right cell by cell.
pub proof fn law_text_chars_left_to_right(
    size: (u32, u32),
    lines: Seq<Seq<char>>,
    scale: int,
    r: int,
    c1: int,
    p: (u32, u32),
    c2: int,
    q: (u32, u32),
)
    requires
        0 <= r < lines.len(),
        0 <= c1 < c2 < lines[r].len(),
        char_covers(size, lines, scale, r, c1, p),
        char_covers(size, lines, scale, r, c2, q),
    ensures
        p.0 < q.0,
        q.0 - p.0 > (c2 - c1 - 1) * 8 * scale,
{
    let o1 = char_origin(size, lines, scale, r, c1);
    let o2 = char_origin(size, lines, scale, r, c2);
    lemma_glyph_cover_extent(glyph_of(lines[r][c1]), o1.0, o1.1, scale, p);
    lemma_glyph_cover_extent(glyph_of(lines[r][c2]), o2.0, o2.1, scale, q);
    assert(o2.0 - o1.0 == (c2 - c1) * 8 * scale) by (nonlinear_arith)
        requires
            o1.0 - c1 * GLYPH * scale == o2.0 - c2 * GLYPH * scale,
    ;
    assert((c2 - c1) * 8 * scale == (c2 - c1 - 1) * 8 * scale + 8 * scale) by (nonlinear_arith);
    assert((c2 - c1 - 1) * 8 * scale >= 0) by (nonlinear_arith)
        requires
            c2 - c1 - 1 >= 0,
            scale > 0,
    ;
}

} // verus!
