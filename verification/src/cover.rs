//! The cover preview: a book's cover, in grey levels, scaled to the
//! terminal and drawn with characters from light to dark.

use vstd::prelude::*;
use crate::text::{from_chars, views};

verus! {

// ----------------------------------------------------------------------
// Scaling, through the image crate
// ----------------------------------------------------------------------

/// The grey levels, row by row, of a `width` x `height` grey image scaled
/// to `new_width` x `new_height` with the triangle (bilinear) filter of
/// `image::imageops::resize`.
pub uninterp spec fn luma_resized(
    width: u32,
    height: u32,
    pixels: Seq<u8>,
    new_width: u32,
    new_height: u32,
) -> Seq<u8>;

/// The sizes for which `image::imageops::resize` on a grey image neither
/// overflows a buffer length nor panics: the result's length fits in
/// `usize`, and so does the length of the four-channel intermediate image
/// that it samples through (computed as 4 times the width, then times the
/// new height), unless the image is empty or keeps its size.
pub open spec fn resize_fits(width: u32, height: u32, new_width: u32, new_height: u32) -> bool {
    &&& new_width * new_height <= usize::MAX
    &&& (width == 0 || height == 0 || (new_width == width && new_height == height) || (4 * width
        <= usize::MAX && 4 * width * new_height <= usize::MAX))
}

/// `image::imageops::resize` with `FilterType::Triangle`, on the grey
/// image `width` x `height` whose pixels are given row by row. Claimed:
/// the result is `luma_resized` of the arguments and holds
/// `new_width * new_height` pixels (the result buffer is made with the
/// new dimensions, one byte per pixel). What each pixel is, is left to
/// the name.
#[verifier::external_body]
fn resize_luma(width: u32, height: u32, pixels: Vec<u8>, new_width: u32, new_height: u32) -> (r: Vec<
    u8,
>)
    requires
        pixels@.len() == width * height,
        resize_fits(width, height, new_width, new_height),
    ensures
        r@ == luma_resized(width, height, pixels@, new_width, new_height),
        r@.len() == new_width * new_height,
{
    let img = image::GrayImage::from_raw(width, height, pixels).unwrap();
    image::imageops::resize(&img, new_width, new_height, image::imageops::FilterType::Triangle).into_raw()
}

// ----------------------------------------------------------------------
// Drawing
// ----------------------------------------------------------------------

/// The characters from light to dark.
pub open spec fn palette() -> Seq<char> {
    seq![' ', '.', ':', '-', '=', '+', '*', '#', '%', '@']
}

/// The character drawn for a grey level.
pub open spec fn shade(v: u8) -> char {
    palette()[(v as int * 9) / 255]
}

/// Row `y` of an image `width` pixels wide, drawn.
pub open spec fn ascii_line(pixels: Seq<u8>, width: nat, y: nat) -> Seq<char> {
    Seq::new(width, |x: int| shade(pixels[y * width + x]))
}

/// All rows of an image, drawn.
pub open spec fn ascii_art(pixels: Seq<u8>, width: nat, height: nat) -> Seq<Seq<char>> {
    Seq::new(height, |y: int| ascii_line(pixels, width, y as nat))
}

/// The terminal width used: at least 40 columns.
pub open spec fn preview_width(cols: u16) -> u32 {
    if cols < 40 {
        40
    } else {
        cols as u32
    }
}

/// The number of rows drawn: six fewer than the terminal's (taken as at
/// least 10), and at least 8.
pub open spec fn preview_height(rows: u16) -> u32 {
    let r: int = if rows < 10 {
        10
    } else {
        rows as int
    };
    if r - 6 < 8 {
        8
    } else {
        (r - 6) as u32
    }
}

/// The title line: `Xem truoc bia` between two runs of `=` that fill the
/// width, each `(width - 16) / 2` long.
pub open spec fn banner_text(cols: u16) -> Seq<char> {
    let n = ((preview_width(cols) - 16) / 2) as nat;
    Seq::new(n, |i: int| '=') + "Xem truoc bia"@ + Seq::new(n, |i: int| '=')
}

/// The character for a grey level.
pub fn shade_char(v: u8) -> (r: char)
    ensures
        r == shade(v),
{
    let idx = (v as u32) * 9 / 255;
    assert(idx < 10) by (nonlinear_arith)
        requires
            idx == (v as u32) * 9 / 255,
            v <= 255,
    ;
    match idx {
        0 => ' ',
        1 => '.',
        2 => ':',
        3 => '-',
        4 => '=',
        5 => '+',
        6 => '*',
        7 => '#',
        8 => '%',
        _ => '@',
    }
}

/// Draws a grey image given row by row: one line of characters per row.
pub fn ascii_art_lines(pixels: &[u8], width: u32, height: u32) -> (r: Vec<String>)
    requires
        pixels@.len() == width * height,
    ensures
        views(r@) == ascii_art(pixels@, width as nat, height as nat),
{
    let w = width as usize;
    let h = height as usize;
    let total = pixels.len();
    let mut out: Vec<String> = Vec::new();
    for y in 0..h
        invariant
            w == width,
            h == height,
            total == pixels@.len(),
            pixels@.len() == w * h,
            views(out@) == ascii_art(pixels@, w as nat, h as nat).take(y as int),
    {
        let mut line: Vec<char> = Vec::new();
        for x in 0..w
            invariant
                w == width,
                h == height,
                y < h,
                total == pixels@.len(),
                pixels@.len() == w * h,
                line@ == ascii_line(pixels@, w as nat, y as nat).take(x as int),
        {
            assert(y * w + x < total && y * w <= y * w + x) by (nonlinear_arith)
                requires
                    y < h,
                    x < w,
                    total == w * h,
            ;
            let c = shade_char(pixels[y * w + x]);
            line.push(c);
            assert(line@ =~= ascii_line(pixels@, w as nat, y as nat).take(x + 1));
        }
        let s = from_chars(line.as_slice());
        let ghost before = out@;
        out.push(s);
        proof {
            assert(views(out@) =~= views(before).push(line@));
            assert(line@ =~= ascii_line(pixels@, w as nat, y as nat));
            assert(views(out@) =~= ascii_art(pixels@, w as nat, h as nat).take(y + 1));
        }
    }
    assert(ascii_art(pixels@, w as nat, h as nat).take(h as int) =~= ascii_art(
        pixels@,
        w as nat,
        h as nat,
    ));
    out
}

/// The title line of the preview.
pub fn cover_banner(cols: u16) -> (r: String)
    ensures
        r@ == banner_text(cols),
{
    let width: u32 = if cols < 40 {
        40
    } else {
        cols as u32
    };
    let n = (width - 16) / 2;
    let mut bar: Vec<char> = Vec::new();
    for i in 0..n
        invariant
            bar@ == Seq::new(i as nat, |k: int| '='),
    {
        bar.push('=');
        assert(bar@ =~= Seq::new((i + 1) as nat, |k: int| '='));
    }
    let mut s = from_chars(bar.as_slice());
    s.append("Xem truoc bia");
    let tail = from_chars(bar.as_slice());
    s.append(tail.as_str());
    s
}

/// Whether the cover of a `width` x `height` image can be previewed on a
/// terminal of `cols` x `rows`: the size condition of the scaling.
pub fn preview_fits(cols: u16, rows: u16, width: u32, height: u32) -> (r: bool)
    ensures
        r == resize_fits(width, height, preview_width(cols), preview_height(rows)),
{
    let nw: u64 = if cols < 40 {
        40
    } else {
        cols as u64
    };
    let r0: u64 = if rows < 10 {
        10
    } else {
        rows as u64
    };
    let nh: u64 = if r0 - 6 < 8 {
        8
    } else {
        r0 - 6
    };
    let max = usize::MAX as u64;
    assert(nw * nh <= 0xffff * 0xffff) by (nonlinear_arith)
        requires
            nw <= 0xffff,
            nh <= 0xffff,
    ;
    assert(4 * (width as u64) * nh <= 4 * 0xffff_ffff * 0xffff) by (nonlinear_arith)
        requires
            width <= 0xffff_ffff,
            nh <= 0xffff,
    ;
    let out_ok = nw * nh <= max;
    let same = nw == width as u64 && nh == height as u64;
    out_ok && (width == 0 || height == 0 || same || (4 * (width as u64) <= max && 4 * (width as u64)
        * nh <= max))
}

/// The cover preview for a terminal of `cols` x `rows`: the title line,
/// then the grey image (`width` x `height`, row by row) scaled to the
/// preview's width and height and drawn.
pub fn preview_cover_ascii(cols: u16, rows: u16, width: u32, height: u32, pixels: Vec<u8>) -> (r: Vec<
    String,
>)
    requires
        pixels@.len() == width * height,
        resize_fits(width, height, preview_width(cols), preview_height(rows)),
    ensures
        r@.len() >= 1,
        r@[0]@ == banner_text(cols),
        views(r@).drop_first() == ascii_art(
            luma_resized(width, height, pixels@, preview_width(cols), preview_height(rows)),
            preview_width(cols) as nat,
            preview_height(rows) as nat,
        ),
{
    let target_w: u32 = if cols < 40 {
        40
    } else {
        cols as u32
    };
    let r0: u32 = if rows < 10 {
        10
    } else {
        rows as u32
    };
    let target_h: u32 = if r0 - 6 < 8 {
        8
    } else {
        r0 - 6
    };
    let resized = resize_luma(width, height, pixels, target_w, target_h);
    let art = ascii_art_lines(resized.as_slice(), target_w, target_h);
    let mut out: Vec<String> = Vec::new();
    out.push(cover_banner(cols));
    let n = art.len();
    for i in 0..n
        invariant
            n == art@.len(),
            out@.len() == i + 1,
            out@[0]@ == banner_text(cols),
            views(out@).drop_first() == views(art@).take(i as int),
    {
        out.push(art[i].clone());
        assert(views(out@).drop_first() =~= views(art@).take(i + 1));
    }
    assert(views(art@).take(n as int) =~= views(art@));
    out
}

} // verus!
