//! Conversions between a row-major sequence of raw RGBA bytes (the form in
//! which a decoded image arrives and in which the resampler works) and the
//! grid of pixels of the model.

use vstd::prelude::*;

use crate::model::ImgV;
use crate::pixel::Pixel;

verus! {

/// The sequence of per-row views of a vector of rows.
pub open spec fn rows_view(rows: Seq<Vec<Pixel>>) -> Seq<Seq<Pixel>> {
    rows.map_values(|row: Vec<Pixel>| row@)
}

/// The `i`-th pixel of a flat RGBA byte sequence.
pub open spec fn pixel_at_bytes(bytes: Seq<u8>, i: int) -> Pixel {
    Pixel { r: bytes[4 * i], g: bytes[4 * i + 1], b: bytes[4 * i + 2], a: bytes[4 * i + 3] }
}

/// A `w` by `h` pixel grid read row-major from a flat RGBA byte sequence.
pub open spec fn rows_of_bytes(bytes: Seq<u8>, w: int, h: int) -> Seq<Seq<Pixel>> {
    Seq::new(h as nat, |y: int| Seq::new(w as nat, |x: int| pixel_at_bytes(bytes, y * w + x)))
}

/// The buffer model read row-major from a flat RGBA byte sequence.
pub open spec fn img_of_bytes(bytes: Seq<u8>, w: int, h: int) -> ImgV {
    ImgV { w: w, h: h, px: rows_of_bytes(bytes, w, h) }
}

/// The `i`-th byte of the row-major RGBA serialization of a buffer.
pub open spec fn byte_of_img(v: ImgV, i: int) -> u8 {
    let p = i / 4;
    let c = i % 4;
    let y = p / v.w;
    let x = p % v.w;
    let px = v.px[y][x];
    if c == 0 {
        px.r
    } else if c == 1 {
        px.g
    } else if c == 2 {
        px.b
    } else {
        px.a
    }
}

/// The row-major RGBA serialization of a buffer.
pub open spec fn bytes_of_img(v: ImgV) -> Seq<u8> {
    Seq::new((4 * v.w * v.h) as nat, |i: int| byte_of_img(v, i))
}

/// Index arithmetic connecting a channel of the pixel at `(x, y)` to its
/// position in the flat byte sequence.
pub proof fn lemma_pixel_index(w: int, x: int, y: int, c: int)
    requires
        w >= 1,
        0 <= x < w,
        0 <= y,
        0 <= c < 4,
    ensures
        (4 * (y * w + x) + c) / 4 == y * w + x,
        (4 * (y * w + x) + c) % 4 == c,
        (y * w + x) / w == y,
        (y * w + x) % w == x,
{
    vstd::arithmetic::div_mod::lemma_fundamental_div_mod_converse(
        4 * (y * w + x) + c,
        4,
        y * w + x,
        c,
    );
    vstd::arithmetic::div_mod::lemma_fundamental_div_mod_converse(y * w + x, w, y, x);
}

/// A pixel index within the grid lies within the flat pixel count.
pub proof fn lemma_pixel_index_bound(w: int, h: int, x: int, y: int)
    requires
        w >= 1,
        0 <= x < w,
        0 <= y < h,
    ensures
        0 <= y * w + x,
        y * w + x < w * h,
{
    assert(0 <= y * w + x && y * w + x < w * h) by (nonlinear_arith)
        requires
            w >= 1,
            0 <= x < w,
            0 <= y < h,
    ;
}

/// Builds the pixel grid that a flat RGBA byte vector describes.
pub fn rows_from_bytes(bytes: &Vec<u8>, w: u32, h: u32) -> (rows: Vec<Vec<Pixel>>)
    requires
        w >= 1,
        h >= 1,
        4 * (w as int) * (h as int) <= i32::MAX as int,
        bytes@.len() == 4 * (w as int) * (h as int),
    ensures
        rows@.len() == h as int,
        rows_view(rows@) == rows_of_bytes(bytes@, w as int, h as int),
{
    let ghost target = rows_of_bytes(bytes@, w as int, h as int);
    let mut rows: Vec<Vec<Pixel>> = Vec::new();
    let mut y: u32 = 0;
    let mut idx: usize = 0;
    while y < h
        invariant
            y <= h,
            w >= 1,
            h >= 1,
            4 * (w as int) * (h as int) <= i32::MAX as int,
            bytes@.len() == 4 * (w as int) * (h as int),
            idx == 4 * ((y as int) * (w as int)),
            rows@.len() == y as int,
            target == rows_of_bytes(bytes@, w as int, h as int),
            forall|yy: int| 0 <= yy < y as int ==> (#[trigger] rows@[yy])@ == target[yy],
        decreases h - y,
    {
        let mut row: Vec<Pixel> = Vec::new();
        let mut x: u32 = 0;
        while x < w
            invariant
                x <= w,
                y < h,
                w >= 1,
                h >= 1,
                4 * (w as int) * (h as int) <= i32::MAX as int,
                bytes@.len() == 4 * (w as int) * (h as int),
                idx == 4 * ((y as int) * (w as int) + x as int),
                row@.len() == x as int,
                forall|xx: int| 0 <= xx < x as int ==> row@[xx] == pixel_at_bytes(
                    bytes@,
                    (y as int) * (w as int) + xx,
                ),
            decreases w - x,
        {
            proof {
                lemma_pixel_index_bound(w as int, h as int, x as int, y as int);
                assert(4 * ((y as int) * (w as int) + x as int) + 4 <= 4 * (w as int) * (h as int))
                    by (nonlinear_arith)
                    requires
                        ((y as int) * (w as int) + (x as int)) < (w as int) * (h as int),
                ;
            }
            let p = Pixel { r: bytes[idx], g: bytes[idx + 1], b: bytes[idx + 2], a: bytes[idx + 3] };
            row.push(p);
            idx = idx + 4;
            x = x + 1;
        }
        proof {
            assert(((y as int) + 1) * (w as int) == (y as int) * (w as int) + (w as int))
                by (nonlinear_arith);
            assert(row@ == target[y as int]) by {
                assert(row@.len() == target[y as int].len());
                assert(forall|xx: int| 0 <= xx < w as int ==> row@[xx] == target[y as int][xx]);
                assert(row@ =~= target[y as int]);
            }
        }
        rows.push(row);
        y = y + 1;
    }
    proof {
        assert(rows_view(rows@) =~= rows_of_bytes(bytes@, w as int, h as int));
    }
    rows
}

} // verus!
