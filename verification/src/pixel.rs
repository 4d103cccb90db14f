//! Pixels and the per-pixel arithmetic of the pipeline: the brightness
//! formula, the directional blend, and the four-probe push operators.

use vstd::prelude::*;

verus! {

/// One RGBA pixel, 8 bits per channel. Between the luminance stage and the
/// final push-gradient stage, `a` holds a brightness / inverse-edge-strength
/// proxy rather than true opacity.
#[derive(Clone, Copy, PartialEq, Eq, Structural, Debug)]
pub struct Pixel {
    pub r: u8,
    pub g: u8,
    pub b: u8,
    pub a: u8,
}

/// Three-way clamp on mathematical integers.
pub open spec fn clampi(v: int, lo: int, hi: int) -> int {
    if v < lo {
        lo
    } else if v > hi {
        hi
    } else {
        v
    }
}

/// Three-way clamp on unsigned 32-bit values.
pub fn clamp(val: u32, lo: u32, hi: u32) -> (r: u32)
    ensures
        r == clampi(val as int, lo as int, hi as int),
{
    if val < lo {
        lo
    } else if val > hi {
        hi
    } else {
        val
    }
}

/// The channels of a pixel as a `(r, g, b, a)` tuple.
pub fn extract_pixel_rgba(pixel: &Pixel) -> (rgba: (u8, u8, u8, u8))
    ensures
        rgba.0 == pixel.r,
        rgba.1 == pixel.g,
        rgba.2 == pixel.b,
        rgba.3 == pixel.a,
{
    (pixel.r, pixel.g, pixel.b, pixel.a)
}

/// Brightness of an RGB triple: `(2r + 3g + b) / 6` with integer division,
/// a perceptual luma approximation. Always within [0, 255].
pub open spec fn brightness_spec(r: u8, g: u8, b: u8) -> int {
    (2 * (r as int) + 3 * (g as int) + (b as int)) / 6
}

pub proof fn lemma_brightness_bounds(r: u8, g: u8, b: u8)
    ensures
        0 <= brightness_spec(r, g, b) <= 255,
{
}

/// Perceptual brightness of an RGB triple, `(2r + 3g + b) / 6`.
pub fn get_brightness(r: u8, g: u8, b: u8) -> (v: u32)
    ensures
        v == brightness_spec(r, g, b),
        v <= 255,
{
    (r as u32 + r as u32 + g as u32 + g as u32 + g as u32 + b as u32) / 6
}

/// Blend weights above 255 saturate to full replacement.
pub open spec fn strength_capped(s: u16) -> int {
    if s > 255 {
        255
    } else {
        s as int
    }
}

/// One channel of the directional blend:
/// `(c * (255 - s) + avg(n1, n2, n3) * s) / 255` where `s` is the strength
/// saturated to 255 and the average uses integer division by 3.
pub open spec fn blend_channel_spec(c: u8, n1: u8, n2: u8, n3: u8, s: u16) -> int {
    let t = strength_capped(s);
    ((c as int) * (255 - t) + ((n1 as int + n2 as int + n3 as int) / 3) * t) / 255
}

pub proof fn lemma_blend_channel_bounds(c: u8, n1: u8, n2: u8, n3: u8, s: u16)
    ensures
        0 <= blend_channel_spec(c, n1, n2, n3, s) <= 255,
{
    let t = strength_capped(s);
    let avg = (n1 as int + n2 as int + n3 as int) / 3;
    assert((c as int) * (255 - t) + avg * t <= 255 * 255) by (nonlinear_arith)
        requires
            0 <= c <= 255,
            0 <= avg <= 255,
            0 <= t <= 255,
    ;
    assert((c as int) * (255 - t) + avg * t >= 0) by (nonlinear_arith)
        requires
            0 <= c,
            0 <= avg,
            0 <= t <= 255,
    ;
}

/// One channel of the directional blend, computed in 32-bit arithmetic.
fn blend_channel(c: u8, n1: u8, n2: u8, n3: u8, strength: u16) -> (r: u8)
    ensures
        r as int == blend_channel_spec(c, n1, n2, n3, strength),
{
    let t: u32 = if strength > 255 {
        255
    } else {
        strength as u32
    };
    let avg: u32 = (n1 as u32 + n2 as u32 + n3 as u32) / 3;
    proof {
        lemma_blend_channel_bounds(c, n1, n2, n3, strength);
    }
    ((c as u32 * (255 - t) + avg * t) / 255) as u8
}

/// The directional blend applied to each of the four channels.
pub open spec fn blend_pixel_spec(cc: Pixel, p1: Pixel, p2: Pixel, p3: Pixel, s: u16) -> Pixel {
    Pixel {
        r: blend_channel_spec(cc.r, p1.r, p2.r, p3.r, s) as u8,
        g: blend_channel_spec(cc.g, p1.g, p2.g, p3.g, s) as u8,
        b: blend_channel_spec(cc.b, p1.b, p2.b, p3.b, s) as u8,
        a: blend_channel_spec(cc.a, p1.a, p2.a, p3.a, s) as u8,
    }
}

/// Blend `cc` toward the average of `a`, `b`, `c` with the given strength.
pub fn get_alpha_avg(cc: &Pixel, a: &Pixel, b: &Pixel, c: &Pixel, strength: u16) -> (p: Pixel)
    ensures
        p == blend_pixel_spec(*cc, *a, *b, *c, strength),
{
    proof {
        lemma_blend_channel_bounds(cc.r, a.r, b.r, c.r, strength);
        lemma_blend_channel_bounds(cc.g, a.g, b.g, c.g, strength);
        lemma_blend_channel_bounds(cc.b, a.b, b.b, c.b, strength);
        lemma_blend_channel_bounds(cc.a, a.a, b.a, c.a, strength);
    }
    Pixel {
        r: blend_channel(cc.r, a.r, b.r, c.r, strength),
        g: blend_channel(cc.g, a.g, b.g, c.g, strength),
        b: blend_channel(cc.b, a.b, b.b, c.b, strength),
        a: blend_channel(cc.a, a.a, b.a, c.a, strength),
    }
}

/// Of a candidate and the currently held color, the one with the larger
/// alpha; the held color wins ties.
pub open spec fn keep_lighter(cand: Pixel, cur: Pixel) -> Pixel {
    if cand.a > cur.a {
        cand
    } else {
        cur
    }
}

/// Blend `cc` toward the average of `a`, `b`, `c`, then keep the result only
/// if its alpha exceeds that of `lightest_color`.
pub fn get_largest_alpha_avg(
    cc: &Pixel,
    lightest_color: &Pixel,
    a: &Pixel,
    b: &Pixel,
    c: &Pixel,
    strength: u16,
) -> (p: Pixel)
    ensures
        p == keep_lighter(blend_pixel_spec(*cc, *a, *b, *c, strength), *lightest_color),
{
    let new_color = get_alpha_avg(cc, a, b, c, strength);
    if new_color.a > lightest_color.a {
        new_color
    } else {
        *lightest_color
    }
}

/// `min(a, min(b, c))`.
pub open spec fn min3(a: u8, b: u8, c: u8) -> u8 {
    let m = if b <= c {
        b
    } else {
        c
    };
    if a <= m {
        a
    } else {
        m
    }
}

/// `max(a, max(b, c))`.
pub open spec fn max3(a: u8, b: u8, c: u8) -> u8 {
    let m = if b >= c {
        b
    } else {
        c
    };
    if a >= m {
        a
    } else {
        m
    }
}

fn min3_u8(a: u8, b: u8, c: u8) -> (r: u8)
    ensures
        r == min3(a, b, c),
{
    let m = if b <= c {
        b
    } else {
        c
    };
    if a <= m {
        a
    } else {
        m
    }
}

fn max3_u8(a: u8, b: u8, c: u8) -> (r: u8)
    ensures
        r == max3(a, b, c),
{
    let m = if b >= c {
        b
    } else {
        c
    };
    if a >= m {
        a
    } else {
        m
    }
}

/// The 3x3 neighborhood around a pixel, with replicate-border semantics for
/// out-of-range neighbors: `t`/`m`/`b` is the top/middle/bottom row and
/// `l`/`c`/`r` the left/center/right column.
#[derive(Clone, Copy, Debug)]
pub struct Neighborhood {
    pub tl: Pixel,
    pub tc: Pixel,
    pub tr: Pixel,
    pub ml: Pixel,
    pub mc: Pixel,
    pub mr: Pixel,
    pub bl: Pixel,
    pub bc: Pixel,
    pub br: Pixel,
}

/// Probe predicate: the top triple is strictly lighter (by alpha) than both
/// the center and the bottom triple.
pub open spec fn probe_top(n: Neighborhood) -> bool {
    min3(n.tl.a, n.tc.a, n.tr.a) > n.mc.a && min3(n.tl.a, n.tc.a, n.tr.a) > max3(
        n.bl.a,
        n.bc.a,
        n.br.a,
    )
}

/// The blended candidate of the top probe.
pub open spec fn cand_top(n: Neighborhood, s: u16) -> Pixel {
    blend_pixel_spec(n.mc, n.tl, n.tc, n.tr, s)
}

/// Probe predicate: the bottom triple is strictly lighter than both the
/// center and the top triple (the top probe rotated 180 degrees).
pub open spec fn probe_bottom(n: Neighborhood) -> bool {
    min3(n.br.a, n.bc.a, n.bl.a) > n.mc.a && min3(n.br.a, n.bc.a, n.bl.a) > max3(
        n.tl.a,
        n.tc.a,
        n.tr.a,
    )
}

/// The blended candidate of the bottom probe.
pub open spec fn cand_bottom(n: Neighborhood, s: u16) -> Pixel {
    blend_pixel_spec(n.mc, n.br, n.bc, n.bl, s)
}

/// Probe predicate: the upper-right triple is strictly lighter than the
/// triple through the center toward the lower left.
pub open spec fn probe_right(n: Neighborhood) -> bool {
    min3(n.mr.a, n.tc.a, n.tr.a) > max3(n.mc.a, n.ml.a, n.bc.a)
}

/// The blended candidate of the right probe.
pub open spec fn cand_right(n: Neighborhood, s: u16) -> Pixel {
    blend_pixel_spec(n.mc, n.mr, n.tc, n.tr, s)
}

/// Probe predicate: the lower-left triple is strictly lighter than the
/// triple through the center toward the upper right.
pub open spec fn probe_left(n: Neighborhood) -> bool {
    min3(n.bl.a, n.ml.a, n.bc.a) > max3(n.mc.a, n.mr.a, n.tc.a)
}

/// The blended candidate of the left probe.
pub open spec fn cand_left(n: Neighborhood, s: u16) -> Pixel {
    blend_pixel_spec(n.mc, n.bl, n.ml, n.bc, s)
}

/// Probe predicate: the right column is strictly lighter than both the
/// center and the left column.
pub open spec fn probe_right_col(n: Neighborhood) -> bool {
    min3(n.mr.a, n.tr.a, n.br.a) > n.mc.a && min3(n.mr.a, n.tr.a, n.br.a) > max3(
        n.ml.a,
        n.tl.a,
        n.bl.a,
    )
}

/// The blended candidate of the right-column probe.
pub open spec fn cand_right_col(n: Neighborhood, s: u16) -> Pixel {
    blend_pixel_spec(n.mc, n.mr, n.br, n.tr, s)
}

/// Probe predicate: the left column is strictly lighter than both the
/// center and the right column.
pub open spec fn probe_left_col(n: Neighborhood) -> bool {
    min3(n.ml.a, n.tl.a, n.bl.a) > n.mc.a && min3(n.ml.a, n.tl.a, n.bl.a) > max3(
        n.mr.a,
        n.tr.a,
        n.br.a,
    )
}

/// The blended candidate of the left-column probe.
pub open spec fn cand_left_col(n: Neighborhood, s: u16) -> Pixel {
    blend_pixel_spec(n.mc, n.ml, n.tl, n.bl, s)
}

/// Probe predicate: the lower-right triple is strictly lighter than the
/// triple through the center toward the upper left.
pub open spec fn probe_bottom_right(n: Neighborhood) -> bool {
    min3(n.mr.a, n.br.a, n.bc.a) > max3(n.mc.a, n.ml.a, n.tc.a)
}

/// The blended candidate of the bottom-right probe.
pub open spec fn cand_bottom_right(n: Neighborhood, s: u16) -> Pixel {
    blend_pixel_spec(n.mc, n.mr, n.br, n.bc, s)
}

/// Probe predicate: the upper-left triple is strictly lighter than the
/// triple through the center toward the lower right.
pub open spec fn probe_top_left(n: Neighborhood) -> bool {
    min3(n.tc.a, n.ml.a, n.tl.a) > max3(n.mc.a, n.mr.a, n.bc.a)
}

/// The blended candidate of the top-left probe.
pub open spec fn cand_top_left(n: Neighborhood, s: u16) -> Pixel {
    blend_pixel_spec(n.mc, n.tc, n.ml, n.tl, s)
}

/// The push-color operator on one neighborhood: four probe directions, each
/// with a 180-degree-rotated counterpart tried only when the primary fails.
/// Every satisfied probe's blended candidate is kept only if its alpha
/// exceeds the alpha of the color held so far ("lightest wins"), starting
/// from the unmodified center pixel.
pub open spec fn push_color_pixel_spec(n: Neighborhood, s: u16) -> Pixel {
    let l0 = n.mc;
    let l1 = if probe_top(n) {
        keep_lighter(cand_top(n, s), l0)
    } else if probe_bottom(n) {
        keep_lighter(cand_bottom(n, s), l0)
    } else {
        l0
    };
    let l2 = if probe_right(n) {
        keep_lighter(cand_right(n, s), l1)
    } else if probe_left(n) {
        keep_lighter(cand_left(n, s), l1)
    } else {
        l1
    };
    let l3 = if probe_right_col(n) {
        keep_lighter(cand_right_col(n, s), l2)
    } else if probe_left_col(n) {
        keep_lighter(cand_left_col(n, s), l2)
    } else {
        l2
    };
    let l4 = if probe_bottom_right(n) {
        keep_lighter(cand_bottom_right(n, s), l3)
    } else if probe_top_left(n) {
        keep_lighter(cand_top_left(n, s), l3)
    } else {
        l3
    };
    l4
}

/// The push-gradient operator on one neighborhood: the same four probes and
/// predicates as push-color, but every satisfied probe's candidate
/// unconditionally replaces the held color (later probes override earlier
/// ones), and the final alpha is forced to fully opaque.
pub open spec fn push_gradient_pixel_spec(n: Neighborhood, s: u16) -> Pixel {
    let l0 = n.mc;
    let l1 = if probe_top(n) {
        cand_top(n, s)
    } else if probe_bottom(n) {
        cand_bottom(n, s)
    } else {
        l0
    };
    let l2 = if probe_right(n) {
        cand_right(n, s)
    } else if probe_left(n) {
        cand_left(n, s)
    } else {
        l1
    };
    let l3 = if probe_right_col(n) {
        cand_right_col(n, s)
    } else if probe_left_col(n) {
        cand_left_col(n, s)
    } else {
        l2
    };
    let l4 = if probe_bottom_right(n) {
        cand_bottom_right(n, s)
    } else if probe_top_left(n) {
        cand_top_left(n, s)
    } else {
        l3
    };
    Pixel { r: l4.r, g: l4.g, b: l4.b, a: 255 }
}

/// The push-color operator on one gathered neighborhood.
pub fn push_color_pixel(n: &Neighborhood, strength: u16) -> (p: Pixel)
    ensures
        p == push_color_pixel_spec(*n, strength),
{
    let mc = n.mc;
    let mut lightest_color = mc;

    let mut max_dark = max3_u8(n.bl.a, n.bc.a, n.br.a);
    let mut min_light = min3_u8(n.tl.a, n.tc.a, n.tr.a);
    if min_light > mc.a && min_light > max_dark {
        lightest_color = get_largest_alpha_avg(&mc, &lightest_color, &n.tl, &n.tc, &n.tr, strength);
    } else {
        max_dark = max3_u8(n.tl.a, n.tc.a, n.tr.a);
        min_light = min3_u8(n.br.a, n.bc.a, n.bl.a);
        if min_light > mc.a && min_light > max_dark {
            lightest_color = get_largest_alpha_avg(
                &mc,
                &lightest_color,
                &n.br,
                &n.bc,
                &n.bl,
                strength,
            );
        }
    }

    max_dark = max3_u8(mc.a, n.ml.a, n.bc.a);
    min_light = min3_u8(n.mr.a, n.tc.a, n.tr.a);
    if min_light > max_dark {
        lightest_color = get_largest_alpha_avg(&mc, &lightest_color, &n.mr, &n.tc, &n.tr, strength);
    } else {
        max_dark = max3_u8(mc.a, n.mr.a, n.tc.a);
        min_light = min3_u8(n.bl.a, n.ml.a, n.bc.a);
        if min_light > max_dark {
            lightest_color = get_largest_alpha_avg(
                &mc,
                &lightest_color,
                &n.bl,
                &n.ml,
                &n.bc,
                strength,
            );
        }
    }

    max_dark = max3_u8(n.ml.a, n.tl.a, n.bl.a);
    min_light = min3_u8(n.mr.a, n.tr.a, n.br.a);
    if min_light > mc.a && min_light > max_dark {
        lightest_color = get_largest_alpha_avg(&mc, &lightest_color, &n.mr, &n.br, &n.tr, strength);
    } else {
        max_dark = max3_u8(n.mr.a, n.tr.a, n.br.a);
        min_light = min3_u8(n.ml.a, n.tl.a, n.bl.a);
        if min_light > mc.a && min_light > max_dark {
            lightest_color = get_largest_alpha_avg(
                &mc,
                &lightest_color,
                &n.ml,
                &n.tl,
                &n.bl,
                strength,
            );
        }
    }

    max_dark = max3_u8(mc.a, n.ml.a, n.tc.a);
    min_light = min3_u8(n.mr.a, n.br.a, n.bc.a);
    if min_light > max_dark {
        lightest_color = get_largest_alpha_avg(&mc, &lightest_color, &n.mr, &n.br, &n.bc, strength);
    } else {
        max_dark = max3_u8(mc.a, n.mr.a, n.bc.a);
        min_light = min3_u8(n.tc.a, n.ml.a, n.tl.a);
        if min_light > max_dark {
            lightest_color = get_largest_alpha_avg(
                &mc,
                &lightest_color,
                &n.tc,
                &n.ml,
                &n.tl,
                strength,
            );
        }
    }

    lightest_color
}

/// The push-gradient operator on one gathered neighborhood.
pub fn push_gradient_pixel(n: &Neighborhood, strength: u16) -> (p: Pixel)
    ensures
        p == push_gradient_pixel_spec(*n, strength),
{
    let mc = n.mc;
    let mut lightest_color = mc;

    let mut max_dark = max3_u8(n.bl.a, n.bc.a, n.br.a);
    let mut min_light = min3_u8(n.tl.a, n.tc.a, n.tr.a);
    if min_light > mc.a && min_light > max_dark {
        lightest_color = get_alpha_avg(&mc, &n.tl, &n.tc, &n.tr, strength);
    } else {
        max_dark = max3_u8(n.tl.a, n.tc.a, n.tr.a);
        min_light = min3_u8(n.br.a, n.bc.a, n.bl.a);
        if min_light > mc.a && min_light > max_dark {
            lightest_color = get_alpha_avg(&mc, &n.br, &n.bc, &n.bl, strength);
        }
    }

    max_dark = max3_u8(mc.a, n.ml.a, n.bc.a);
    min_light = min3_u8(n.mr.a, n.tc.a, n.tr.a);
    if min_light > max_dark {
        lightest_color = get_alpha_avg(&mc, &n.mr, &n.tc, &n.tr, strength);
    } else {
        max_dark = max3_u8(mc.a, n.mr.a, n.tc.a);
        min_light = min3_u8(n.bl.a, n.ml.a, n.bc.a);
        if min_light > max_dark {
            lightest_color = get_alpha_avg(&mc, &n.bl, &n.ml, &n.bc, strength);
        }
    }

    max_dark = max3_u8(n.ml.a, n.tl.a, n.bl.a);
    min_light = min3_u8(n.mr.a, n.tr.a, n.br.a);
    if min_light > mc.a && min_light > max_dark {
        lightest_color = get_alpha_avg(&mc, &n.mr, &n.br, &n.tr, strength);
    } else {
        max_dark = max3_u8(n.mr.a, n.tr.a, n.br.a);
        min_light = min3_u8(n.ml.a, n.tl.a, n.bl.a);
        if min_light > mc.a && min_light > max_dark {
            lightest_color = get_alpha_avg(&mc, &n.ml, &n.tl, &n.bl, strength);
        }
    }

    max_dark = max3_u8(mc.a, n.ml.a, n.tc.a);
    min_light = min3_u8(n.mr.a, n.br.a, n.bc.a);
    if min_light > max_dark {
        lightest_color = get_alpha_avg(&mc, &n.mr, &n.br, &n.bc, strength);
    } else {
        max_dark = max3_u8(mc.a, n.mr.a, n.bc.a);
        min_light = min3_u8(n.tc.a, n.ml.a, n.tl.a);
        if min_light > max_dark {
            lightest_color = get_alpha_avg(&mc, &n.tc, &n.ml, &n.tl, strength);
        }
    }

    Pixel { r: lightest_color.r, g: lightest_color.g, b: lightest_color.b, a: 255 }
}

} // verus!
