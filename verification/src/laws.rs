//! The general properties the pipeline guarantees, stated and proved over
//! the buffer model.

use vstd::prelude::*;

use crate::intmath::{lemma_isqrt_bounds, lemma_isqrt_unique};
use crate::model::{
    default_pixel,
    gradient_of,
    grad_mag,
    img_wf,
    is_border,
    luminance_of,
    push_gradient_of,
    sobel_dx,
    sobel_dy,
    vpix,
    ImgV,
};
use crate::pixel::{
    brightness_spec,
    cand_bottom,
    cand_bottom_right,
    cand_left,
    cand_left_col,
    cand_right,
    cand_right_col,
    cand_top,
    cand_top_left,
    clampi,
    lemma_brightness_bounds,
    probe_bottom,
    probe_bottom_right,
    probe_left,
    probe_left_col,
    probe_right,
    probe_right_col,
    probe_top,
    probe_top_left,
    push_color_pixel_spec,
    Neighborhood,
};

verus! {

/// For every pixel of a valid buffer, the luminance stage leaves RGB
/// unchanged and writes `clamp((2r + 3g + b) / 6, 0, 255)`, a value within
/// [0, 255], into alpha.
pub proof fn lemma_luminance_alpha(v: ImgV, x: int, y: int)
    requires
        img_wf(v),
        0 <= x < v.w,
        0 <= y < v.h,
    ensures
        luminance_of(v).w == v.w,
        luminance_of(v).h == v.h,
        vpix(luminance_of(v), x, y).r == vpix(v, x, y).r,
        vpix(luminance_of(v), x, y).g == vpix(v, x, y).g,
        vpix(luminance_of(v), x, y).b == vpix(v, x, y).b,
        vpix(luminance_of(v), x, y).a as int == clampi(
            brightness_spec(vpix(v, x, y).r, vpix(v, x, y).g, vpix(v, x, y).b),
            0,
            255,
        ),
        0 <= vpix(luminance_of(v), x, y).a <= 255,
{
    let p = vpix(v, x, y);
    lemma_brightness_bounds(p.r, p.g, p.b);
}

/// Running the luminance stage twice in a row, with no intervening change
/// to RGB, gives the same buffer as running it once: the second pass
/// recomputes every alpha from the unchanged RGB channels.
pub proof fn lemma_luminance_stable(v: ImgV)
    requires
        img_wf(v),
    ensures
        luminance_of(luminance_of(v)) == luminance_of(v),
{
    assert forall|y: int, x: int| 0 <= y < v.h && 0 <= x < v.w implies luminance_of(
        luminance_of(v),
    ).px[y][x] == luminance_of(v).px[y][x] by {
        assert(luminance_of(v).px[y][x] == crate::model::lum_pixel_spec(v.px[y][x]));
    }
    assert(luminance_of(luminance_of(v)) =~~= luminance_of(v));
}

/// The gradient stage leaves every border pixel at the
/// allocated-but-unwritten default of transparent black.
pub proof fn lemma_gradient_border(v: ImgV, x: int, y: int)
    requires
        img_wf(v),
        0 <= x < v.w,
        0 <= y < v.h,
        is_border(v, x, y),
    ensures
        vpix(gradient_of(v), x, y) == default_pixel(),
{
}

/// Every interior pixel of the gradient stage's output carries
/// `255 - magnitude` in alpha when the magnitude is at most 255 and 0
/// otherwise, with RGB copied from the source pixel.
pub proof fn lemma_gradient_interior(v: ImgV, x: int, y: int)
    requires
        img_wf(v),
        1 <= x < v.w - 1,
        1 <= y < v.h - 1,
    ensures
        vpix(gradient_of(v), x, y).r == vpix(v, x, y).r,
        vpix(gradient_of(v), x, y).g == vpix(v, x, y).g,
        vpix(gradient_of(v), x, y).b == vpix(v, x, y).b,
        grad_mag(v, x, y) <= 255 ==> vpix(gradient_of(v), x, y).a as int == 255 - grad_mag(v, x, y),
        grad_mag(v, x, y) > 255 ==> vpix(gradient_of(v), x, y).a == 0,
{
}

/// The push-color selection is a true maximum-alpha selection: the chosen
/// pixel's alpha is at least the center pixel's alpha and at least the
/// alpha of every satisfied probe's candidate that the stage evaluates (a
/// rotated probe is evaluated only when its primary counterpart fails),
/// the chosen pixel is the center or one of those candidates, and a
/// satisfied first probe whose candidate is strictly lighter than the
/// center forces a strictly lighter result.
pub proof fn lemma_push_color_lightest(n: Neighborhood, s: u16)
    ensures
        push_color_pixel_spec(n, s).a >= n.mc.a,
        probe_top(n) ==> push_color_pixel_spec(n, s).a >= cand_top(n, s).a,
        !probe_top(n) && probe_bottom(n) ==> push_color_pixel_spec(n, s).a >= cand_bottom(n, s).a,
        probe_right(n) ==> push_color_pixel_spec(n, s).a >= cand_right(n, s).a,
        !probe_right(n) && probe_left(n) ==> push_color_pixel_spec(n, s).a >= cand_left(n, s).a,
        probe_right_col(n) ==> push_color_pixel_spec(n, s).a >= cand_right_col(n, s).a,
        !probe_right_col(n) && probe_left_col(n) ==> push_color_pixel_spec(n, s).a >= cand_left_col(
            n,
            s,
        ).a,
        probe_bottom_right(n) ==> push_color_pixel_spec(n, s).a >= cand_bottom_right(n, s).a,
        !probe_bottom_right(n) && probe_top_left(n) ==> push_color_pixel_spec(n, s).a
            >= cand_top_left(n, s).a,
        push_color_pixel_spec(n, s) == n.mc || push_color_pixel_spec(n, s) == cand_top(n, s)
            || push_color_pixel_spec(n, s) == cand_bottom(n, s) || push_color_pixel_spec(n, s)
            == cand_right(n, s) || push_color_pixel_spec(n, s) == cand_left(n, s)
            || push_color_pixel_spec(n, s) == cand_right_col(n, s) || push_color_pixel_spec(n, s)
            == cand_left_col(n, s) || push_color_pixel_spec(n, s) == cand_bottom_right(n, s)
            || push_color_pixel_spec(n, s) == cand_top_left(n, s),
        probe_top(n) && cand_top(n, s).a > n.mc.a ==> push_color_pixel_spec(n, s).a > n.mc.a,
{
}

/// An interior pixel whose eight surrounding alphas are all equal — a flat
/// region, however bright — sees no gradient and gets alpha 255. This
/// covers both a pixel far from any edge and the single bright pixel of an
/// isolated dot, whose own neighbors are uniformly dark (the Sobel kernels
/// give the center no weight).
pub proof fn lemma_gradient_flat_neighborhood(v: ImgV, x: int, y: int, d: u8)
    requires
        img_wf(v),
        1 <= x < v.w - 1,
        1 <= y < v.h - 1,
        vpix(v, x - 1, y - 1).a == d,
        vpix(v, x, y - 1).a == d,
        vpix(v, x + 1, y - 1).a == d,
        vpix(v, x - 1, y).a == d,
        vpix(v, x + 1, y).a == d,
        vpix(v, x - 1, y + 1).a == d,
        vpix(v, x, y + 1).a == d,
        vpix(v, x + 1, y + 1).a == d,
    ensures
        vpix(gradient_of(v), x, y).a == 255,
{
    assert(sobel_dx(v, x, y) == 0);
    assert(sobel_dy(v, x, y) == 0);
    assert(crate::intmath::isqrt_spec(0) == 0);
}

/// An interior pixel whose surrounding alphas are uniformly dark except a
/// single strictly brighter neighbor in the middle of one side (here the
/// bottom-center; the other three sides are the same by symmetry of the
/// Sobel kernels) sees a gradient of exactly twice the brightness
/// difference: its output alpha drops to `255 - 2 * (b - d)`, or to 0 once
/// that difference saturates the magnitude.
pub proof fn lemma_gradient_bright_side_neighbor(v: ImgV, x: int, y: int, d: u8, b: u8)
    requires
        img_wf(v),
        1 <= x < v.w - 1,
        1 <= y < v.h - 1,
        d <= b,
        vpix(v, x - 1, y - 1).a == d,
        vpix(v, x, y - 1).a == d,
        vpix(v, x + 1, y - 1).a == d,
        vpix(v, x - 1, y).a == d,
        vpix(v, x + 1, y).a == d,
        vpix(v, x - 1, y + 1).a == d,
        vpix(v, x, y + 1).a == b,
        vpix(v, x + 1, y + 1).a == d,
    ensures
        grad_mag(v, x, y) == 2 * (b - d),
        2 * (b - d) <= 255 ==> vpix(gradient_of(v), x, y).a as int == 255 - 2 * (b - d),
        2 * (b - d) > 255 ==> vpix(gradient_of(v), x, y).a == 0,
{
    let delta = b - d;
    assert(sobel_dx(v, x, y) == 0);
    assert(sobel_dy(v, x, y) == 2 * delta);
    assert((2 * delta) * (2 * delta) <= 0 * 0 + (2 * delta) * (2 * delta) < (2 * delta + 1) * (2
        * delta + 1)) by (nonlinear_arith)
        requires
            delta >= 0,
    ;
    lemma_isqrt_unique((0 * 0 + (2 * delta) * (2 * delta)) as nat, (2 * delta) as nat);
}

/// An interior pixel whose surrounding alphas are uniformly dark except a
/// single strictly brighter neighbor in one corner (here the bottom-right;
/// the other corners are the same by symmetry) sees a gradient of at least
/// the brightness difference: its output alpha is at most `255 - (b - d)`,
/// and 0 once twice the squared difference exceeds the saturation bound.
pub proof fn lemma_gradient_bright_corner_neighbor(v: ImgV, x: int, y: int, d: u8, b: u8)
    requires
        img_wf(v),
        1 <= x < v.w - 1,
        1 <= y < v.h - 1,
        d <= b,
        vpix(v, x - 1, y - 1).a == d,
        vpix(v, x, y - 1).a == d,
        vpix(v, x + 1, y - 1).a == d,
        vpix(v, x - 1, y).a == d,
        vpix(v, x + 1, y).a == d,
        vpix(v, x - 1, y + 1).a == d,
        vpix(v, x, y + 1).a == d,
        vpix(v, x + 1, y + 1).a == b,
    ensures
        grad_mag(v, x, y) >= b - d,
        vpix(gradient_of(v), x, y).a as int <= 255 - (b - d),
        2 * ((b - d) as int) * ((b - d) as int) > 65535 ==> vpix(gradient_of(v), x, y).a == 0,
{
    let delta = b - d;
    assert(sobel_dx(v, x, y) == delta);
    assert(sobel_dy(v, x, y) == delta);
    let n = (delta * delta + delta * delta) as nat;
    assert(delta * delta + delta * delta == 2 * (delta as int) * (delta as int))
        by (nonlinear_arith);
    lemma_isqrt_bounds(n);
    let m = crate::intmath::isqrt_spec(n) as int;
    assert(m >= delta && (2 * (delta as int) * (delta as int) > 65535 ==> m > 255))
        by (nonlinear_arith)
        requires
            delta >= 0,
            m >= 0,
            n == 2 * (delta as int) * (delta as int),
            m * m <= n,
            n < (m + 1) * (m + 1),
    ;
}

/// On any buffer, the push-color stage's output at `(x, y)` is exactly the
/// probe selection applied to that pixel's replicate-border neighborhood,
/// so the selection guarantees of `lemma_push_color_lightest` hold of
/// every pixel of every image.
pub proof fn lemma_push_color_at(v: ImgV, s: u16, x: int, y: int)
    requires
        img_wf(v),
        0 <= x < v.w,
        0 <= y < v.h,
    ensures
        vpix(crate::model::push_color_of(v, s), x, y) == push_color_pixel_spec(
            crate::model::nbhd_of(v, x, y),
            s,
        ),
{
}

/// Every pixel of the push-gradient stage's output is fully opaque,
/// whatever the input buffer and strength.
pub proof fn lemma_push_gradient_opaque(v: ImgV, s: u16, x: int, y: int)
    requires
        img_wf(v),
        0 <= x < v.w,
        0 <= y < v.h,
    ensures
        vpix(push_gradient_of(v, s), x, y).a == 255,
{
}

} // verus!
