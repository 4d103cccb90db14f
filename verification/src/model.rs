//! The mathematical model of a pixel buffer and of each pipeline stage:
//! every stage of the executable kernel is specified as a function from
//! this model to itself.

use vstd::prelude::*;

use crate::intmath::isqrt_spec;
use crate::pixel::{
    blend_pixel_spec,
    brightness_spec,
    clampi,
    push_color_pixel_spec,
    push_gradient_pixel_spec,
    Neighborhood,
    Pixel,
};

verus! {

/// The model of a pixel buffer: a `w` by `h` grid of pixels, row-major.
#[verifier::ext_equal]
pub ghost struct ImgV {
    pub w: int,
    pub h: int,
    pub px: Seq<Seq<Pixel>>,
}

/// Well-formedness of the model: positive dimensions, a total byte count
/// that fits a 32-bit signed length, and every row of width `w`.
pub open spec fn img_wf(v: ImgV) -> bool {
    &&& 1 <= v.w
    &&& 1 <= v.h
    &&& 4 * v.w * v.h <= i32::MAX as int
    &&& v.px.len() == v.h
    &&& forall|y: int| 0 <= y < v.h ==> (#[trigger] v.px[y]).len() == v.w
}

/// The pixel at column `x`, row `y`.
pub open spec fn vpix(v: ImgV, x: int, y: int) -> Pixel {
    v.px[y][x]
}

/// The pixel at `(x, y)` with both coordinates clamped into the grid:
/// edge and corner pixels reuse themselves as their missing neighbors.
pub open spec fn vpix_clamped(v: ImgV, x: int, y: int) -> Pixel {
    vpix(v, clampi(x, 0, v.w - 1), clampi(y, 0, v.h - 1))
}

/// The 3x3 neighborhood around `(x, y)` with replicate-border semantics.
pub open spec fn nbhd_of(v: ImgV, x: int, y: int) -> Neighborhood {
    Neighborhood {
        tl: vpix_clamped(v, x - 1, y - 1),
        tc: vpix_clamped(v, x, y - 1),
        tr: vpix_clamped(v, x + 1, y - 1),
        ml: vpix_clamped(v, x - 1, y),
        mc: vpix_clamped(v, x, y),
        mr: vpix_clamped(v, x + 1, y),
        bl: vpix_clamped(v, x - 1, y + 1),
        bc: vpix_clamped(v, x, y + 1),
        br: vpix_clamped(v, x + 1, y + 1),
    }
}

/// The luminance stage on one pixel: RGB is preserved and alpha is
/// overwritten with the clamped brightness of the RGB channels.
pub open spec fn lum_pixel_spec(p: Pixel) -> Pixel {
    Pixel { r: p.r, g: p.g, b: p.b, a: clampi(brightness_spec(p.r, p.g, p.b), 0, 255) as u8 }
}

/// The luminance stage on a whole buffer.
pub open spec fn luminance_of(v: ImgV) -> ImgV {
    ImgV {
        w: v.w,
        h: v.h,
        px: Seq::new(v.h as nat, |y: int| Seq::new(v.w as nat, |x: int| lum_pixel_spec(v.px[y][x]))),
    }
}

/// The horizontal Sobel response at `(x, y)`, over the alpha channel of the
/// 3x3 neighborhood, with kernel `[-1 0 1; -2 0 2; -1 0 1]`.
pub open spec fn sobel_dx(v: ImgV, x: int, y: int) -> int {
    (vpix(v, x + 1, y - 1).a as int) - (vpix(v, x - 1, y - 1).a as int) + 2 * (vpix(
        v,
        x + 1,
        y,
    ).a as int) - 2 * (vpix(v, x - 1, y).a as int) + (vpix(v, x + 1, y + 1).a as int) - (vpix(
        v,
        x - 1,
        y + 1,
    ).a as int)
}

/// The vertical Sobel response at `(x, y)`, over the alpha channel of the
/// 3x3 neighborhood, with kernel `[-1 -2 -1; 0 0 0; 1 2 1]`.
pub open spec fn sobel_dy(v: ImgV, x: int, y: int) -> int {
    (vpix(v, x - 1, y + 1).a as int) - (vpix(v, x - 1, y - 1).a as int) + 2 * (vpix(
        v,
        x,
        y + 1,
    ).a as int) - 2 * (vpix(v, x, y - 1).a as int) + (vpix(v, x + 1, y + 1).a as int) - (vpix(
        v,
        x + 1,
        y - 1,
    ).a as int)
}

/// The gradient magnitude at `(x, y)`: the integer square root (the floor
/// of the real square root) of `dx*dx + dy*dy`.
pub open spec fn grad_mag(v: ImgV, x: int, y: int) -> int {
    isqrt_spec((sobel_dx(v, x, y) * sobel_dx(v, x, y) + sobel_dy(v, x, y) * sobel_dy(
        v,
        x,
        y,
    )) as nat) as int
}

/// The gradient stage on one interior pixel: RGB copied from the source
/// pixel; alpha is 0 when the magnitude exceeds 255 and `255 - magnitude`
/// otherwise (an inverse edge-strength map).
pub open spec fn grad_pixel_spec(v: ImgV, x: int, y: int) -> Pixel {
    let p = vpix(v, x, y);
    let m = grad_mag(v, x, y);
    if m > 255 {
        Pixel { r: p.r, g: p.g, b: p.b, a: 0 }
    } else {
        Pixel { r: p.r, g: p.g, b: p.b, a: (255 - m) as u8 }
    }
}

/// Whether `(x, y)` lies on the border of the grid.
pub open spec fn is_border(v: ImgV, x: int, y: int) -> bool {
    x == 0 || y == 0 || x == v.w - 1 || y == v.h - 1
}

/// The value of a freshly allocated, unwritten pixel: transparent black.
pub open spec fn default_pixel() -> Pixel {
    Pixel { r: 0, g: 0, b: 0, a: 0 }
}

/// The gradient stage on a whole buffer: interior pixels get the inverse
/// edge-strength alpha; border pixels are not processed and keep the
/// allocated-but-unwritten default.
pub open spec fn gradient_of(v: ImgV) -> ImgV {
    ImgV {
        w: v.w,
        h: v.h,
        px: Seq::new(
            v.h as nat,
            |y: int|
                Seq::new(
                    v.w as nat,
                    |x: int|
                        if is_border(v, x, y) {
                            default_pixel()
                        } else {
                            grad_pixel_spec(v, x, y)
                        },
                ),
        ),
    }
}

/// The push-color stage on a whole buffer: each pixel becomes the
/// maximum-alpha selection over its satisfied probes.
pub open spec fn push_color_of(v: ImgV, strength: u16) -> ImgV {
    ImgV {
        w: v.w,
        h: v.h,
        px: Seq::new(
            v.h as nat,
            |y: int|
                Seq::new(v.w as nat, |x: int| push_color_pixel_spec(nbhd_of(v, x, y), strength)),
        ),
    }
}

/// The push-gradient stage on a whole buffer: sequential probe overrides,
/// and every output pixel is forced fully opaque.
pub open spec fn push_gradient_of(v: ImgV, strength: u16) -> ImgV {
    ImgV {
        w: v.w,
        h: v.h,
        px: Seq::new(
            v.h as nat,
            |y: int|
                Seq::new(v.w as nat, |x: int| push_gradient_pixel_spec(nbhd_of(v, x, y), strength)),
        ),
    }
}

/// One full pipeline cycle: luminance, push-color, gradient, push-gradient.
pub open spec fn cycle_of(v: ImgV, pcs: u16, pgs: u16) -> ImgV {
    push_gradient_of(gradient_of(push_color_of(luminance_of(v), pcs)), pgs)
}

/// `n` pipeline cycles applied in order.
pub open spec fn iterate_of(v: ImgV, n: nat, pcs: u16, pgs: u16) -> ImgV
    decreases n,
{
    if n == 0 {
        v
    } else {
        iterate_of(cycle_of(v, pcs, pgs), (n - 1) as nat, pcs, pgs)
    }
}

} // verus!
