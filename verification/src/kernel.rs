//! The pixel-buffer kernel and the four pipeline stages: luminance
//! extraction, gradient (edge) detection, and the two directional push
//! operators, together with the iteration driver.

use vstd::prelude::*;

use crate::bytes::{
    bytes_of_img,
    byte_of_img,
    img_of_bytes,
    lemma_pixel_index,
    lemma_pixel_index_bound,
    rows_from_bytes,
    rows_view,
};
use crate::intmath::isqrt;
use crate::model::{
    cycle_of,
    default_pixel,
    gradient_of,
    grad_mag,
    grad_pixel_spec,
    img_wf,
    is_border,
    iterate_of,
    luminance_of,
    lum_pixel_spec,
    nbhd_of,
    push_color_of,
    push_gradient_of,
    sobel_dx,
    sobel_dy,
    vpix,
    ImgV,
};
use crate::pixel::{
    clamp,
    extract_pixel_rgba,
    get_brightness,
    push_color_pixel,
    push_color_pixel_spec,
    push_gradient_pixel,
    push_gradient_pixel_spec,
    Neighborhood,
    Pixel,
};
use crate::resize::{resample_rgba, resampled_bytes};

verus! {

/// The error kinds the pipeline and its collaborators report: a buffer
/// whose dimensions or length are unusable, a failure of the decoding
/// collaborator, a failure of the encoding collaborator, and a failure of
/// the resampling collaborator.
#[derive(Clone, Copy, Debug, PartialEq, Eq, Structural)]
pub enum KernelError {
    InvalidInput,
    DecodeError,
    EncodeError,
    ScaleError,
}

/// Acceptable dimensions and byte count for an incoming RGBA buffer.
pub open spec fn valid_image_dims(w: int, h: int, len: int) -> bool {
    &&& 1 <= w
    &&& 1 <= h
    &&& 4 * w * h <= i32::MAX as int
    &&& len == 4 * w * h
}

/// Acceptable target dimensions for resampling a buffer: positive, and
/// with the final byte count as well as the byte counts of the two
/// intermediate one-axis passes within the signed 32-bit size bound.
pub open spec fn valid_scale_dims(v: ImgV, w2: int, h2: int) -> bool {
    &&& 1 <= w2
    &&& 1 <= h2
    &&& 4 * w2 * h2 <= i32::MAX as int
    &&& 4 * w2 * v.h <= i32::MAX as int
    &&& 4 * v.w * h2 <= i32::MAX as int
}

/// A dense row-major grid of RGBA pixels, the single buffer that the
/// pipeline stages read and replace.
pub struct ImageKernel {
    pub width: u32,
    pub height: u32,
    pub rows: Vec<Vec<Pixel>>,
}

impl View for ImageKernel {
    type V = ImgV;

    open spec fn view(&self) -> ImgV {
        ImgV { w: self.width as int, h: self.height as int, px: rows_view(self.rows@) }
    }
}

/// A well-formed buffer model has dimensions small enough that `4 * w * h`
/// fits a 32-bit signed length, so each dimension is itself small.
pub proof fn lemma_dims_bound(v: ImgV)
    requires
        img_wf(v),
    ensures
        v.w <= 0x2000_0000,
        v.h <= 0x2000_0000,
{
    assert(v.w <= 0x2000_0000 && v.h <= 0x2000_0000) by (nonlinear_arith)
        requires
            1 <= v.w,
            1 <= v.h,
            4 * v.w * v.h <= i32::MAX as int,
    ;
}

impl ImageKernel {
    /// The buffer is a `width` by `height` grid of full rows within the
    /// size bound of `valid_image_dims`.
    pub open spec fn wf(self) -> bool {
        img_wf(self@)
    }

    /// Builds a kernel from a decoded image's dimensions and raw RGBA
    /// bytes; rejects empty, oversized, or mismatched buffers.
    pub fn from_image(width: u32, height: u32, bytes: Vec<u8>) -> (r: Result<
        ImageKernel,
        KernelError,
    >)
        ensures
            match r {
                Ok(k) => valid_image_dims(width as int, height as int, bytes@.len() as int)
                    && k.wf() && k@ == img_of_bytes(bytes@, width as int, height as int),
                Err(e) => e == KernelError::InvalidInput && !valid_image_dims(
                    width as int,
                    height as int,
                    bytes@.len() as int,
                ),
            },
    {
        if width < 1 || height < 1 {
            return Err(KernelError::InvalidInput);
        }
        proof {
            assert((width as int) * (height as int) <= 0xFFFF_FFFFu64 * 0xFFFF_FFFFu64)
                by (nonlinear_arith)
                requires
                    0 <= (width as int) <= 0xFFFF_FFFFu64,
                    0 <= (height as int) <= 0xFFFF_FFFFu64,
            ;
            assert(4 * ((width as int) * (height as int)) == 4 * (width as int) * (height as int))
                by (nonlinear_arith);
        }
        let wh: u64 = width as u64 * height as u64;
        if wh > 536870911u64 {
            assert(4 * (width as int) * (height as int) > i32::MAX as int) by (nonlinear_arith)
                requires
                    (width as int) * (height as int) > 536870911,
            ;
            return Err(KernelError::InvalidInput);
        }
        assert(4 * (width as int) * (height as int) <= i32::MAX as int) by (nonlinear_arith)
            requires
                (width as int) * (height as int) <= 536870911,
        ;
        if bytes.len() as u64 != 4 * wh {
            return Err(KernelError::InvalidInput);
        }
        let rows = rows_from_bytes(&bytes, width, height);
        let k = ImageKernel { width, height, rows };
        proof {
            assert(k@ =~~= img_of_bytes(bytes@, width as int, height as int));
        }
        Ok(k)
    }

    /// The buffer width in pixels.
    pub fn width(&self) -> (w: u32)
        ensures
            w as int == self@.w,
    {
        self.width
    }

    /// The buffer height in pixels.
    pub fn height(&self) -> (h: u32)
        ensures
            h as int == self@.h,
    {
        self.height
    }

    /// The pixel at column `x`, row `y`.
    pub fn get_pixel(&self, x: u32, y: u32) -> (p: Pixel)
        requires
            self.wf(),
            (x as int) < self@.w,
            (y as int) < self@.h,
        ensures
            p == vpix(self@, x as int, y as int),
    {
        proof {
            assert(self@.px[y as int] == self.rows@[y as int]@);
            assert(self@.px[y as int].len() == self@.w);
        }
        let row = &self.rows[y as usize];
        row[x as usize]
    }

    /// The row-major RGBA serialization of the buffer, as the encoding and
    /// resampling collaborators consume it.
    pub fn to_rgba_bytes(&self) -> (bytes: Vec<u8>)
        requires
            self.wf(),
        ensures
            bytes@ == bytes_of_img(self@),
    {
        let w = self.width;
        let h = self.height;
        proof {
            lemma_dims_bound(self@);
        }
        let mut bytes: Vec<u8> = Vec::new();
        let mut y: u32 = 0;
        let mut idx: usize = 0;
        while y < h
            invariant
                self.wf(),
                w as int == self@.w,
                h as int == self@.h,
                y <= h,
                idx == 4 * ((y as int) * (w as int)),
                bytes@.len() == idx,
                forall|i: int| 0 <= i < idx ==> bytes@[i] == byte_of_img(self@, i),
            decreases h - y,
        {
            let mut x: u32 = 0;
            while x < w
                invariant
                    self.wf(),
                    w as int == self@.w,
                    h as int == self@.h,
                    y < h,
                    x <= w,
                    idx == 4 * ((y as int) * (w as int) + (x as int)),
                    bytes@.len() == idx,
                    forall|i: int| 0 <= i < idx ==> bytes@[i] == byte_of_img(self@, i),
                decreases w - x,
            {
                let p = self.get_pixel(x, y);
                proof {
                    lemma_pixel_index_bound(w as int, h as int, x as int, y as int);
                    lemma_pixel_index(w as int, x as int, y as int, 0);
                    lemma_pixel_index(w as int, x as int, y as int, 1);
                    lemma_pixel_index(w as int, x as int, y as int, 2);
                    lemma_pixel_index(w as int, x as int, y as int, 3);
                    assert(4 * ((y as int) * (w as int) + (x as int)) + 4 <= 4 * (w as int) * (
                    h as int)) by (nonlinear_arith)
                        requires
                            ((y as int) * (w as int) + (x as int)) < (w as int) * (h as int),
                    ;
                }
                bytes.push(p.r);
                bytes.push(p.g);
                bytes.push(p.b);
                bytes.push(p.a);
                idx = idx + 4;
                x = x + 1;
            }
            proof {
                assert(((y as int) + 1) * (w as int) == (y as int) * (w as int) + (w as int))
                    by (nonlinear_arith);
            }
            y = y + 1;
        }
        proof {
            assert(4 * ((h as int) * (w as int)) == 4 * (w as int) * (h as int))
                by (nonlinear_arith);
            assert(bytes@ =~= bytes_of_img(self@));
        }
        bytes
    }

    /// The 3x3 neighborhood around `(x, y)`, with out-of-range offsets
    /// clamped so that edge and corner pixels reuse themselves.
    fn neighborhood(&self, x: u32, y: u32) -> (n: Neighborhood)
        requires
            self.wf(),
            (x as int) < self@.w,
            (y as int) < self@.h,
        ensures
            n == nbhd_of(self@, x as int, y as int),
    {
        proof {
            lemma_dims_bound(self@);
        }
        let xl = if x == 0 {
            x
        } else {
            x - 1
        };
        let xr = if x == self.width - 1 {
            x
        } else {
            x + 1
        };
        let yt = if y == 0 {
            y
        } else {
            y - 1
        };
        let yb = if y == self.height - 1 {
            y
        } else {
            y + 1
        };
        Neighborhood {
            tl: self.get_pixel(xl, yt),
            tc: self.get_pixel(x, yt),
            tr: self.get_pixel(xr, yt),
            ml: self.get_pixel(xl, y),
            mc: self.get_pixel(x, y),
            mr: self.get_pixel(xr, y),
            bl: self.get_pixel(xl, yb),
            bc: self.get_pixel(x, yb),
            br: self.get_pixel(xr, yb),
        }
    }

    /// Luminance stage: for every pixel, overwrite alpha with the clamped
    /// brightness of its RGB channels; RGB itself is preserved.
    pub fn compute_luminance(&mut self)
        requires
            old(self).wf(),
        ensures
            final(self).wf(),
            final(self)@ == luminance_of(old(self)@),
    {
        let w = self.width;
        let h = self.height;
        let ghost v0 = self@;
        let mut out: Vec<Vec<Pixel>> = Vec::new();
        let mut y: u32 = 0;
        while y < h
            invariant
                self.wf(),
                self@ == v0,
                w as int == v0.w,
                h as int == v0.h,
                y <= h,
                out@.len() == y as int,
                forall|yy: int| 0 <= yy < y as int ==> (#[trigger] out@[yy])@.len() == w as int,
                forall|yy: int, xx: int|
                    0 <= yy < y as int && 0 <= xx < w as int ==> (#[trigger] out@[yy]@[xx])
                        == lum_pixel_spec(vpix(v0, xx, yy)),
            decreases h - y,
        {
            let mut row: Vec<Pixel> = Vec::new();
            let mut x: u32 = 0;
            while x < w
                invariant
                    self.wf(),
                    self@ == v0,
                    w as int == v0.w,
                    h as int == v0.h,
                    y < h,
                    x <= w,
                    row@.len() == x as int,
                    forall|xx: int| 0 <= xx < x as int ==> row@[xx] == lum_pixel_spec(
                        vpix(v0, xx, y as int),
                    ),
                decreases w - x,
            {
                let p = self.get_pixel(x, y);
                let (r, g, b, _) = extract_pixel_rgba(&p);
                let brightness = get_brightness(r, g, b);
                let luminance_value = clamp(brightness, 0, 255);
                row.push(Pixel { r, g, b, a: luminance_value as u8 });
                x = x + 1;
            }
            out.push(row);
            y = y + 1;
        }
        self.rows = out;
        proof {
            assert(self@ =~~= luminance_of(v0));
        }
    }

    /// Gradient stage: produce a new buffer in which every interior pixel
    /// carries the inverse Sobel edge magnitude of the alpha channel in its
    /// alpha (RGB copied from the source), while border pixels keep the
    /// freshly-allocated default of transparent black.
    pub fn compute_gradient(&mut self)
        requires
            old(self).wf(),
        ensures
            final(self).wf(),
            final(self)@ == gradient_of(old(self)@),
    {
        let w = self.width;
        let h = self.height;
        let ghost v0 = self@;
        let mut out: Vec<Vec<Pixel>> = Vec::new();
        let mut y: u32 = 0;
        while y < h
            invariant
                self.wf(),
                self@ == v0,
                w as int == v0.w,
                h as int == v0.h,
                y <= h,
                out@.len() == y as int,
                forall|yy: int| 0 <= yy < y as int ==> (#[trigger] out@[yy])@.len() == w as int,
                forall|yy: int, xx: int|
                    0 <= yy < y as int && 0 <= xx < w as int ==> (#[trigger] out@[yy]@[xx]) == (
                    if is_border(v0, xx, yy) {
                        default_pixel()
                    } else {
                        grad_pixel_spec(v0, xx, yy)
                    }),
            decreases h - y,
        {
            let mut row: Vec<Pixel> = Vec::new();
            let mut x: u32 = 0;
            while x < w
                invariant
                    self.wf(),
                    self@ == v0,
                    w as int == v0.w,
                    h as int == v0.h,
                    y < h,
                    x <= w,
                    row@.len() == x as int,
                    forall|xx: int| 0 <= xx < x as int ==> row@[xx] == (
                    if is_border(v0, xx, y as int) {
                        default_pixel()
                    } else {
                        grad_pixel_spec(v0, xx, y as int)
                    }),
                decreases w - x,
            {
                if x == 0 || y == 0 || x == w - 1 || y == h - 1 {
                    row.push(Pixel { r: 0, g: 0, b: 0, a: 0 });
                } else {
                    let tl = self.get_pixel(x - 1, y - 1);
                    let tc = self.get_pixel(x, y - 1);
                    let tr = self.get_pixel(x + 1, y - 1);
                    let ml = self.get_pixel(x - 1, y);
                    let mc = self.get_pixel(x, y);
                    let mr = self.get_pixel(x + 1, y);
                    let bl = self.get_pixel(x - 1, y + 1);
                    let bc = self.get_pixel(x, y + 1);
                    let br = self.get_pixel(x + 1, y + 1);

                    let dx: i32 = tr.a as i32 - tl.a as i32 + 2 * (mr.a as i32) - 2 * (ml.a as i32)
                        + br.a as i32 - bl.a as i32;
                    let dy: i32 = bl.a as i32 - tl.a as i32 + 2 * (bc.a as i32) - 2 * (tc.a as i32)
                        + br.a as i32 - tr.a as i32;
                    proof {
                        assert(dx == sobel_dx(v0, x as int, y as int));
                        assert(dy == sobel_dy(v0, x as int, y as int));
                        assert(0 <= (dx as int) * (dx as int) <= 1040400 && 0 <= (dy as int) * (
                        dy as int) <= 1040400) by (nonlinear_arith)
                            requires
                                -1020 <= dx <= 1020,
                                -1020 <= dy <= 1020,
                        ;
                    }
                    let sq: u32 = (dx * dx + dy * dy) as u32;
                    let magnitude = isqrt(sq);
                    let alpha: u8 = if magnitude > 255 {
                        0
                    } else {
                        (255 - magnitude) as u8
                    };
                    proof {
                        assert(magnitude == grad_mag(v0, x as int, y as int));
                    }
                    row.push(Pixel { r: mc.r, g: mc.g, b: mc.b, a: alpha });
                }
                x = x + 1;
            }
            out.push(row);
            y = y + 1;
        }
        self.rows = out;
        proof {
            assert(self@ =~~= gradient_of(v0));
        }
    }

    /// Push-color stage: for every pixel, the maximum-alpha selection over
    /// the blended candidates of its satisfied probes, starting from the
    /// unmodified pixel itself.
    pub fn push_color(&mut self, strength: u16)
        requires
            old(self).wf(),
        ensures
            final(self).wf(),
            final(self)@ == push_color_of(old(self)@, strength),
    {
        let w = self.width;
        let h = self.height;
        let ghost v0 = self@;
        let mut out: Vec<Vec<Pixel>> = Vec::new();
        let mut y: u32 = 0;
        while y < h
            invariant
                self.wf(),
                self@ == v0,
                w as int == v0.w,
                h as int == v0.h,
                y <= h,
                out@.len() == y as int,
                forall|yy: int| 0 <= yy < y as int ==> (#[trigger] out@[yy])@.len() == w as int,
                forall|yy: int, xx: int|
                    0 <= yy < y as int && 0 <= xx < w as int ==> (#[trigger] out@[yy]@[xx])
                        == push_color_pixel_spec(nbhd_of(v0, xx, yy), strength),
            decreases h - y,
        {
            let mut row: Vec<Pixel> = Vec::new();
            let mut x: u32 = 0;
            while x < w
                invariant
                    self.wf(),
                    self@ == v0,
                    w as int == v0.w,
                    h as int == v0.h,
                    y < h,
                    x <= w,
                    row@.len() == x as int,
                    forall|xx: int| 0 <= xx < x as int ==> row@[xx]
                        == push_color_pixel_spec(
                        nbhd_of(v0, xx, y as int),
                        strength,
                    ),
                decreases w - x,
            {
                let n = self.neighborhood(x, y);
                row.push(push_color_pixel(&n, strength));
                x = x + 1;
            }
            out.push(row);
            y = y + 1;
        }
        self.rows = out;
        proof {
            assert(self@ =~~= push_color_of(v0, strength));
        }
    }

    /// Push-gradient stage: the same probes as push-color, but each
    /// satisfied probe's candidate overrides the running color in turn, and
    /// every output pixel's alpha is forced to fully opaque.
    pub fn push_gradient(&mut self, strength: u16)
        requires
            old(self).wf(),
        ensures
            final(self).wf(),
            final(self)@ == push_gradient_of(old(self)@, strength),
    {
        let w = self.width;
        let h = self.height;
        let ghost v0 = self@;
        let mut out: Vec<Vec<Pixel>> = Vec::new();
        let mut y: u32 = 0;
        while y < h
            invariant
                self.wf(),
                self@ == v0,
                w as int == v0.w,
                h as int == v0.h,
                y <= h,
                out@.len() == y as int,
                forall|yy: int| 0 <= yy < y as int ==> (#[trigger] out@[yy])@.len() == w as int,
                forall|yy: int, xx: int|
                    0 <= yy < y as int && 0 <= xx < w as int ==> (#[trigger] out@[yy]@[xx])
                        == push_gradient_pixel_spec(nbhd_of(v0, xx, yy), strength),
            decreases h - y,
        {
            let mut row: Vec<Pixel> = Vec::new();
            let mut x: u32 = 0;
            while x < w
                invariant
                    self.wf(),
                    self@ == v0,
                    w as int == v0.w,
                    h as int == v0.h,
                    y < h,
                    x <= w,
                    row@.len() == x as int,
                    forall|xx: int| 0 <= xx < x as int ==> row@[xx]
                        == push_gradient_pixel_spec(
                        nbhd_of(v0, xx, y as int),
                        strength,
                    ),
                decreases w - x,
            {
                let n = self.neighborhood(x, y);
                row.push(push_gradient_pixel(&n, strength));
                x = x + 1;
            }
            out.push(row);
            y = y + 1;
        }
        self.rows = out;
        proof {
            assert(self@ =~~= push_gradient_of(v0, strength));
        }
    }

    /// Resizes the buffer to `width` by `height` with the interpolating
    /// resampler; invoked once, before the iteration loop. Rejects target
    /// dimensions that are zero or whose byte counts (including the
    /// one-axis cross products) exceed the signed 32-bit size bound; on
    /// every valid target it succeeds and the buffer becomes the resample
    /// of the old pixels at exactly the target size.
    pub fn scale(&mut self, width: u32, height: u32) -> (r: Result<(), KernelError>)
        requires
            old(self).wf(),
        ensures
            final(self).wf(),
            !valid_scale_dims(old(self)@, width as int, height as int) ==> r == Err::<
                (),
                KernelError,
            >(KernelError::InvalidInput) && *final(self) == *old(self),
            valid_scale_dims(old(self)@, width as int, height as int) ==> r == Ok::<
                (),
                KernelError,
            >(()) && final(self)@ == img_of_bytes(
                resampled_bytes(
                    old(self)@.w,
                    old(self)@.h,
                    bytes_of_img(old(self)@),
                    width as int,
                    height as int,
                ),
                width as int,
                height as int,
            ),
    {
        proof {
            lemma_dims_bound(self@);
        }
        if width < 1 || height < 1 {
            return Err(KernelError::InvalidInput);
        }
        proof {
            assert(forall|a: int, b: int|
                0 <= a <= 0xFFFF_FFFF && 0 <= b <= 0xFFFF_FFFF ==> #[trigger] (a * b)
                    <= 0xFFFF_FFFFu64 * 0xFFFF_FFFFu64) by (nonlinear_arith);
        }
        let w2h2: u64 = width as u64 * height as u64;
        let w2h1: u64 = width as u64 * self.height as u64;
        let w1h2: u64 = self.width as u64 * height as u64;
        if w2h2 > 536870911u64 || w2h1 > 536870911u64 || w1h2 > 536870911u64 {
            proof {
                assert((w2h2 > 536870911 ==> 4 * (width as int) * (height as int) > i32::MAX as int)
                    && (w2h1 > 536870911 ==> 4 * (width as int) * (self@.h as int) > i32::MAX as int)
                    && (w1h2 > 536870911 ==> 4 * (self@.w as int) * (height as int) > i32::MAX as int))
                    by (nonlinear_arith)
                    requires
                        w2h2 == (width as int) * (height as int),
                        w2h1 == (width as int) * (self@.h as int),
                        w1h2 == (self@.w as int) * (height as int),
                ;
            }
            return Err(KernelError::InvalidInput);
        }
        proof {
            assert(4 * (width as int) * (height as int) <= i32::MAX as int && 4 * (width as int) * (
            self@.h as int) <= i32::MAX as int && 4 * (self@.w as int) * (height as int)
                <= i32::MAX as int) by (nonlinear_arith)
                requires
                    ((width as int) * (height as int)) <= 536870911,
                    ((width as int) * (self@.h as int)) <= 536870911,
                    ((self@.w as int) * (height as int)) <= 536870911,
            ;
        }
        let ghost v0 = self@;
        let bytes = self.to_rgba_bytes();
        match resample_rgba(self.width, self.height, bytes, width, height) {
            Ok(nb) => {
                let rows = rows_from_bytes(&nb, width, height);
                self.width = width;
                self.height = height;
                self.rows = rows;
                proof {
                    assert(self@ =~~= img_of_bytes(
                        resampled_bytes(
                            v0.w,
                            v0.h,
                            bytes_of_img(v0),
                            width as int,
                            height as int,
                        ),
                        width as int,
                        height as int,
                    ));
                }
                Ok(())
            },
            // the resampler's contract rules this arm out on the admitted
            // inputs; it stays as a runtime backstop only
            Err(_) => Err(KernelError::ScaleError),
        }
    }

    /// The iteration driver: validates the buffer once at entry (the
    /// gradient stage needs interior pixels, so both dimensions must be at
    /// least 3) and then runs `iteration` full cycles of luminance,
    /// push-color, gradient, and push-gradient.
    pub fn process(&mut self, iteration: u32, push_color_strength: u16, push_gradient_strength: u16)
        -> (r: Result<(), KernelError>)
        requires
            old(self).wf(),
        ensures
            final(self).wf(),
            old(self)@.w < 3 || old(self)@.h < 3 ==> r == Err::<(), KernelError>(
                KernelError::InvalidInput,
            ) && *final(self) == *old(self),
            old(self)@.w >= 3 && old(self)@.h >= 3 ==> r == Ok::<(), KernelError>(())
                && final(self)@ == iterate_of(
                old(self)@,
                iteration as nat,
                push_color_strength,
                push_gradient_strength,
            ),
    {
        if self.width < 3 || self.height < 3 {
            return Err(KernelError::InvalidInput);
        }
        let ghost v0 = self@;
        let mut i: u32 = 0;
        while i < iteration
            invariant
                self.wf(),
                i <= iteration,
                iterate_of(
                    self@,
                    (iteration - i) as nat,
                    push_color_strength,
                    push_gradient_strength,
                ) == iterate_of(
                    v0,
                    iteration as nat,
                    push_color_strength,
                    push_gradient_strength,
                ),
            decreases iteration - i,
        {
            let ghost before = self@;
            self.compute_luminance();
            self.push_color(push_color_strength);
            self.compute_gradient();
            self.push_gradient(push_gradient_strength);
            proof {
                assert(self@ == cycle_of(before, push_color_strength, push_gradient_strength));
                assert(iterate_of(
                    before,
                    (iteration - i) as nat,
                    push_color_strength,
                    push_gradient_strength,
                ) == iterate_of(
                    self@,
                    (iteration - i - 1) as nat,
                    push_color_strength,
                    push_gradient_strength,
                ));
            }
            i = i + 1;
        }
        Ok(())
    }
}

} // verus!
