//! The resampling collaborator: the one outside call the pipeline makes,
//! an interpolated resize of a flat RGBA byte buffer to target dimensions.

use vstd::prelude::*;

verus! {

/// The error type of the raster crate, carried through opaquely.
#[verifier::external_type_specification]
#[verifier::external_body]
pub struct ExRasterError(raster::error::RasterError);

/// The RGBA bytes that resampling a `src_w` by `src_h` RGBA byte buffer to
/// `w` by `h` produces; a function of the source dimensions, source bytes,
/// and target dimensions alone.
pub uninterp spec fn resampled_bytes(src_w: int, src_h: int, bytes: Seq<u8>, w: int, h: int) -> Seq<
    u8,
>;

/// Relies on raster::interpolate::resample in bicubic mode (which this
/// version of raster carries out with its bilinear pass). The call always
/// succeeds on the admitted inputs: under these preconditions every
/// `4 * width * height` byte count (source, target, and the one-axis
/// intermediate) fits raster's signed 32-bit index arithmetic, and every
/// source coordinate either pass computes lies inside the image — the
/// interpolation point `x * (w1 / w2)` stays below `w1` by a margin of
/// `w1 / w2`, far wider than its f64 rounding error for any dimensions
/// these bounds admit — so no `get_pixel` or `set_pixel` call can reach
/// raster's out-of-bounds error path. The result holds exactly
/// `4 * w * h` RGBA bytes, row-major, determined by the source dimensions,
/// source bytes, and target dimensions alone.
#[verifier::external_body]
pub(crate) fn resample_rgba(src_w: u32, src_h: u32, bytes: Vec<u8>, w: u32, h: u32) -> (r: Result<
    Vec<u8>,
    raster::error::RasterError,
>)
    requires
        1 <= src_w,
        1 <= src_h,
        1 <= w,
        1 <= h,
        bytes@.len() == 4 * (src_w as int) * (src_h as int),
        4 * (src_w as int) * (src_h as int) <= i32::MAX as int,
        4 * (w as int) * (h as int) <= i32::MAX as int,
        4 * (w as int) * (src_h as int) <= i32::MAX as int,
        4 * (src_w as int) * (h as int) <= i32::MAX as int,
    ensures
        r.is_ok(),
        r.unwrap()@ == resampled_bytes(src_w as int, src_h as int, bytes@, w as int, h as int),
        r.unwrap()@.len() == 4 * (w as int) * (h as int),
{
    let mut raster_image = raster::Image {
        width: src_w as i32,
        height: src_h as i32,
        bytes,
    };
    let mode = raster::interpolate::InterpolationMode::Bicubic;
    match raster::interpolate::resample(&mut raster_image, w as i32, h as i32, mode) {
        Ok(()) => Ok(raster_image.bytes),
        Err(e) => Err(e),
    }
}

} // verus!
