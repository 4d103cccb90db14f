use anime4k::kernel::{ImageKernel, KernelError};
use anime4k::pixel::Pixel;

fn px(r: u8, g: u8, b: u8, a: u8) -> Pixel {
    Pixel { r, g, b, a }
}

fn make(w: u32, h: u32, pixels: &[(u8, u8, u8, u8)]) -> ImageKernel {
    assert_eq!(pixels.len(), (w * h) as usize);
    let mut bytes: Vec<u8> = Vec::new();
    for &(r, g, b, a) in pixels {
        bytes.push(r);
        bytes.push(g);
        bytes.push(b);
        bytes.push(a);
    }
    ImageKernel::from_image(w, h, bytes).unwrap()
}

fn uniform(w: u32, h: u32, p: (u8, u8, u8, u8)) -> ImageKernel {
    let pixels: Vec<(u8, u8, u8, u8)> = vec![p; (w * h) as usize];
    make(w, h, &pixels)
}

#[test]
fn from_image_reads_row_major_rgba() {
    let k = make(
        2,
        2,
        &[(1, 2, 3, 4), (5, 6, 7, 8), (9, 10, 11, 12), (13, 14, 15, 16)],
    );
    assert_eq!(k.width(), 2);
    assert_eq!(k.height(), 2);
    assert_eq!(k.get_pixel(0, 0), px(1, 2, 3, 4));
    assert_eq!(k.get_pixel(1, 0), px(5, 6, 7, 8));
    assert_eq!(k.get_pixel(0, 1), px(9, 10, 11, 12));
    assert_eq!(k.get_pixel(1, 1), px(13, 14, 15, 16));
}

#[test]
fn from_image_rejects_zero_dimension() {
    assert_eq!(
        ImageKernel::from_image(0, 2, vec![]).err(),
        Some(KernelError::InvalidInput)
    );
    assert_eq!(
        ImageKernel::from_image(2, 0, vec![]).err(),
        Some(KernelError::InvalidInput)
    );
}

#[test]
fn from_image_rejects_wrong_length() {
    assert_eq!(
        ImageKernel::from_image(2, 2, vec![0u8; 15]).err(),
        Some(KernelError::InvalidInput)
    );
    assert_eq!(
        ImageKernel::from_image(2, 2, vec![0u8; 17]).err(),
        Some(KernelError::InvalidInput)
    );
}

#[test]
fn to_rgba_bytes_round_trip() {
    let bytes: Vec<u8> = (0u8..16u8).collect();
    let k = ImageKernel::from_image(2, 2, bytes.clone()).unwrap();
    assert_eq!(k.to_rgba_bytes(), bytes);
}

#[test]
fn luminance_sets_alpha_and_preserves_rgb() {
    let mut k = make(2, 1, &[(10, 20, 30, 99), (128, 128, 128, 0)]);
    k.compute_luminance();
    // (2*10 + 3*20 + 30) / 6 = 18
    assert_eq!(k.get_pixel(0, 0), px(10, 20, 30, 18));
    assert_eq!(k.get_pixel(1, 0), px(128, 128, 128, 128));
}

#[test]
fn luminance_second_run_is_stable() {
    let mut k = make(2, 2, &[(1, 2, 3, 4), (50, 60, 70, 80), (200, 100, 50, 0), (255, 255, 255, 7)]);
    k.compute_luminance();
    let after_first = k.to_rgba_bytes();
    k.compute_luminance();
    assert_eq!(k.to_rgba_bytes(), after_first);
}

#[test]
fn gradient_leaves_border_at_default() {
    let mut k = uniform(3, 3, (90, 90, 90, 200));
    k.compute_gradient();
    for y in 0..3 {
        for x in 0..3 {
            if x == 1 && y == 1 {
                continue;
            }
            assert_eq!(k.get_pixel(x, y), px(0, 0, 0, 0));
        }
    }
    // uniform alpha: zero gradient, so inverse magnitude is 255
    assert_eq!(k.get_pixel(1, 1), px(90, 90, 90, 255));
}

#[test]
fn gradient_interior_exact_magnitude() {
    // alpha rows 0, 0, 10: dx = 0, dy = 10 + 2*10 + 10 = 40, sqrt(1600) = 40
    let mut k = make(
        3,
        3,
        &[
            (7, 8, 9, 0),
            (7, 8, 9, 0),
            (7, 8, 9, 0),
            (7, 8, 9, 0),
            (1, 2, 3, 0),
            (7, 8, 9, 0),
            (7, 8, 9, 10),
            (7, 8, 9, 10),
            (7, 8, 9, 10),
        ],
    );
    k.compute_gradient();
    assert_eq!(k.get_pixel(1, 1), px(1, 2, 3, 215));
}

#[test]
fn gradient_saturated_edge_gives_zero_alpha() {
    // alpha rows 0, 0, 255: dy = 255 + 2*255 + 255 = 1020 > 255
    let mut k = make(
        3,
        3,
        &[
            (7, 8, 9, 0),
            (7, 8, 9, 0),
            (7, 8, 9, 0),
            (7, 8, 9, 0),
            (1, 2, 3, 0),
            (7, 8, 9, 0),
            (7, 8, 9, 255),
            (7, 8, 9, 255),
            (7, 8, 9, 255),
        ],
    );
    k.compute_gradient();
    assert_eq!(k.get_pixel(1, 1), px(1, 2, 3, 0));
}

fn top_lit_three_by_three() -> ImageKernel {
    let light = (200, 200, 200, 200);
    let dark = (50, 50, 50, 50);
    make(3, 3, &[light, light, light, dark, dark, dark, dark, dark, dark])
}

#[test]
fn push_color_blends_toward_lighter_probe() {
    // top triple strictly lighter than center and bottom: the top probe
    // fires, and at full strength the center takes the top average
    let mut k = top_lit_three_by_three();
    k.push_color(255);
    assert_eq!(k.get_pixel(1, 1), px(200, 200, 200, 200));
}

#[test]
fn push_color_strength_zero_keeps_pixels() {
    let mut k = top_lit_three_by_three();
    k.push_color(0);
    assert_eq!(k.get_pixel(1, 1), px(50, 50, 50, 50));
    assert_eq!(k.get_pixel(0, 0), px(200, 200, 200, 200));
}

#[test]
fn push_color_midpoint_strength_exact_value() {
    // candidate = (50 * 127 + 200 * 128) / 255 = 125 per channel
    let mut k = top_lit_three_by_three();
    k.push_color(128);
    assert_eq!(k.get_pixel(1, 1), px(125, 125, 125, 125));
}

fn two_probe_three_by_three() -> ImageKernel {
    // top row lighter than everything; mid-right bright enough that the
    // right probe also fires, with a slightly darker candidate
    let light = (200, 200, 200, 200);
    let mr = (180, 180, 180, 180);
    let dark = (50, 50, 50, 50);
    make(3, 3, &[light, light, light, dark, dark, mr, dark, dark, dark])
}

#[test]
fn push_color_keeps_maximum_alpha_candidate() {
    // top candidate alpha 200; right candidate (180+200+200)/3 = 193 is
    // darker, so the maximum-alpha selection keeps the top candidate
    let mut k = two_probe_three_by_three();
    k.push_color(255);
    assert_eq!(k.get_pixel(1, 1), px(200, 200, 200, 200));
}

#[test]
fn push_gradient_later_probe_overrides() {
    // same buffer: push-gradient lets the later (darker) right candidate
    // override the top candidate, then forces alpha opaque
    let mut k = two_probe_three_by_three();
    k.push_gradient(255);
    assert_eq!(k.get_pixel(1, 1), px(193, 193, 193, 255));
}

#[test]
fn push_gradient_output_always_opaque() {
    let mut k = make(
        3,
        3,
        &[
            (1, 2, 3, 0),
            (4, 5, 6, 60),
            (7, 8, 9, 120),
            (10, 11, 12, 180),
            (13, 14, 15, 240),
            (16, 17, 18, 30),
            (19, 20, 21, 90),
            (22, 23, 24, 150),
            (25, 26, 27, 210),
        ],
    );
    k.push_gradient(37);
    for y in 0..3 {
        for x in 0..3 {
            assert_eq!(k.get_pixel(x, y).a, 255);
        }
    }
}

#[test]
fn process_uniform_gray_full_iteration() {
    // one full cycle on uniform gray: no probe ever fires; the gradient
    // stage resets the border to transparent black and the push-gradient
    // stage forces every alpha opaque
    let mut k = uniform(4, 4, (128, 128, 128, 255));
    assert_eq!(k.process(1, 0, 255), Ok(()));
    for y in 0..4 {
        for x in 0..4 {
            let p = k.get_pixel(x, y);
            assert_eq!(p.a, 255);
            if x == 0 || y == 0 || x == 3 || y == 3 {
                assert_eq!(p, px(0, 0, 0, 255));
            } else {
                assert_eq!(p, px(128, 128, 128, 255));
            }
        }
    }
}

#[test]
fn process_rejects_small_buffer() {
    let mut k = uniform(2, 2, (128, 128, 128, 255));
    assert_eq!(k.process(1, 0, 255), Err(KernelError::InvalidInput));
    assert_eq!(k.get_pixel(0, 0), px(128, 128, 128, 255));
}

#[test]
fn process_zero_iterations_is_noop() {
    let mut k = uniform(3, 3, (40, 50, 60, 70));
    assert_eq!(k.process(0, 0, 255), Ok(()));
    assert_eq!(k.get_pixel(1, 1), px(40, 50, 60, 70));
}

#[test]
fn gradient_bright_dot_ring_is_local_minimum() {
    // 5x5 dark field with one bright dot: after luminance and gradient,
    // the ring immediately around the dot is a strong edge (alpha 0) while
    // the dot's own neighborhood is flat (alpha 255)
    let mut pixels = vec![(10u8, 10u8, 10u8, 255u8); 25];
    pixels[2 * 5 + 2] = (250, 250, 250, 255);
    let mut k = make(5, 5, &pixels);
    k.compute_luminance();
    k.compute_gradient();
    assert_eq!(k.get_pixel(2, 2).a, 255);
    for &(x, y) in &[(1, 1), (2, 1), (3, 1), (1, 2), (3, 2), (1, 3), (2, 3), (3, 3)] {
        assert_eq!(k.get_pixel(x, y).a, 0);
    }
}

#[test]
fn gradient_bright_dot_far_pixels_near_opaque() {
    // a wider field: interior pixels far from the dot see no gradient and
    // keep alpha 255
    let mut pixels = vec![(10u8, 10u8, 10u8, 255u8); 49];
    pixels[3 * 7 + 3] = (250, 250, 250, 255);
    let mut k = make(7, 7, &pixels);
    k.compute_luminance();
    k.compute_gradient();
    assert_eq!(k.get_pixel(1, 1).a, 255);
    assert_eq!(k.get_pixel(5, 5).a, 255);
    assert_eq!(k.get_pixel(3, 3).a, 255);
    assert_eq!(k.get_pixel(2, 2).a, 0);
}

#[test]
fn scale_uniform_image_doubles_dimensions() {
    let mut k = uniform(2, 2, (50, 100, 150, 200));
    assert_eq!(k.scale(4, 4), Ok(()));
    assert_eq!(k.width(), 4);
    assert_eq!(k.height(), 4);
    for y in 0..4 {
        for x in 0..4 {
            assert_eq!(k.get_pixel(x, y), px(50, 100, 150, 200));
        }
    }
}

#[test]
fn scale_to_single_pixel() {
    let k0 = make(
        2,
        2,
        &[(1, 2, 3, 4), (5, 6, 7, 8), (9, 10, 11, 12), (13, 14, 15, 16)],
    );
    let mut k = k0;
    assert_eq!(k.scale(1, 1), Ok(()));
    assert_eq!(k.width(), 1);
    assert_eq!(k.height(), 1);
    assert_eq!(k.get_pixel(0, 0), px(1, 2, 3, 4));
}

#[test]
fn scale_rejects_zero_target() {
    let mut k = uniform(2, 2, (1, 2, 3, 4));
    assert_eq!(k.scale(0, 4), Err(KernelError::InvalidInput));
    assert_eq!(k.scale(4, 0), Err(KernelError::InvalidInput));
    assert_eq!(k.width(), 2);
    assert_eq!(k.height(), 2);
}
