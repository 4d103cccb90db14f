use anime4k::intmath::isqrt;
use anime4k::pixel::{clamp, extract_pixel_rgba, get_alpha_avg, get_brightness, get_largest_alpha_avg, Pixel};

fn px(r: u8, g: u8, b: u8, a: u8) -> Pixel {
    Pixel { r, g, b, a }
}

#[test]
fn clamp_inside_range() {
    assert_eq!(clamp(5, 0, 255), 5);
}

#[test]
fn clamp_above_range() {
    assert_eq!(clamp(300, 0, 255), 255);
}

#[test]
fn clamp_below_range() {
    assert_eq!(clamp(2, 10, 20), 10);
}

#[test]
fn extract_pixel_rgba_returns_channels() {
    let p = px(1, 2, 3, 4);
    assert_eq!(extract_pixel_rgba(&p), (1, 2, 3, 4));
}

#[test]
fn brightness_black_and_white() {
    assert_eq!(get_brightness(0, 0, 0), 0);
    assert_eq!(get_brightness(255, 255, 255), 255);
}

#[test]
fn brightness_exact_formula() {
    // (2*10 + 3*20 + 30) / 6 = 110 / 6 = 18
    assert_eq!(get_brightness(10, 20, 30), 18);
    // (2*200 + 3*100 + 50) / 6 = 750 / 6 = 125
    assert_eq!(get_brightness(200, 100, 50), 125);
    assert_eq!(get_brightness(128, 128, 128), 128);
}

#[test]
fn blend_strength_zero_keeps_original() {
    let cc = px(100, 100, 100, 100);
    let n = px(200, 200, 200, 200);
    assert_eq!(get_alpha_avg(&cc, &n, &n, &n, 0), cc);
}

#[test]
fn blend_strength_full_takes_average() {
    let cc = px(100, 100, 100, 100);
    let a = px(10, 10, 10, 10);
    let b = px(20, 20, 20, 20);
    let c = px(40, 40, 40, 40);
    // avg = (10 + 20 + 40) / 3 = 23, and strength 255 replaces fully
    assert_eq!(get_alpha_avg(&cc, &a, &b, &c, 255), px(23, 23, 23, 23));
}

#[test]
fn blend_strength_midpoint_exact_value() {
    let cc = px(100, 100, 100, 100);
    let n = px(200, 200, 200, 200);
    // (100 * (255 - 128) + 200 * 128) / 255 = 38300 / 255 = 150
    assert_eq!(get_alpha_avg(&cc, &n, &n, &n, 128), px(150, 150, 150, 150));
}

#[test]
fn blend_strength_saturates_above_255() {
    let cc = px(100, 100, 100, 100);
    let n = px(200, 200, 200, 200);
    let full = get_alpha_avg(&cc, &n, &n, &n, 255);
    assert_eq!(get_alpha_avg(&cc, &n, &n, &n, 300), full);
    assert_eq!(get_alpha_avg(&cc, &n, &n, &n, 65535), full);
}

#[test]
fn largest_alpha_avg_keeps_lighter_candidate() {
    let cc = px(50, 50, 50, 50);
    let lightest = px(50, 50, 50, 50);
    let n = px(200, 200, 200, 200);
    // candidate alpha 200 beats the held 50
    assert_eq!(
        get_largest_alpha_avg(&cc, &lightest, &n, &n, &n, 255),
        px(200, 200, 200, 200)
    );
}

#[test]
fn largest_alpha_avg_keeps_held_color_on_tie_or_darker() {
    let cc = px(50, 50, 50, 50);
    let lightest = px(90, 90, 90, 220);
    let n = px(200, 200, 200, 200);
    // candidate alpha 200 does not exceed the held 220
    assert_eq!(
        get_largest_alpha_avg(&cc, &lightest, &n, &n, &n, 255),
        lightest
    );
}

#[test]
fn isqrt_exact_values() {
    assert_eq!(isqrt(0), 0);
    assert_eq!(isqrt(1), 1);
    assert_eq!(isqrt(2), 1);
    assert_eq!(isqrt(3), 1);
    assert_eq!(isqrt(4), 2);
    assert_eq!(isqrt(1600), 40);
    assert_eq!(isqrt(115200), 339);
    assert_eq!(isqrt(u32::MAX), 65535);
}
