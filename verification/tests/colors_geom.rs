use ehmi::{
    clamp_i16, clamp_i64, div_trunc, get_text_color, gray, gray_dark, lerp_milli, success_color,
    warn_color, Color,
};

#[test]
fn text_color_contrasts_with_theme() {
    assert_eq!(get_text_color(true), Color { r: 255, g: 255, b: 255, a: 255 });
    assert_eq!(get_text_color(false), Color { r: 0, g: 0, b: 0, a: 255 });
}

#[test]
fn shared_color_values() {
    assert_eq!(success_color(), Color { r: 0, g: 255, b: 0, a: 255 });
    assert_eq!(warn_color(), Color { r: 255, g: 165, b: 0, a: 255 });
    assert_eq!(gray(), Color { r: 169, g: 169, b: 169, a: 255 });
    assert_eq!(gray_dark(), Color { r: 47, g: 47, b: 47, a: 255 });
}

#[test]
fn color_constructors() {
    assert_eq!(Color::rgb(1, 2, 3), Color { r: 1, g: 2, b: 3, a: 255 });
    assert_eq!(Color::from_gray(100), Color { r: 100, g: 100, b: 100, a: 255 });
    assert_eq!(Color::white(), Color { r: 255, g: 255, b: 255, a: 255 });
    assert_eq!(Color::black(), Color { r: 0, g: 0, b: 0, a: 255 });
}

#[test]
fn clamp_stays_within_bounds() {
    assert_eq!(clamp_i64(-5, 0, 100), 0);
    assert_eq!(clamp_i64(42, 0, 100), 42);
    assert_eq!(clamp_i64(250, 0, 100), 100);
    assert_eq!(clamp_i64(0, 0, 0), 0);
    assert_eq!(clamp_i16(-400, -360, 360), -360);
    assert_eq!(clamp_i16(400, -360, 360), 360);
    assert_eq!(clamp_i16(90, -360, 360), 90);
}

#[test]
fn truncating_division_rounds_toward_zero() {
    assert_eq!(div_trunc(7, 2), 3);
    assert_eq!(div_trunc(-7, 2), -3);
    assert_eq!(div_trunc(0, 5), 0);
}

#[test]
fn lerp_covers_both_ends() {
    assert_eq!(lerp_milli(10_000, 30_000, 0), 10_000);
    assert_eq!(lerp_milli(10_000, 30_000, 500), 20_000);
    assert_eq!(lerp_milli(10_000, 30_000, 1000), 30_000);
    assert_eq!(lerp_milli(30_000, 10_000, 250), 25_000);
}
