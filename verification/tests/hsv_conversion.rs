use levitation::color::Color;
use levitation::hsv::{rgb_to_hsv, Hsv};

#[test]
fn pure_white_is_hueless_and_unsaturated() {
    let out = rgb_to_hsv(Color::new(255, 255, 255));
    assert_eq!(out, Hsv::new(0, 0, 255));
}

#[test]
fn pure_red_has_hue_zero_full_saturation() {
    let out = rgb_to_hsv(Color::new(255, 0, 0));
    assert_eq!(out, Hsv::new(0, 255, 255));
}

#[test]
fn pure_black_converts_without_panicking() {
    let out = rgb_to_hsv(Color::new(0, 0, 0));
    assert_eq!(out.s, 0);
    assert_eq!(out.v, 0);
}

#[test]
fn primary_hues_land_on_half_scale_sectors() {
    assert_eq!(rgb_to_hsv(Color::new(0, 255, 0)), Hsv::new(60, 255, 255));
    assert_eq!(rgb_to_hsv(Color::new(0, 0, 255)), Hsv::new(120, 255, 255));
    assert_eq!(rgb_to_hsv(Color::new(255, 255, 0)), Hsv::new(30, 255, 255));
    assert_eq!(rgb_to_hsv(Color::new(0, 255, 255)), Hsv::new(90, 255, 255));
    assert_eq!(rgb_to_hsv(Color::new(255, 0, 255)), Hsv::new(150, 255, 255));
}

#[test]
fn gray_inputs_keep_hue_and_saturation_zero() {
    let out = rgb_to_hsv(Color::new(128, 128, 128));
    assert_eq!(out, Hsv::new(0, 0, 128));
}

#[test]
fn red_with_a_trace_of_blue_wraps_to_the_top_of_the_scale() {
    // max == red and blue barely above green: the sector fraction floors to
    // zero, so the degrees land on 360 and the half-scale hue on 180.
    let out = rgb_to_hsv(Color::new(255, 0, 1));
    assert_eq!(out.h, 180);
    assert!(out.h <= 180);
}

#[test]
fn mixed_color_follows_the_integer_sector_formula() {
    // (100, 50, 25): value 100, delta 75, saturation 255*75/100 = 191,
    // degrees 60*(50-25)/75 = 20, hue 10.
    let out = rgb_to_hsv(Color::new(100, 50, 25));
    assert_eq!(out, Hsv::new(10, 191, 100));
}
