use levitation::color::Color;
use levitation::frame::Frame;
use levitation::hsv::{rgb_to_hsv, Hsv};
use levitation::segment::{isolate_obj, isolate_obj_hsv, lower_upper};

#[test]
fn tolerance_window_brackets_the_reference() {
    let samples = [
        Color::new(0, 128, 255),
        Color::new(10, 10, 10),
        Color::new(250, 3, 77),
    ];
    for c in samples {
        for t in [0u8, 5, 20, 255] {
            let (lower, upper) = lower_upper(c, t);
            assert!(lower.r() <= c.r() && c.r() <= upper.r());
            assert!(lower.g() <= c.g() && c.g() <= upper.g());
            assert!(lower.b() <= c.b() && c.b() <= upper.b());
        }
    }
}

#[test]
fn window_collapses_at_channel_extremes() {
    let (lower, upper) = lower_upper(Color::new(10, 250, 128), 20);
    assert_eq!(lower, Color::new(0, 230, 108));
    assert_eq!(upper, Color::new(30, 255, 148));
}

#[test]
fn rgb_mask_flags_exactly_the_in_band_pixels() {
    let frame = Frame::from_pixels(
        2,
        2,
        vec![
            Color::new(100, 100, 100),
            Color::new(89, 100, 100),
            Color::new(110, 110, 110),
            Color::new(100, 100, 111),
        ],
    );
    let mask = isolate_obj(&frame, Color::new(100, 100, 100), 10);
    assert_eq!(mask, vec![255, 0, 255, 0]);
}

#[test]
fn full_tolerance_matches_everything_zero_matches_exact_only() {
    let frame = Frame::from_pixels(
        1,
        3,
        vec![
            Color::new(0, 0, 0),
            Color::new(42, 42, 42),
            Color::new(255, 255, 255),
        ],
    );
    let all = isolate_obj(&frame, Color::new(7, 7, 7), 255);
    assert_eq!(all, vec![255, 255, 255]);
    let exact = isolate_obj(&frame, Color::new(42, 42, 42), 0);
    assert_eq!(exact, vec![0, 255, 0]);
}

#[test]
fn rgb_segmentation_is_idempotent() {
    let frame = Frame::from_pixels(
        2,
        2,
        vec![
            Color::new(1, 2, 3),
            Color::new(200, 199, 198),
            Color::new(100, 100, 100),
            Color::new(0, 255, 0),
        ],
    );
    let first = isolate_obj(&frame, Color::new(100, 101, 99), 17);
    let second = isolate_obj(&frame, Color::new(100, 101, 99), 17);
    assert_eq!(first, second);
}

#[test]
fn hsv_segmentation_is_idempotent() {
    let frame = Frame::from_pixels(
        2,
        1,
        vec![Color::new(255, 0, 0), Color::new(0, 0, 255)],
    );
    let reference = Hsv::new(0, 255, 255);
    let tolerance = Hsv::new(10, 30, 30);
    let first = isolate_obj_hsv(&frame, reference, tolerance);
    let second = isolate_obj_hsv(&frame, reference, tolerance);
    assert_eq!(first, second);
}

#[test]
fn hsv_mask_bands_around_the_converted_reference() {
    // A red-ish object against green and blue distractors.
    let object = Color::new(250, 10, 5);
    let frame = Frame::from_pixels(
        2,
        2,
        vec![
            object,
            Color::new(255, 30, 20),
            Color::new(0, 255, 0),
            Color::new(0, 0, 255),
        ],
    );
    let reference = rgb_to_hsv(object);
    let mask = isolate_obj_hsv(&frame, reference, Hsv::new(5, 60, 60));
    assert_eq!(mask, vec![255, 255, 0, 0]);
}

#[test]
fn hue_band_clamps_at_the_top_instead_of_wrapping() {
    // Pixel hue 180 (see the conversion tests); reference hue 175 with
    // tolerance 20 clamps its upper bound to 180, so the pixel matches.
    let wrap_pixel = Color::new(255, 0, 1);
    let frame = Frame::from_pixels(1, 1, vec![wrap_pixel]);
    let hsv = rgb_to_hsv(wrap_pixel);
    let mask = isolate_obj_hsv(
        &frame,
        Hsv::new(175, hsv.s, hsv.v),
        Hsv::new(20, 0, 0),
    );
    assert_eq!(mask, vec![255]);
    // A hue far below stays outside the band: lower bound 155.
    let low_pixel = Color::new(0, 255, 0); // hue 60
    let frame2 = Frame::from_pixels(1, 1, vec![low_pixel]);
    let low = rgb_to_hsv(low_pixel);
    let mask2 = isolate_obj_hsv(
        &frame2,
        Hsv::new(175, low.s, low.v),
        Hsv::new(20, 0, 0),
    );
    assert_eq!(mask2, vec![0]);
}

#[test]
fn mask_length_matches_pixel_count() {
    let frame = Frame::filled(3, 4, Color::new(9, 9, 9));
    let mask = isolate_obj(&frame, Color::new(9, 9, 9), 1);
    assert_eq!(mask.len(), 12);
    assert!(mask.iter().all(|&m| m == 255));
}
