use levitation::color::Color;

#[test]
fn color_ops() {
    assert_eq!(
        Color::new(75, 75, 75) * Color::new(100, 100, 100),
        Color::white()
    );
    assert_eq!(
        Color::new(50, 50, 50) - Color::new(20, 20, 20),
        Color::new(30, 30, 30)
    );
    assert_eq!(Color::new(30, 30, 30) - 20, Color::new(10, 10, 10));
    assert_eq!(Color::new(30, 30, 30) - 40, Color::new(0, 0, 0));
}

#[test]
fn saturating_sub_never_underflows() {
    assert_eq!(Color::new(10, 10, 10) - 20, Color::new(0, 0, 0));
    assert_eq!(
        Color::new(10, 10, 10) - Color::new(20, 20, 20),
        Color::new(0, 0, 0)
    );
}

#[test]
fn saturating_mul_saturates_to_white() {
    assert_eq!(
        Color::new(75, 75, 75) * Color::new(100, 100, 100),
        Color::new(255, 255, 255)
    );
    assert_eq!(Color::new(100, 2, 1) * 3, Color::new(255, 6, 3));
}

#[test]
fn saturating_add_caps_at_channel_max() {
    assert_eq!(
        Color::new(250, 1, 128) + Color::new(10, 2, 128),
        Color::new(255, 3, 255)
    );
    assert_eq!(Color::new(250, 0, 5) + 10, Color::new(255, 10, 15));
}

#[test]
fn division_and_remainder_truncate() {
    assert_eq!(
        Color::new(9, 10, 255) / Color::new(2, 5, 4),
        Color::new(4, 2, 63)
    );
    assert_eq!(Color::new(9, 10, 255) / 2, Color::new(4, 5, 127));
    assert_eq!(
        Color::new(9, 10, 255) % Color::new(2, 5, 4),
        Color::new(1, 0, 3)
    );
    assert_eq!(Color::new(9, 10, 255) % 7, Color::new(2, 3, 3));
}

#[test]
fn negation_inverts_channels() {
    assert_eq!(-Color::new(0, 255, 1), Color::new(255, 0, 254));
    assert_eq!(-Color::black(), Color::white());
}

#[test]
fn named_colors_and_accessors() {
    assert_eq!(Color::black(), Color::new(0, 0, 0));
    assert_eq!(Color::white(), Color::new(255, 255, 255));
    assert_eq!(Color::red(), Color::new(255, 0, 0));
    assert_eq!(Color::green(), Color::new(0, 255, 0));
    assert_eq!(Color::blue(), Color::new(0, 0, 255));
    let c = Color::new(1, 2, 3);
    assert_eq!(c.r(), 1);
    assert_eq!(c.g(), 2);
    assert_eq!(c.b(), 3);
}

#[test]
fn channel_setters_overwrite_one_channel() {
    let mut c = Color::new(1, 2, 3);
    c.r_mut(10);
    c.g_mut(20);
    c.b_mut(30);
    assert_eq!(c, Color::new(10, 20, 30));
}

#[test]
fn assign_ops_match_their_operators() {
    let mut c = Color::new(200, 100, 50);
    c.add_assign(Color::new(100, 1, 2));
    assert_eq!(c, Color::new(255, 101, 52));
    c.sub_assign(Color::new(255, 1, 2));
    assert_eq!(c, Color::new(0, 100, 50));
    c.mul_assign(Color::new(3, 3, 3));
    assert_eq!(c, Color::new(0, 255, 150));
    c.div_assign(Color::new(1, 2, 4));
    assert_eq!(c, Color::new(0, 127, 37));
    c.rem_assign(Color::new(7, 7, 7));
    assert_eq!(c, Color::new(0, 1, 2));
    c.add_assign_scalar(250);
    assert_eq!(c, Color::new(250, 251, 252));
    c.sub_assign_scalar(2);
    assert_eq!(c, Color::new(248, 249, 250));
    c.mul_assign_scalar(2);
    assert_eq!(c, Color::new(255, 255, 255));
    c.div_assign_scalar(10);
    assert_eq!(c, Color::new(25, 25, 25));
    c.rem_assign_scalar(4);
    assert_eq!(c, Color::new(1, 1, 1));
}
