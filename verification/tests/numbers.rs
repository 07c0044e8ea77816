use niri_workspace::{Binary64, Point, Rectangle, Scale, ScaleKind, Size, SizeI32};

fn b(x: f64) -> Binary64 {
    Binary64::from_bits(x.to_bits())
}

fn samples() -> Vec<f64> {
    vec![
        0.0,
        -0.0,
        1.0,
        -1.0,
        0.5,
        -0.5,
        0.49999999999999994,
        1.5,
        2.5,
        -2.5,
        1.0 / 3.0,
        720.0,
        1280.0,
        1366.4,
        f64::MIN_POSITIVE,
        5e-324,
        -5e-324,
        f64::MAX,
        f64::MIN,
        f64::INFINITY,
        f64::NEG_INFINITY,
        f64::NAN,
        -f64::NAN,
        2147483646.5,
        2147483647.0,
        2147483647.4,
        2147483647.5,
        2147483648.0,
        -2147483648.0,
        -2147483648.5,
        -2147483649.0,
        4503599627370495.5,
        9007199254740993.0,
        1e300,
        -1e-300,
    ]
}

#[test]
fn bits_go_in_and_come_out() {
    for x in samples() {
        assert_eq!(b(x).to_bits(), x.to_bits());
    }
}

#[test]
fn equality_is_that_of_doubles() {
    for x in samples() {
        for y in samples() {
            assert_eq!(b(x) == b(y), x == y, "{} {}", x, y);
        }
    }
}

#[test]
fn order_is_that_of_doubles() {
    for x in samples() {
        for y in samples() {
            assert_eq!(b(x).is_below(b(y)), x < y, "{} {}", x, y);
        }
    }
}

#[test]
fn classification_is_that_of_doubles() {
    for x in samples() {
        assert_eq!(b(x).is_nan(), x.is_nan());
        assert_eq!(b(x).is_finite(), x.is_finite());
        assert_eq!(b(x).is_positive(), x > 0.0);
    }
}

#[test]
fn negation_is_that_of_doubles() {
    for x in samples() {
        assert_eq!(b(x).negate().to_bits(), (-x).to_bits());
        assert_eq!(b(x).negate().negate().to_bits(), x.to_bits());
    }
}

#[test]
fn rounding_is_that_of_doubles() {
    for x in samples() {
        assert_eq!(b(x).round_to_i32(), x.round() as i32, "{}", x);
    }
    let mut x = -3.0;
    while x < 3.0 {
        assert_eq!(b(x).round_to_i32(), x.round() as i32, "{}", x);
        x += 0.0625;
    }
    let mut y = 1.0e-3;
    while y < 1.0e11 {
        assert_eq!(b(y).round_to_i32(), y.round() as i32, "{}", y);
        assert_eq!(b(-y).round_to_i32(), (-y).round() as i32, "{}", -y);
        y *= 1.37;
    }
}

#[test]
fn rounding_a_half_goes_away_from_zero() {
    assert_eq!(b(2.5).round_to_i32(), 3);
    assert_eq!(b(-2.5).round_to_i32(), -3);
    assert_eq!(b(0.49999999999999994).round_to_i32(), 0);
    assert_eq!(b(f64::NAN).round_to_i32(), 0);
    assert_eq!(b(1e10).round_to_i32(), i32::MAX);
    assert_eq!(b(-1e10).round_to_i32(), i32::MIN);
}

#[test]
fn sizes_round_to_whole_pixels() {
    let size = Size { w: b(1366.5), h: b(767.4) };
    assert_eq!(size.to_i32_round(), SizeI32 { w: 1367, h: 767 });
}

#[test]
fn shapes_compare_by_their_numbers() {
    let zero = Point { x: b(0.0), y: b(-0.0) };
    assert!(zero == Point::origin());
    assert!(zero.mirror() == zero);
    assert!(Point { x: b(1.0), y: b(2.0) }.mirror() == Point { x: b(-1.0), y: b(-2.0) });
    let size = Size { w: b(3.0), h: b(4.0) };
    assert!(size != Size { w: b(3.0), h: b(5.0) });
    let rect = Rectangle { loc: zero, size };
    assert!(rect == Rectangle { loc: Point::origin(), size });
    assert!(rect != Rectangle { loc: Point { x: b(1.0), y: b(0.0) }, size });
    let nowhere = Point { x: b(f64::NAN), y: b(0.0) };
    assert!(nowhere != nowhere);
}

#[test]
fn scales_compare_by_their_numbers_and_not_by_their_kind() {
    let integer = Scale { kind: ScaleKind::Integer, integer: 2, fractional: b(2.0) };
    let custom = Scale { kind: ScaleKind::Custom, integer: 2, fractional: b(2.0) };
    let advertised = Scale { kind: ScaleKind::Custom, integer: 3, fractional: b(2.0) };
    let factor = Scale { kind: ScaleKind::Custom, integer: 2, fractional: b(1.75) };
    assert!(integer.equal_to(custom));
    assert!(!integer.equal_to(advertised));
    assert!(!integer.equal_to(factor));
}
