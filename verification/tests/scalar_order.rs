use pathtracer::scalar::{Scalar, INFINITY_BITS, MAX_BITS, ONE_BITS, SIGN_BIT};

fn scalar(x: f32) -> Scalar {
    Scalar::from_bits(x.to_bits())
}

fn landmarks() -> Vec<u32> {
    let mut patterns = vec![
        0x0000_0000,
        0x8000_0000,
        0x0000_0001,
        0x8000_0001,
        0x007f_ffff,
        0x807f_ffff,
        0x0080_0000,
        0x8080_0000,
        0x3a83_126f,
        0x3f00_0000,
        0x3f7f_ffff,
        0x3f80_0000,
        0x3f80_0001,
        0xbf80_0000,
        0x4000_0000,
        0xc000_0000,
        0x437f_fd71,
        0x7f7f_ffff,
        0xff7f_ffff,
        0x7f80_0000,
        0xff80_0000,
        0x7f80_0001,
        0xff80_0001,
        0x7fc0_0000,
        0xffc0_0000,
        0x7fff_ffff,
        0xffff_ffff,
    ];
    let mut state: u32 = 0x9e37_79b9;
    for _ in 0..400 {
        state ^= state << 13;
        state ^= state >> 17;
        state ^= state << 5;
        patterns.push(state);
    }
    patterns
}

#[test]
fn constants_are_the_patterns_of_their_numbers() {
    assert_eq!(Scalar::zero().to_bits(), 0.0f32.to_bits());
    assert_eq!(Scalar::one().to_bits(), 1.0f32.to_bits());
    assert_eq!(Scalar::max().to_bits(), f32::MAX.to_bits());
    assert_eq!(ONE_BITS, 1.0f32.to_bits());
    assert_eq!(MAX_BITS, f32::MAX.to_bits());
    assert_eq!(INFINITY_BITS, f32::INFINITY.to_bits());
    assert_eq!(SIGN_BIT, (-0.0f32).to_bits());
}

#[test]
fn from_bits_and_to_bits_are_inverse() {
    for bits in landmarks() {
        assert_eq!(Scalar::from_bits(bits).to_bits(), bits);
        assert_eq!(Scalar::from_bits(bits).bits, bits);
    }
}

#[test]
fn is_nan_agrees_with_the_machine() {
    for bits in landmarks() {
        assert_eq!(Scalar::from_bits(bits).is_nan(), f32::from_bits(bits).is_nan(), "{:#x}", bits);
    }
}

#[test]
fn lt_agrees_with_the_machine() {
    for a in landmarks() {
        for b in landmarks() {
            let expected = f32::from_bits(a) < f32::from_bits(b);
            assert_eq!(Scalar::from_bits(a).lt(Scalar::from_bits(b)), expected, "{:#x} {:#x}", a, b);
        }
    }
}

#[test]
fn gt_agrees_with_the_machine() {
    for a in landmarks() {
        for b in landmarks() {
            let expected = f32::from_bits(a) > f32::from_bits(b);
            assert_eq!(Scalar::from_bits(a).gt(Scalar::from_bits(b)), expected, "{:#x} {:#x}", a, b);
        }
    }
}

#[test]
fn le_agrees_with_the_machine() {
    for a in landmarks() {
        for b in landmarks() {
            let expected = f32::from_bits(a) <= f32::from_bits(b);
            assert_eq!(Scalar::from_bits(a).le(Scalar::from_bits(b)), expected, "{:#x} {:#x}", a, b);
        }
    }
}

#[test]
fn ge_agrees_with_the_machine() {
    for a in landmarks() {
        for b in landmarks() {
            let expected = f32::from_bits(a) >= f32::from_bits(b);
            assert_eq!(Scalar::from_bits(a).ge(Scalar::from_bits(b)), expected, "{:#x} {:#x}", a, b);
        }
    }
}

#[test]
fn the_two_zeros_are_equal_as_numbers_and_differ_as_patterns() {
    let plus = scalar(0.0);
    let minus = scalar(-0.0);
    assert!(plus.le(minus) && minus.le(plus));
    assert!(!plus.lt(minus) && !minus.lt(plus));
    assert_ne!(plus, minus);
}

#[test]
fn a_nan_compares_false_with_everything() {
    let nan = scalar(f32::NAN);
    for bits in landmarks() {
        let other = Scalar::from_bits(bits);
        assert!(!nan.lt(other) && !nan.gt(other) && !nan.le(other) && !nan.ge(other));
        assert!(!other.lt(nan) && !other.gt(nan) && !other.le(nan) && !other.ge(nan));
    }
}

#[test]
fn in_unit_range_holds_from_zero_to_one() {
    assert!(scalar(0.0).in_unit_range());
    assert!(scalar(-0.0).in_unit_range());
    assert!(scalar(0.5).in_unit_range());
    assert!(scalar(1.0).in_unit_range());
    assert!(!scalar(1.000_000_1).in_unit_range());
    assert!(!scalar(-0.000_001).in_unit_range());
    assert!(!scalar(f32::NAN).in_unit_range());
    assert!(!scalar(f32::INFINITY).in_unit_range());
    for bits in landmarks() {
        let x = f32::from_bits(bits);
        assert_eq!(Scalar::from_bits(bits).in_unit_range(), x >= 0.0 && x <= 1.0, "{:#x}", bits);
    }
}
