use heading_control::Single;

fn single(value: f32) -> Single {
    Single::from_bits(value.to_bits())
}

fn samples() -> Vec<f32> {
    vec![
        f32::NEG_INFINITY,
        f32::MIN,
        -85.0,
        -5.0,
        -1.0e-40,
        -0.0,
        0.0,
        1.0e-40,
        f32::MIN_POSITIVE,
        3.5,
        5.0,
        85.0,
        f32::MAX,
        f32::INFINITY,
        f32::NAN,
        -f32::NAN,
    ]
}

#[test]
fn lt_and_gt_agree_with_the_hardware() {
    for a in samples() {
        for b in samples() {
            assert_eq!(single(a).lt(single(b)), a < b, "{a} < {b}");
            assert_eq!(single(a).gt(single(b)), a > b, "{a} > {b}");
        }
    }
}

#[test]
fn the_two_zeros_are_not_below_each_other() {
    assert!(!single(-0.0).lt(single(0.0)));
    assert!(!single(0.0).lt(single(-0.0)));
    assert!(!single(-0.0).gt(single(0.0)));
}

#[test]
fn a_nan_is_below_and_above_nothing() {
    for a in samples() {
        assert!(!single(f32::NAN).lt(single(a)));
        assert!(!single(a).lt(single(f32::NAN)));
        assert!(!single(f32::NAN).gt(single(a)));
        assert!(!single(a).gt(single(f32::NAN)));
    }
}

#[test]
fn is_nan_agrees_with_the_hardware() {
    for a in samples() {
        assert_eq!(single(a).is_nan(), a.is_nan(), "{a}");
    }
    assert!(!Single::from_bits(0x7F80_0000).is_nan());
    assert!(Single::from_bits(0x7F80_0001).is_nan());
    assert!(!Single::from_bits(0xFF80_0000).is_nan());
    assert!(Single::from_bits(0xFFFF_FFFF).is_nan());
}

#[test]
fn neg_agrees_with_the_hardware() {
    for a in samples() {
        assert_eq!(single(a).neg().to_bits(), (-a).to_bits(), "{a}");
        assert_eq!(single(a).neg().neg(), single(a));
    }
    assert_eq!(single(12.33).neg().to_bits(), (-12.33f32).to_bits());
    assert_eq!(single(0.0).neg().to_bits(), 0x8000_0000);
}

#[test]
fn bits_round_trip() {
    assert_eq!(Single::from_bits(0x4060_0000).to_bits(), 0x4060_0000);
    assert_eq!(f32::from_bits(single(85.0).to_bits()), 85.0);
}

#[test]
fn abs_agrees_with_the_hardware() {
    for a in samples() {
        assert_eq!(single(a).abs().to_bits(), a.abs().to_bits(), "{a}");
    }
    assert_eq!(f32::from_bits(single(-10.0).abs().to_bits()), 10.0);
}

#[test]
fn is_zero_holds_of_the_two_zeros_only() {
    for a in samples() {
        assert_eq!(single(a).is_zero(), a == 0.0, "{a}");
    }
    assert!(single(0.0).is_zero());
    assert!(single(-0.0).is_zero());
    assert!(!Single::from_bits(1).is_zero());
}

#[test]
fn to_i16_agrees_with_the_cast() {
    let mut values = samples();
    values.extend_from_slice(&[
        0.5, -0.5, 0.99999994, 1.0, -1.0, 1.5, -1.5, 2.0, 12.33, -12.33, 350.0, 619.99994,
        620.0, 1000.0, -1000.0, 32766.5, 32767.0, 32767.5, 32767.998, 32768.0, 32769.0,
        -32767.0, -32767.998, -32768.0, -32768.5, -32769.0, 65536.0, -65536.0, 8388608.0,
        16777216.0, 1.0e10, -1.0e10, 1.0e38, -1.0e38,
    ]);
    for a in values {
        assert_eq!(single(a).to_i16(), a as i16, "{a}");
    }
}

#[test]
fn to_i16_agrees_with_the_cast_on_a_sweep_of_patterns() {
    let mut bits: u32 = 0;
    loop {
        let a = f32::from_bits(bits);
        assert_eq!(Single::from_bits(bits).to_i16(), a as i16, "{bits:#x}");
        let (next, overflow) = bits.overflowing_add(0x0000_3FFF);
        if overflow {
            break;
        }
        bits = next;
    }
}

#[test]
fn lt_agrees_with_the_hardware_on_a_sweep_of_patterns() {
    let mut patterns: Vec<u32> = Vec::new();
    let mut bits: u32 = 0;
    loop {
        patterns.push(bits);
        let (next, overflow) = bits.overflowing_add(0x0123_4567);
        if overflow {
            break;
        }
        bits = next;
    }
    for &a in &patterns {
        for &b in &patterns {
            let expected = f32::from_bits(a) < f32::from_bits(b);
            assert_eq!(Single::from_bits(a).lt(Single::from_bits(b)), expected, "{a:#x} {b:#x}");
        }
    }
}

#[test]
fn to_i16_cuts_towards_zero_and_holds_at_the_ends() {
    assert_eq!(single(12.99).to_i16(), 12);
    assert_eq!(single(-12.99).to_i16(), -12);
    assert_eq!(single(40000.0).to_i16(), i16::MAX);
    assert_eq!(single(-40000.0).to_i16(), i16::MIN);
    assert_eq!(single(f32::INFINITY).to_i16(), i16::MAX);
    assert_eq!(single(f32::NEG_INFINITY).to_i16(), i16::MIN);
    assert_eq!(single(f32::NAN).to_i16(), 0);
    assert_eq!(single(1.0e-40).to_i16(), 0);
}
