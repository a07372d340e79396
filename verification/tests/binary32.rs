use complex_clip::binary32::{
    Binary32, HALF_BITS, INFINITY_BITS, ONE_BITS, SIGN_BIT, ZERO_BITS,
};

fn b(x: f32) -> Binary32 {
    Binary32::from_bits(x.to_bits())
}

fn f(x: Binary32) -> f32 {
    f32::from_bits(x.to_bits())
}

/// Values on both sides of zero, at the edges of the format, and NaNs of
/// both signs.
fn samples() -> Vec<f32> {
    vec![
        0.0,
        -0.0,
        f32::from_bits(1),
        -f32::from_bits(1),
        f32::MIN_POSITIVE,
        -f32::MIN_POSITIVE,
        0.001,
        0.01,
        0.05,
        1.0 / 3.0,
        0.5,
        0.6,
        1.0,
        1.5,
        2.0,
        -0.05,
        -0.5,
        -1.0,
        -2.0,
        100.0,
        -100.0,
        f32::MAX,
        f32::MIN,
        f32::INFINITY,
        f32::NEG_INFINITY,
        f32::NAN,
        -f32::NAN,
        f32::from_bits(0x7f80_0001),
        f32::from_bits(0xffff_ffff),
    ]
}

#[test]
fn named_patterns_are_those_of_the_values() {
    assert_eq!(ZERO_BITS, 0.0f32.to_bits());
    assert_eq!(ONE_BITS, 1.0f32.to_bits());
    assert_eq!(HALF_BITS, 0.5f32.to_bits());
    assert_eq!(INFINITY_BITS, f32::INFINITY.to_bits());
    assert_eq!(SIGN_BIT, (-0.0f32).to_bits());
}

#[test]
fn bits_round_trip() {
    for x in samples() {
        assert_eq!(Binary32::from_bits(x.to_bits()).to_bits(), x.to_bits());
        assert_eq!(Binary32::from_bits(x.to_bits()).bits, x.to_bits());
    }
}

#[test]
fn is_nan_and_is_finite_agree_with_the_hardware() {
    for x in samples() {
        assert_eq!(b(x).is_nan(), x.is_nan(), "is_nan of {:?}", x);
        assert_eq!(b(x).is_finite(), x.is_finite(), "is_finite of {:?}", x);
    }
}

#[test]
fn order_agrees_with_the_hardware() {
    for x in samples() {
        for y in samples() {
            assert_eq!(b(x).lt(b(y)), x < y, "{:?} < {:?}", x, y);
            assert_eq!(b(x).le(b(y)), x <= y, "{:?} <= {:?}", x, y);
            assert_eq!(b(x).gt(b(y)), x > y, "{:?} > {:?}", x, y);
            assert_eq!(b(x).ge(b(y)), x >= y, "{:?} >= {:?}", x, y);
        }
    }
}

#[test]
fn both_zeros_are_equal_in_order_but_not_in_pattern() {
    assert!(b(0.0).le(b(-0.0)));
    assert!(b(-0.0).le(b(0.0)));
    assert!(!b(0.0).lt(b(-0.0)));
    assert!(!b(-0.0).lt(b(0.0)));
    assert_ne!(b(0.0), b(-0.0));
}

#[test]
fn a_nan_is_below_nothing_and_above_nothing() {
    let nan = b(f32::NAN);
    for x in samples() {
        assert!(!nan.lt(b(x)));
        assert!(!nan.le(b(x)));
        assert!(!nan.gt(b(x)));
        assert!(!nan.ge(b(x)));
    }
}

#[test]
fn neg_agrees_with_the_hardware() {
    for x in samples() {
        assert_eq!(b(x).neg().to_bits(), (-x).to_bits(), "-{:?}", x);
    }
    assert_eq!(b(1.0).neg(), b(-1.0));
    assert_eq!(b(-0.5).neg(), b(0.5));
    assert_eq!(b(0.0).neg(), b(-0.0));
}

#[test]
fn max_and_min_agree_with_the_hardware() {
    for x in samples() {
        for y in samples() {
            let (hi, lo) = (x.max(y), x.min(y));
            if hi.is_nan() {
                assert!(b(x).max(b(y)).is_nan());
                assert!(b(x).min(b(y)).is_nan());
            } else if x == y {
                // Equal values: the hardware may give either operand.
                assert!(f(b(x).max(b(y))) == hi);
                assert!(f(b(x).min(b(y))) == lo);
            } else {
                assert_eq!(b(x).max(b(y)).to_bits(), hi.to_bits(), "max({:?}, {:?})", x, y);
                assert_eq!(b(x).min(b(y)).to_bits(), lo.to_bits(), "min({:?}, {:?})", x, y);
            }
        }
    }
}

#[test]
fn max_and_min_ignore_a_nan() {
    let nan = b(f32::NAN);
    assert_eq!(nan.max(b(0.05)), b(0.05));
    assert_eq!(b(0.05).max(nan), b(0.05));
    assert_eq!(nan.min(b(0.5)), b(0.5));
    assert_eq!(b(0.5).min(nan), b(0.5));
}

#[test]
fn max_and_min_give_exact_values() {
    assert_eq!(b(-1.0).max(b(0.05)), b(0.05));
    assert_eq!(b(2.0).max(b(0.05)), b(2.0));
    assert_eq!(b(0.6).min(b(0.5)), b(0.5));
    assert_eq!(b(-3.0).min(b(0.5)), b(-3.0));
    assert_eq!(b(f32::NEG_INFINITY).min(b(0.5)), b(f32::NEG_INFINITY));
    assert_eq!(b(f32::INFINITY).max(b(0.05)), b(f32::INFINITY));
}

#[test]
fn equal_values_give_the_first_operand() {
    assert_eq!(b(0.0).max(b(-0.0)), b(0.0));
    assert_eq!(b(-0.0).max(b(0.0)), b(-0.0));
    assert_eq!(b(0.0).min(b(-0.0)), b(0.0));
    assert_eq!(b(-0.0).min(b(0.0)), b(-0.0));
}

/// A fixed walk over the 32-bit patterns.
fn patterns(count: usize) -> Vec<u32> {
    let mut state: u32 = 0x1234_5678;
    let mut v = Vec::with_capacity(count);
    for _ in 0..count {
        state = state.wrapping_mul(1_664_525).wrapping_add(1_013_904_223);
        v.push(state);
    }
    v
}

#[test]
fn order_agrees_with_the_hardware_on_many_patterns() {
    let ps = patterns(20_000);
    for pair in ps.windows(2) {
        let (p, q) = (pair[0], pair[1]);
        let (x, y) = (f32::from_bits(p), f32::from_bits(q));
        let (a, c) = (Binary32::from_bits(p), Binary32::from_bits(q));
        assert_eq!(a.is_nan(), x.is_nan());
        assert_eq!(a.is_finite(), x.is_finite());
        assert_eq!(a.lt(c), x < y);
        assert_eq!(a.le(c), x <= y);
        assert_eq!(a.gt(c), x > y);
        assert_eq!(a.ge(c), x >= y);
        assert_eq!(a.neg().to_bits(), (-x).to_bits());
        if !x.is_nan() && !y.is_nan() && x != y {
            assert_eq!(a.max(c).to_bits(), x.max(y).to_bits());
            assert_eq!(a.min(c).to_bits(), x.min(y).to_bits());
        }
    }
}

#[test]
fn order_agrees_with_the_hardware_on_neighbouring_patterns() {
    for p in patterns(2_000) {
        for q in [p.wrapping_sub(1), p, p.wrapping_add(1), p ^ 0x8000_0000] {
            let (x, y) = (f32::from_bits(p), f32::from_bits(q));
            let (a, c) = (Binary32::from_bits(p), Binary32::from_bits(q));
            assert_eq!(a.lt(c), x < y);
            assert_eq!(a.le(c), x <= y);
        }
    }
}
