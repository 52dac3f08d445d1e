use llm_bench_core::binary64::Binary64;

fn samples() -> Vec<f64> {
    vec![
        0.0,
        -0.0,
        1.0,
        -1.0,
        0.5,
        0.9,
        1.5,
        2.0,
        -2.5,
        1e-300,
        -1e-300,
        f64::MIN_POSITIVE,
        f64::EPSILON,
        1.0 + f64::EPSILON,
        1.0 - f64::EPSILON / 2.0,
        f64::MAX,
        f64::MIN,
        f64::INFINITY,
        f64::NEG_INFINITY,
        f64::NAN,
        -f64::NAN,
        f64::from_bits(0x7FF0_0000_0000_0001),
        f64::from_bits(1),
        f64::from_bits(0x8000_0000_0000_0001),
    ]
}

#[test]
fn le_agrees_with_float_comparison() {
    for a in samples() {
        for b in samples() {
            let x = Binary64::from_bits(a.to_bits());
            let y = Binary64::from_bits(b.to_bits());
            assert_eq!(x.le(&y), a <= b, "{:?} <= {:?}", a, b);
        }
    }
}

#[test]
fn unit_interval_agrees_with_range() {
    for a in samples() {
        let x = Binary64::from_bits(a.to_bits());
        assert_eq!(x.in_unit_interval(), (0.0..=1.0).contains(&a), "{:?}", a);
    }
}

#[test]
fn nan_detection() {
    for a in samples() {
        assert_eq!(Binary64::from_bits(a.to_bits()).is_nan(), a.is_nan(), "{:?}", a);
    }
    assert_eq!(Binary64::zero().bits, 0.0f64.to_bits());
    assert_eq!(Binary64::one().bits, 1.0f64.to_bits());
}
