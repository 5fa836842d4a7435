use calc_number::encoding::{
    in_prefix_range, is_zero, magnitude, settled, MAGNITUDE_BITS, ONE, ONE_THOUSAND,
    TOLERANCE_HIGH, TOLERANCE_LOW,
};

fn samples() -> Vec<f64> {
    let mut v = vec![
        0.0,
        -0.0,
        f64::MIN_POSITIVE,
        5e-324,
        1e-300,
        1e-15,
        0.00009999,
        0.0001,
        0.00010001,
        0.5,
        0.9998,
        0.9999,
        0.99990001,
        0.9999999999999999,
        1.0,
        1.0000000000000002,
        2.0,
        10.0,
        999.0,
        999.9999999999999,
        1000.0,
        1000.0000000000001,
        1e15,
        1e300,
        f64::MAX,
        f64::INFINITY,
        f64::NAN,
    ];
    let negatives: Vec<f64> = v.iter().map(|x| -x).collect();
    v.extend(negatives);
    v
}

#[test]
fn thresholds_are_encoded() {
    assert_eq!(ONE, 1.0f64.to_bits());
    assert_eq!(ONE_THOUSAND, 1000.0f64.to_bits());
    assert_eq!(TOLERANCE_LOW, 0.0001f64.to_bits());
    assert_eq!(TOLERANCE_HIGH, 0.9999f64.to_bits());
    assert_eq!(MAGNITUDE_BITS, u64::MAX >> 1);
}

#[test]
fn prefix_range_is_from_one_to_a_thousand() {
    for x in samples() {
        assert_eq!(in_prefix_range(x.to_bits()), x >= 1.0 && x < 1000.0, "{}", x);
    }
}

#[test]
fn settled_is_outside_the_tolerances() {
    for x in samples() {
        assert_eq!(settled(x.to_bits()), !(x > 0.0001 && x < 0.9999), "{}", x);
    }
}

#[test]
fn magnitude_is_the_absolute_value() {
    for x in samples() {
        assert_eq!(magnitude(x.to_bits()), x.abs().to_bits(), "{}", x);
    }
}

#[test]
fn zero_has_two_encodings() {
    for x in samples() {
        assert_eq!(is_zero(x.to_bits()), x == 0.0, "{}", x);
    }
    assert!(is_zero(0));
    assert!(is_zero(1u64 << 63));
    assert!(!is_zero(1));
}
