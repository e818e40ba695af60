use cairus::float_bits::{below_zero, float_eq, is_nan};

fn samples() -> Vec<f32> {
    vec![
        0.0,
        -0.0,
        1.0,
        -1.0,
        1.5,
        -2.5,
        f32::MIN_POSITIVE,
        -f32::MIN_POSITIVE,
        f32::from_bits(1),
        f32::from_bits(0x8000_0001),
        f32::MAX,
        f32::MIN,
        f32::INFINITY,
        f32::NEG_INFINITY,
        f32::NAN,
        -f32::NAN,
        f32::from_bits(0x7f80_0001),
        f32::from_bits(0xff80_0001),
        f32::from_bits(0x7fff_ffff),
    ]
}

#[test]
fn is_nan_agrees_with_f32() {
    for x in samples() {
        assert_eq!(is_nan(x.to_bits()), x.is_nan(), "{:?}", x);
    }
}

#[test]
fn below_zero_agrees_with_f32() {
    for x in samples() {
        assert_eq!(below_zero(x.to_bits()), x < 0.0, "{:?}", x);
    }
}

#[test]
fn float_eq_agrees_with_f32() {
    for a in samples() {
        for b in samples() {
            assert_eq!(float_eq(a.to_bits(), b.to_bits()), a == b, "{:?} {:?}", a, b);
        }
    }
}
