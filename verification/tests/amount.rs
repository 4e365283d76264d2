//! Numbers at single precision, by their bits.
use stark_ui::amount::{amount, Amount, Places};

fn n(v: f32) -> Amount {
    Amount { bits: v.to_bits() }
}

const NUMBERS: [f32; 26] = [
    0.0, -0.0, 0.005, 0.015, 0.025, 0.125, 0.375, -0.375, 0.995, 0.999, 1.0, 1.005, -2.675, 0.05,
    0.45, 0.25, 9.95, 99.95, 123.456, -1234.5678, 8388607.5, 16777216.0, 3.0e10, 1.0e-30, f32::MAX,
    f32::MIN_POSITIVE,
];

#[test]
fn an_amount_is_written_as_the_number_it_is() {
    for v in NUMBERS {
        assert_eq!(n(v).fixed(Places::Two, false), format!("{v:.2}"));
        assert_eq!(n(v).fixed(Places::Two, true), format!("{v:+.2}"));
        assert_eq!(n(v).fixed(Places::One, false), format!("{v:.1}"));
        assert_eq!(n(v).rounded(), v.round() as i32, "{v}");
    }
    for v in [f32::NAN, f32::INFINITY, f32::NEG_INFINITY] {
        assert_eq!(n(v).fixed(Places::Two, true), format!("{v:+.2}"));
        assert_eq!(n(v).rounded(), v as i32);
    }
    let mut bits: u32 = 1;
    for _ in 0..20_000 {
        bits = bits.wrapping_mul(1_664_525).wrapping_add(1_013_904_223);
        let v = f32::from_bits(bits);
        assert_eq!(amount(bits).fixed(Places::Two, false), format!("{v:.2}"), "{bits:x}");
        assert_eq!(amount(bits).rounded(), v.round() as i32, "{bits:x}");
    }
}

#[test]
fn amounts_are_compared_as_the_numbers_they_are() {
    for a in NUMBERS {
        for b in NUMBERS {
            assert_eq!(n(a).same(n(b)), a == b, "{a} {b}");
            assert_eq!(n(a).below(n(b)), a < b, "{a} {b}");
        }
        assert!(n(a).finite());
    }
    assert!(!n(f32::NAN).same(n(f32::NAN)));
    assert!(!n(f32::NAN).finite() && !n(f32::INFINITY).finite());
}
