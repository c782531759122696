use braket::binary64::{ONE, SIGN_BIT, ZERO};
use braket::complex::C64;

fn c(re: f64, im: f64) -> C64 {
    C64::new(re.to_bits(), im.to_bits())
}

fn re(z: &C64) -> f64 {
    f64::from_bits(z.real_part())
}

fn im(z: &C64) -> f64 {
    f64::from_bits(z.imag())
}

fn parts() -> Vec<f64> {
    vec![0.0, -0.0, 1.0, -1.0, 0.3, -0.65, f64::INFINITY, f64::NEG_INFINITY, f64::NAN, -f64::NAN]
}

/// What formatting the two doubles directly would print.
fn reference_text(re: f64, im: f64) -> String {
    format!("{} {} {}i", re, if im >= 0.0 { "+" } else { "-" }, im.abs())
}

fn text(z: &C64) -> String {
    z.to_text(&format!("{}", re(z)), &format!("{}", im(z).abs()))
}

#[test]
fn new_stores_both_parts() {
    let z = c(0.3, -0.65);
    assert_eq!(re(&z), 0.3);
    assert_eq!(im(&z), -0.65);
    assert_eq!(z.real_part(), 0.3_f64.to_bits());
    assert_eq!(z.imag(), (-0.65_f64).to_bits());
    assert_eq!(z.re, z.real_part());
    assert_eq!(z.im, z.imag());
}

#[test]
fn conj_negates_the_imaginary_part_only() {
    for a in parts() {
        for b in parts() {
            let z = c(a, b).conj();
            assert_eq!(z.real_part(), a.to_bits());
            assert_eq!(z.imag(), (-b).to_bits());
        }
    }
    let z = c(0.25, 0.75).conj();
    assert_eq!(re(&z), 0.25);
    assert_eq!(im(&z), -0.75);
    assert_eq!(c(1.0, 0.0).conj().imag(), SIGN_BIT);
}

#[test]
fn conj_twice_restores_the_number() {
    for a in parts() {
        for b in parts() {
            let z = c(a, b);
            let back = z.conj().conj();
            assert_eq!(back.real_part(), z.real_part());
            assert_eq!(back.imag(), z.imag());
        }
    }
}

#[test]
fn named_constants() {
    assert_eq!((C64::zero().real_part(), C64::zero().imag()), (ZERO, ZERO));
    assert_eq!((C64::one().real_part(), C64::one().imag()), (ONE, ZERO));
    assert_eq!((C64::i().real_part(), C64::i().imag()), (ZERO, ONE));
    assert_eq!((re(&C64::zero()), im(&C64::zero())), (0.0, 0.0));
    assert_eq!((re(&C64::one()), im(&C64::one())), (1.0, 0.0));
    assert_eq!((re(&C64::i()), im(&C64::i())), (0.0, 1.0));
}

#[test]
fn default_is_zero() {
    let z = C64::default();
    assert_eq!((z.real_part(), z.imag()), (ZERO, ZERO));
}

#[test]
fn equality_is_ieee_equality_of_both_parts() {
    for a in parts() {
        for b in parts() {
            for x in parts() {
                for y in parts() {
                    let expected = a == x && b == y;
                    assert_eq!(c(a, b) == c(x, y), expected, "({a}, {b}) vs ({x}, {y})");
                    assert_eq!(c(a, b) != c(x, y), !expected, "({a}, {b}) vs ({x}, {y})");
                }
            }
        }
    }
    assert!(c(0.0, -0.0) == c(-0.0, 0.0));
    assert!(c(f64::NAN, 0.0) != c(f64::NAN, 0.0));
    assert!(c(1.0, 2.0) != c(1.0, -2.0));
}

#[test]
fn a_number_equals_its_conjugate_only_when_it_is_real() {
    for a in parts() {
        for b in parts() {
            let z = c(a, b);
            assert_eq!(z == z.conj(), !a.is_nan() && b == 0.0, "({a}, {b})");
        }
    }
}

#[test]
fn text_joins_the_parts_with_the_sign_of_the_imaginary_part() {
    assert_eq!(text(&c(1.0, 0.0)), "1 + 0i");
    assert_eq!(text(&c(0.3, -0.65)), "0.3 - 0.65i");
    assert_eq!(text(&c(0.0, 1.0)), "0 + 1i");
    assert_eq!(text(&c(-1.0, -1.0)), "-1 - 1i");
    assert_eq!(text(&c(0.25, 0.75)), "0.25 + 0.75i");
}

#[test]
fn text_of_a_negative_zero_imaginary_part_has_a_plus() {
    assert_eq!(text(&c(2.0, -0.0)), "2 + 0i");
    assert_eq!(c(2.0, -0.0).to_text("2", "-0"), "2 + -0i");
}

#[test]
fn text_of_a_nan_imaginary_part_has_a_minus() {
    assert_eq!(text(&c(1.0, f64::NAN)), "1 - NaNi");
    assert_eq!(text(&c(1.0, -f64::NAN)), "1 - NaNi");
}

#[test]
fn text_agrees_with_formatting_the_doubles() {
    for a in parts() {
        for b in parts() {
            assert_eq!(text(&c(a, b)), reference_text(a, b));
        }
    }
}

#[test]
fn text_uses_the_digits_it_is_given() {
    let z = c(1.0, -2.0);
    assert_eq!(z.to_text("one", "two"), "one - twoi");
    assert_eq!(z.to_text("", ""), " - i");
    assert_eq!(z.conj().to_text("1.000", "2.000"), "1.000 + 2.000i");
}
