use monomial::{Integer, Unit, UnitError};
use num_bigint::BigInt;
use std::cmp::Ordering;

fn num(v: i64) -> Integer {
    Integer::from_i64(v)
}

fn term(coef: i64, xpow: i64, ypow: i64) -> Unit {
    Unit { coef: num(coef), xpow: num(xpow), ypow: num(ypow) }
}

fn big(text: &str) -> Integer {
    let v = BigInt::parse_bytes(text.as_bytes(), 10).unwrap();
    Integer::from_signed_bytes_le(v.to_signed_bytes_le())
}

#[test]
fn unit_test() {
    let u0: Unit = Default::default();
    assert_eq!(&u0.to_string(), "0");

    let u1 = Unit {
        coef: Integer::from_i64(3),
        ..Default::default()
    };
    assert_eq!(&u1.to_string(), "3");

    let u2 = Unit {
        coef: Integer::from_i64(4),
        ..Default::default()
    };
    let u3 = Unit {
        coef: Integer::from_i64(3),
        ..Default::default()
    };
    assert_eq!((u2.clone() * u3.clone()).to_string(), "12");
    assert_eq!((&u2 * &u3).to_string(), "12");
}

#[test]
fn default_is_zero_term() {
    let u: Unit = Default::default();
    assert_eq!(u, term(0, 0, 0));
    assert!(u.is_zero());
    assert_eq!(u.to_string(), "0");
}

#[test]
fn render_unit_coefficients() {
    assert_eq!(term(1, 0, 0).to_string(), "1");
    assert_eq!(term(-1, 0, 0).to_string(), "- 1");
    assert_eq!(term(1, 1, 0).to_string(), "x");
    assert_eq!(term(1, 0, 1).to_string(), "y");
    assert_eq!(term(1, 2, 3).to_string(), "x^2 y^3");
    assert_eq!(term(-1, 1, 0).to_string(), "- x");
    assert_eq!(term(-1, 1, 2).to_string(), "- x y^2");
    assert_eq!(term(-1, 0, 10).to_string(), "- y^10");
}

#[test]
fn render_other_coefficients() {
    assert_eq!(term(3, 0, 0).to_string(), "3");
    assert_eq!(term(3, 2, 1).to_string(), "3 x^2 y");
    assert_eq!(term(-5, -3, 0).to_string(), "- 5 x^-3");
    assert_eq!(term(-12, 0, 0).to_string(), "- 12");
    assert_eq!(term(2, 0, -1).to_string(), "2 y^-1");
    assert_eq!(term(0, 1, 0).to_string(), "0 x");
    assert_eq!(term(0, 0, 0).to_string(), "0");
}

#[test]
fn render_large_values() {
    let u = Unit { coef: num(1), xpow: big("123456789012345678901234567890"), ypow: num(0) };
    assert_eq!(u.to_string(), "x^123456789012345678901234567890");
    let v = Unit { coef: big("-98765432109876543210"), xpow: num(0), ypow: num(7) };
    assert_eq!(v.to_string(), "- 98765432109876543210 y^7");
}

#[test]
fn multiply_adds_exponents() {
    let a = term(4, 2, -1);
    let b = term(-3, 1, 5);
    assert_eq!(a.multiply(&b), term(-12, 3, 4));
    assert_eq!(&a * &b, term(-12, 3, 4));
    assert_eq!(a.clone() * b.clone(), term(-12, 3, 4));
}

#[test]
fn multiply_large_coefficients() {
    let a = Unit { coef: big("100000000000000000000"), xpow: num(1), ypow: num(0) };
    let b = Unit { coef: big("-100000000000000000000"), xpow: num(1), ypow: num(0) };
    let p = a.multiply(&b);
    assert_eq!(p.coef, big("-10000000000000000000000000000000000000000"));
    assert_eq!(p.to_string(), "- 10000000000000000000000000000000000000000 x^2");
}

#[test]
fn divide_truncates_toward_zero() {
    assert_eq!(term(-7, 3, 2).divide(&term(2, 1, 2)), Ok(term(-3, 2, 0)));
    assert_eq!(term(7, 0, 0).divide(&term(-2, 1, 0)), Ok(term(-3, -1, 0)));
    assert_eq!(term(7, 0, 0).divide(&term(2, 0, 0)), Ok(term(3, 0, 0)));
    assert_eq!(term(-7, 0, 0).divide(&term(-2, 0, 0)), Ok(term(3, 0, 0)));
}

#[test]
fn divide_by_zero_coefficient_fails() {
    assert_eq!(term(5, 1, 1).divide(&term(0, 1, 0)), Err(UnitError::DivisionByZero));
}

#[test]
fn negate_keeps_exponents() {
    assert_eq!(term(5, 2, -3).negate(), term(-5, 2, -3));
    assert_eq!(-term(-1, 0, 1), term(1, 0, 1));
    assert_eq!(term(0, 4, 4).negate(), term(0, 4, 4));
}

#[test]
fn equal_order_ignores_coefficient() {
    let a = term(3, 2, 1);
    assert!(a.equal_order(&a));
    assert!(a.equal_order(&term(-9, 2, 1)));
    assert!(a.equal_order(&term(0, 2, 1)));
    assert!(term(-9, 2, 1).equal_order(&a));
    assert!(!a.equal_order(&term(3, 2, 0)));
    assert!(!a.equal_order(&term(3, 1, 1)));
}

#[test]
fn order_by_x_then_y() {
    assert_eq!(term(1, 1, 5).cmp(&term(1, 2, 0)), Ordering::Less);
    assert_eq!(term(1, 2, 0).cmp(&term(1, 1, 5)), Ordering::Greater);
    assert_eq!(term(1, 2, 1).cmp(&term(7, 2, 3)), Ordering::Less);
    assert_eq!(term(1, 2, 3).cmp(&term(7, 2, -3)), Ordering::Greater);
    assert_eq!(term(1, -1, 0).partial_cmp(&term(1, 0, 0)), Some(Ordering::Less));
    assert!(term(1, 0, 0) < term(1, 0, 1));
}

#[test]
fn equal_order_terms_compare_equal() {
    let a = term(3, 2, 1);
    let b = term(-8, 2, 1);
    assert!(a.equal_order(&b));
    assert_eq!(a.cmp(&b), Ordering::Equal);
    assert_eq!(a.partial_cmp(&b), Some(Ordering::Equal));
    assert_ne!(a, b);
}

#[test]
fn power_raises_coefficient_and_scales_exponents() {
    assert_eq!(term(2, 1, 3).power(3), term(8, 3, 9));
    assert_eq!(term(-3, -1, 2).power(2), term(9, -2, 4));
    assert_eq!(term(-2, 1, 0).power(3), term(-8, 3, 0));
    assert_eq!(term(5, 1, 1).power(1), term(5, 1, 1));
}

#[test]
fn power_zero_is_one() {
    assert_eq!(term(7, 3, -2).power(0), term(1, 0, 0));
    assert_eq!(term(0, 3, 2).power(0), term(1, 0, 0));
    assert_eq!(term(0, 0, 0).power(0).to_string(), "1");
}

#[test]
fn to_frob_keeps_coefficient() {
    assert_eq!(term(7, 2, -3).to_frob(5), term(7, 10, -15));
    assert_eq!(term(7, 2, -3).to_frob(1), term(7, 2, -3));
    assert_eq!(term(-4, 2, 3).to_frob(0), term(-4, 0, 0));
    let a = term(-4, 2, 3);
    assert_eq!(a.to_frob(9).coef.to_signed_bytes_le(), a.coef.to_signed_bytes_le());
}

#[test]
fn modular_reduces_coefficient() {
    assert_eq!(term(17, 2, 1).modular(num(5)), Ok(term(2, 2, 1)));
    assert_eq!(term(-7, 0, 1).modular(num(3)), Ok(term(-1, 0, 1)));
    assert_eq!(term(7, 0, 0).modular(num(-3)), Ok(term(1, 0, 0)));
    assert_eq!(term(-6, 1, 0).modular(num(3)), Ok(term(0, 1, 0)));
}

#[test]
fn modular_by_zero_fails() {
    assert_eq!(term(17, 2, 1).modular(num(0)), Err(UnitError::InvalidModulus));
}

#[test]
fn is_zero_ignores_exponents() {
    assert!(term(0, 3, -1).is_zero());
    assert!(!term(1, 0, 0).is_zero());
    assert!(!term(-2, 0, 0).is_zero());
}

#[test]
fn has_y_checks_y_exponent() {
    assert!(term(1, 0, 2).has_y());
    assert!(term(1, 0, -1).has_y());
    assert!(!term(1, 4, 0).has_y());
}

#[test]
fn multiply_by_negation() {
    let a = term(3, 1, 2);
    let p = a.multiply(&a.negate());
    assert_eq!(p, term(-9, 2, 4));
    assert!(!p.is_zero());
    let z = term(0, 1, 2);
    assert!(z.multiply(&z.negate()).is_zero());
}

#[test]
fn integer_bytes_round_trip() {
    let v = num(-300);
    let bytes = v.to_signed_bytes_le();
    assert_eq!(BigInt::from_signed_bytes_le(&bytes), BigInt::from(-300));
    assert_eq!(Integer::from_signed_bytes_le(bytes), v);
    assert_eq!(Integer::from_signed_bytes_le(Vec::new()), num(0));
}
