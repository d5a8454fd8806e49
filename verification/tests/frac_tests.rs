use mandelbrot_viewer::frac::{gcd_u128, Frac, FRAC_BOUND};

#[test]
fn gcd_of_concrete_values() {
    assert_eq!(gcd_u128(54, 24), 6);
    assert_eq!(gcd_u128(0, 7), 7);
    assert_eq!(gcd_u128(7, 0), 7);
    assert_eq!(gcd_u128(13, 13), 13);
    assert_eq!(gcd_u128(17, 5), 1);
}

#[test]
fn from_ratio_reduces() {
    let f = Frac::from_ratio(6, 4).unwrap();
    assert_eq!(f, Frac { num: 3, den: 2 });
}

#[test]
fn from_ratio_reduces_negative() {
    let f = Frac::from_ratio(-6, 4).unwrap();
    assert_eq!(f, Frac { num: -3, den: 2 });
}

#[test]
fn from_ratio_zero_is_canonical() {
    let f = Frac::from_ratio(0, 5).unwrap();
    assert_eq!(f, Frac { num: 0, den: 1 });
}

#[test]
fn from_ratio_at_the_bound() {
    assert_eq!(
        Frac::from_ratio(FRAC_BOUND as i128, 1),
        Some(Frac { num: FRAC_BOUND, den: 1 })
    );
}

#[test]
fn from_ratio_out_of_range() {
    assert_eq!(Frac::from_ratio(FRAC_BOUND as i128 + 1, 1), None);
}

#[test]
fn mul_of_inverse_factors_is_one() {
    let up = Frac { num: 6, den: 5 };
    let down = Frac { num: 5, den: 6 };
    let r = up.mul_frac(&down).unwrap();
    assert_eq!(r, Frac { num: 1, den: 1 });
}

#[test]
fn sub_is_exact() {
    let a = Frac { num: 1, den: 2 };
    let b = Frac { num: 1, den: 3 };
    let r = a.sub_frac(&b).unwrap();
    assert_eq!(r, Frac { num: 1, den: 6 });
}

#[test]
fn sub_can_go_negative() {
    let a = Frac { num: 0, den: 1 };
    let b = Frac { num: 3, den: 4 };
    let r = a.sub_frac(&b).unwrap();
    assert_eq!(r, Frac { num: -3, den: 4 });
}

#[test]
fn eq_value_sees_through_representation() {
    let a = Frac::new(2, 4);
    let b = Frac::new(1, 2);
    let c = Frac::new(1, 3);
    assert!(a.eq_value(&b));
    assert!(!a.eq_value(&c));
}

#[test]
fn mul_overflow_is_reported() {
    let big = Frac { num: FRAC_BOUND, den: 1 };
    assert_eq!(big.mul_frac(&big), None);
}
