use precise_math::rational::Rational;

#[test]
fn from() {
    assert_eq!(Rational::new(2, 2), Rational::from(1));
}

#[test]
fn add() {
    assert_eq!(Rational::new(2, 1), Rational::new(1, 1) + Rational::new(2, 2));
    assert_eq!(Rational::new(4, 2), Rational::new(1, 1) + Rational::new(2, 2));
    assert_eq!(Rational::new(3, 1), Rational::new(4, 2) + Rational::new(1, 1));
}

#[test]
fn sub() {
    assert_eq!(Rational::new(0, 1), Rational::new(1, 1) - Rational::new(2, 2));
    assert_eq!(Rational::new(1, 1), Rational::new(4, 2) - Rational::new(1, 1));
}

#[test]
fn mul() {
    assert_eq!(Rational::new(1, 1), Rational::new(1, 1) * Rational::new(2, 2));
    assert_eq!(Rational::new(3, 1), Rational::new(3, 2) * Rational::new(8, 4));
}

#[test]
fn div() {
    assert_eq!(Rational::new(2, 1), Rational::new(4, 1) / Rational::new(2, 1));
    assert_eq!(Rational::new(9, 1), Rational::new(9, 2) / Rational::new(1, 2));
}

#[test]
fn new_keeps_the_pair_unreduced() {
    let r = Rational::new(6, 4);
    assert_eq!(r.nominator, 6);
    assert_eq!(r.denominator, 4);
}

#[test]
fn from_puts_the_value_over_one() {
    let r = Rational::from(7);
    assert_eq!(r.nominator, 7);
    assert_eq!(r.denominator, 1);
    let z = Rational::from(0);
    assert_eq!(z.nominator, 0);
    assert_eq!(z.denominator, 1);
}

#[test]
fn add_gives_the_exact_unreduced_fields() {
    let r = Rational::new(1, 2) + Rational::new(1, 3);
    assert_eq!(r.nominator, 5);
    assert_eq!(r.denominator, 6);
    let r = Rational::new(1, 1) + Rational::new(2, 2);
    assert_eq!(r.nominator, 4);
    assert_eq!(r.denominator, 2);
}

#[test]
fn sub_gives_the_exact_unreduced_fields() {
    let r = Rational::new(1, 2) - Rational::new(1, 3);
    assert_eq!(r.nominator, 1);
    assert_eq!(r.denominator, 6);
    let r = Rational::new(1, 3) - Rational::new(1, 2);
    assert_eq!(r.nominator, -1);
    assert_eq!(r.denominator, 6);
}

#[test]
fn mul_gives_the_exact_unreduced_fields() {
    let r = Rational::new(3, 2) * Rational::new(8, 4);
    assert_eq!(r.nominator, 24);
    assert_eq!(r.denominator, 8);
}

#[test]
fn div_multiplies_by_the_reciprocal() {
    let r = Rational::new(9, 2) / Rational::new(1, 2);
    assert_eq!(r.nominator, 18);
    assert_eq!(r.denominator, 2);
    let r = Rational::new(2, 3) / Rational::new(5, 7);
    assert_eq!(r.nominator, 14);
    assert_eq!(r.denominator, 15);
}

#[test]
fn equality_by_cross_multiplication() {
    assert!(Rational::new(1, 2) == Rational::new(2, 4));
    assert!(Rational::new(-1, 2) == Rational::new(1, -2));
    assert!(Rational::new(1, 2) != Rational::new(1, 3));
    assert!(Rational::new(0, 5) == Rational::new(0, 1));
}

#[test]
fn equality_does_not_overflow_on_extreme_values() {
    let a = Rational::new(i64::MAX, i64::MIN);
    let b = Rational::new(i64::MAX, i64::MIN);
    assert!(a == b);
    let c = Rational::new(i64::MIN, i64::MIN);
    assert!(c == Rational::new(1, 1));
    assert!(Rational::new(i64::MAX, 1) != Rational::new(i64::MAX - 1, 1));
}

#[test]
fn add_with_intermediate_products_beyond_i64() {
    // a·d and c·b each overflow i64, their sum does not.
    let big = i64::MAX / 2 + 1;
    let r = Rational::new(big, 2) + Rational::new(-big, 2);
    assert_eq!(r.nominator, 0);
    assert_eq!(r.denominator, 4);
}

#[test]
fn zero_denominator_is_accepted() {
    let r = Rational::new(3, 0);
    assert_eq!(r.denominator, 0);
    // Over a zero denominator cross-multiplication makes every x/0 equal.
    assert!(Rational::new(3, 0) == Rational::new(5, 0));
    let q = Rational::new(1, 2) / Rational::new(0, 1);
    assert_eq!(q.nominator, 1);
    assert_eq!(q.denominator, 0);
}

#[test]
fn scaling_keeps_the_value() {
    for k in [-3i64, -1, 2, 7] {
        assert_eq!(Rational::new(3 * k, 5 * k), Rational::new(3, 5));
    }
}

#[test]
fn addition_and_multiplication_commute() {
    let x = Rational::new(2, 3);
    let y = Rational::new(-5, 7);
    assert_eq!(x + y, y + x);
    assert_eq!(x * y, y * x);
}

#[test]
fn adding_from_zero_keeps_the_value() {
    let x = Rational::new(-4, 9);
    assert_eq!(x + Rational::from(0), x);
}

#[test]
fn multiplying_by_from_one_keeps_the_value() {
    let x = Rational::new(11, 6);
    assert_eq!(x * Rational::from(1), x);
}

#[test]
fn division_undoes_multiplication() {
    let x = Rational::new(3, 4);
    let y = Rational::new(-2, 5);
    assert_eq!((x * y) / y, x);
}
