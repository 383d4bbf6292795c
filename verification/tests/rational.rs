use garden::rational::Rational;

fn rat(n: i64, d: i64) -> Rational {
    Rational::new(n, d).unwrap()
}

fn same(a: &Rational, n: i64, d: i64) -> bool {
    a.eq_value(&rat(n, d))
}

#[test]
fn construction_normalises_the_sign() {
    let a = rat(3, -4);
    assert!(a.denominator() >= 1);
    assert!(same(&a, -3, 4));
    assert!(Rational::new(1, 0).is_none());
    assert!(Rational::new(i64::MIN, -1).is_none());
}

#[test]
fn integer_constructors() {
    assert_eq!(Rational::zero().numerator(), 0);
    assert_eq!(Rational::one().numerator(), 1);
    assert_eq!(Rational::from_int(-7).numerator(), -7);
    assert_eq!(Rational::from_int(-7).denominator(), 1);
    assert!(Rational::zero().is_zero());
    assert!(!Rational::one().is_zero());
}

#[test]
fn exact_arithmetic() {
    let a = rat(1, 10);
    let b = Rational::from_int(800);
    let p = a.checked_mul(&b).unwrap();
    assert!(same(&p, 80, 1));

    let s = rat(1, 2).checked_add(&rat(1, 3)).unwrap();
    assert!(same(&s, 5, 6));

    let d = rat(1, 2).checked_sub(&rat(1, 3)).unwrap();
    assert!(same(&d, 1, 6));

    let q = Rational::from_int(100).checked_div(&Rational::from_int(50)).unwrap();
    assert!(same(&q, 2, 1));

    let h = Rational::from_int(7).checked_half().unwrap();
    assert!(same(&h, 7, 2));
}

#[test]
fn division_by_zero_is_refused() {
    assert!(Rational::one().checked_div(&Rational::zero()).is_none());
}

#[test]
fn overflow_is_detected() {
    let big = Rational::from_int(i64::MAX);
    assert!(big.checked_mul(&big).is_none());
    assert!(big.checked_add(&rat(1, 3)).is_none());
    let tiny = rat(1, i64::MAX);
    assert!(tiny.checked_half().is_none());
}

#[test]
fn ordering_and_selection() {
    let a = rat(1, 3);
    let b = rat(1, 2);
    assert!(a.le(&b));
    assert!(!b.le(&a));
    assert!(a.min(&b).eq_value(&a));
    assert!(a.max(&b).eq_value(&b));
    let neg = rat(-1, 2);
    assert!(neg.le(&a));
    assert!(neg.min(&a).eq_value(&neg));
}

#[test]
fn value_equality_ignores_representation() {
    assert!(rat(800, 10).eq_value(&rat(80, 1)));
    assert!(rat(-2, 4).eq_value(&rat(1, -2)));
    assert!(!rat(1, 2).eq_value(&rat(2, 1)));
}
