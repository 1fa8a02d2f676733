use nalgebra::scalar::{div_trunc, Absolute, ApproxEq};

#[test]
fn integer_epsilon_is_exact() {
    assert_eq!(<i64 as ApproxEq<i64>>::approx_epsilon(None), 1);
    assert!(<i64 as ApproxEq<i64>>::approx_eq(&5, &5));
    assert!(!<i64 as ApproxEq<i64>>::approx_eq(&5, &6));
    assert!(<i64 as ApproxEq<i64>>::approx_eq_eps(&5, &7, &3));
    assert!(!<i64 as ApproxEq<i64>>::approx_eq_eps(&5, &8, &3));
    assert!(!<i64 as ApproxEq<i64>>::approx_eq_eps(&i64::MIN, &i64::MAX, &i64::MAX));
}

#[test]
fn absolute_values() {
    assert_eq!(<i64 as Absolute<i64>>::abs(&-5), 5);
    assert_eq!(<i64 as Absolute<i64>>::abs(&5), 5);
    assert_eq!(<u64 as Absolute<u64>>::abs(&7), 7);
}

#[test]
fn division_rounds_toward_zero() {
    assert_eq!(div_trunc(7, 2), 3);
    assert_eq!(div_trunc(-7, 2), -3);
    assert_eq!(div_trunc(7, -2), -3);
    assert_eq!(div_trunc(-7, -2), 3);
    assert_eq!(div_trunc(i64::MIN, 1), i64::MIN);
    assert_eq!(div_trunc(6, 10), 0);
}
