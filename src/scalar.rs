//! Contracts of the scalar types that vectors and matrices are made of, and their
//! implementation for 64-bit signed integers.
use vstd::prelude::*;

verus! {

/// Whether `x` can be held by an `i64`.
pub open spec fn fits(x: int) -> bool {
    i64::MIN <= x <= i64::MAX
}

/// The magnitude of `x`.
pub open spec fn abs_int(x: int) -> int {
    if x < 0 { -x } else { x }
}

/// Integer division rounding toward zero, as Rust's `/` does.
pub open spec fn tdiv(a: int, b: int) -> int {
    let q: int = abs_int(a) / abs_int(b);
    if (a >= 0) == (b >= 0) { q } else { -q }
}

/// Dividing by a nonzero integer never makes a value larger in magnitude.
pub proof fn lemma_tdiv_shrinks(a: int, b: int)
    requires
        b != 0,
    ensures
        abs_int(tdiv(a, b)) <= abs_int(a),
{
    let n = abs_int(a);
    let d = abs_int(b);
    assert(n / d <= n) by (nonlinear_arith)
        requires
            n >= 0,
            d >= 1,
    ;
}

/// `a / b` rounded toward zero.
pub fn div_trunc(a: i64, b: i64) -> (r: i64)
    requires
        b != 0,
        fits(tdiv(a as int, b as int)),
    ensures
        r == tdiv(a as int, b as int),
{
    let ua: u64 = if a >= 0 { a as u64 } else { (-(a as i128)) as u64 };
    let ub: u64 = if b >= 0 { b as u64 } else { (-(b as i128)) as u64 };
    let q: u64 = ua / ub;
    if (a >= 0) == (b >= 0) {
        q as i64
    } else {
        (-(q as i128)) as i64
    }
}

/// Trait for testing approximate equality.
///
/// Approximate equality is not transitive: `a ~ b` and `b ~ c` do not give `a ~ c`.
pub trait ApproxEq<Eps>: Sized {
    /// The default epsilon of this type.
    spec fn epsilon_of() -> Eps;

    /// Whether `a` and `b` are equal up to `epsilon`.
    spec fn approx_eq_eps_of(a: Self, b: Self, epsilon: Eps) -> bool;

    /// Default epsilon for approximation.
    fn approx_epsilon(unused_self: Option<Self>) -> (r: Eps)
        ensures
            r == Self::epsilon_of(),
    ;

    /// Tests approximate equality using a custom epsilon.
    fn approx_eq_eps(a: &Self, other: &Self, epsilon: &Eps) -> (r: bool)
        ensures
            r == Self::approx_eq_eps_of(*a, *other, *epsilon),
    ;

    /// Tests approximate equality.
    fn approx_eq(a: &Self, b: &Self) -> (r: bool)
        ensures
            r == Self::approx_eq_eps_of(*a, *b, Self::epsilon_of()),
    {
        Self::approx_eq_eps(a, b, &Self::approx_epsilon(None))
    }
}

/// On integers the smallest difference between two distinct values is one, so the default
/// epsilon is one and approximate equality under it is exact equality.
impl ApproxEq<i64> for i64 {
    open spec fn epsilon_of() -> i64 {
        1
    }

    open spec fn approx_eq_eps_of(a: i64, b: i64, epsilon: i64) -> bool {
        abs_int(a - b) < epsilon
    }

    fn approx_epsilon(unused_self: Option<i64>) -> (r: i64) {
        1
    }

    fn approx_eq_eps(a: &i64, other: &i64, epsilon: &i64) -> (r: bool) {
        let d: i128 = *a as i128 - *other as i128;
        let magnitude: i128 = if d < 0 { -d } else { d };
        magnitude < *epsilon as i128
    }
}

/// Trait of objects having an absolute value.
/// This is useful if the object does not have the same type as its absolute value.
pub trait Absolute<A>: Sized {
    /// Whether the absolute value of `n` can be held by `A`.
    spec fn abs_defined(n: Self) -> bool;

    /// The absolute value of `n`.
    spec fn abs_of(n: Self) -> A;

    /// Computes some absolute value of this object.
    fn abs(n: &Self) -> (r: A)
        requires
            Self::abs_defined(*n),
        ensures
            r == Self::abs_of(*n),
    ;
}

impl Absolute<i64> for i64 {
    open spec fn abs_defined(n: i64) -> bool {
        n != i64::MIN
    }

    open spec fn abs_of(n: i64) -> i64 {
        abs_int(n as int) as i64
    }

    fn abs(n: &i64) -> (r: i64) {
        if *n < 0 { -*n } else { *n }
    }
}

/// The magnitude of an unsigned integer is the integer itself.
impl Absolute<u64> for u64 {
    open spec fn abs_defined(n: u64) -> bool {
        true
    }

    open spec fn abs_of(n: u64) -> u64 {
        n
    }

    fn abs(n: &u64) -> (r: u64) {
        *n
    }
}

} // verus!
