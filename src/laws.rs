//! Algebraic laws that relate the operations of this crate.
use crate::mat::{adj3, approx_zero, det2, det3};
use crate::operations::{Det, Inv, LMul, RMul, Transpose};
use crate::product::{dot2, dot2_fits, dot3, dot3_fits};
use crate::scalar::{abs_int, lemma_tdiv_shrinks, tdiv};
use crate::structs::{Mat1, Mat2, Mat3, Pnt2, Pnt3, Vec2, Vec3};
use vstd::arithmetic::div_mod::{lemma_div_multiples_vanish, lemma_fundamental_div_mod};
use vstd::prelude::*;

verus! {

/// The 2x2 identity matrix.
pub open spec fn identity2() -> Mat2<i64> {
    Mat2 { m11: 1, m12: 0, m21: 0, m22: 1 }
}

/// The 3x3 identity matrix.
pub open spec fn identity3() -> Mat3<i64> {
    Mat3 { m11: 1, m12: 0, m13: 0, m21: 0, m22: 1, m23: 0, m31: 0, m32: 0, m33: 1 }
}

/// Transposing twice gives back the matrix itself, exactly.
pub proof fn lemma_transpose_twice<N: Copy>(m1: Mat1<N>, m2: Mat2<N>, m3: Mat3<N>)
    ensures
        Mat1::<N>::transpose_of(Mat1::<N>::transpose_of(m1)) == m1,
        Mat2::<N>::transpose_of(Mat2::<N>::transpose_of(m2)) == m2,
        Mat3::<N>::transpose_of(Mat3::<N>::transpose_of(m3)) == m3,
{
}

/// Writing back a row or a column just read leaves the matrix unchanged.
pub proof fn lemma_row_col_round_trip<N: Copy>(m: Mat3<N>, i: int)
    requires
        0 <= i < 3,
    ensures
        Mat3::<N>::with_row(m, i, Mat3::<N>::row_of(m, i)) == m,
        Mat3::<N>::with_col(m, i, Mat3::<N>::col_of(m, i)) == m,
{
}

/// Multiplying a vector or a point by the identity matrix, on either side, gives it back,
/// and never leaves the range of the scalars.
pub proof fn lemma_identity_product(v2: Vec2<i64>, p2: Pnt2<i64>, v3: Vec3<i64>, p3: Pnt3<i64>)
    ensures
        <Mat2<i64> as RMul<Vec2<i64>>>::rmul_defined(identity2(), v2),
        <Mat2<i64> as RMul<Vec2<i64>>>::rmul_of(identity2(), v2) == v2,
        <Mat2<i64> as LMul<Vec2<i64>>>::lmul_defined(identity2(), v2),
        <Mat2<i64> as LMul<Vec2<i64>>>::lmul_of(identity2(), v2) == v2,
        <Mat2<i64> as RMul<Pnt2<i64>>>::rmul_defined(identity2(), p2),
        <Mat2<i64> as RMul<Pnt2<i64>>>::rmul_of(identity2(), p2) == p2,
        <Mat2<i64> as LMul<Pnt2<i64>>>::lmul_defined(identity2(), p2),
        <Mat2<i64> as LMul<Pnt2<i64>>>::lmul_of(identity2(), p2) == p2,
        <Mat3<i64> as RMul<Vec3<i64>>>::rmul_defined(identity3(), v3),
        <Mat3<i64> as RMul<Vec3<i64>>>::rmul_of(identity3(), v3) == v3,
        <Mat3<i64> as LMul<Vec3<i64>>>::lmul_defined(identity3(), v3),
        <Mat3<i64> as LMul<Vec3<i64>>>::lmul_of(identity3(), v3) == v3,
        <Mat3<i64> as RMul<Pnt3<i64>>>::rmul_defined(identity3(), p3),
        <Mat3<i64> as RMul<Pnt3<i64>>>::rmul_of(identity3(), p3) == p3,
        <Mat3<i64> as LMul<Pnt3<i64>>>::lmul_defined(identity3(), p3),
        <Mat3<i64> as LMul<Pnt3<i64>>>::lmul_of(identity3(), p3) == p3,
{
    lemma_unit_dot2(v2.x, v2.y);
    lemma_unit_dot2(p2.x, p2.y);
    lemma_unit_dot3(v3.x, v3.y, v3.z);
    lemma_unit_dot3(p3.x, p3.y, p3.z);
}

proof fn lemma_unit_dot2(x: i64, y: i64)
    ensures
        dot2_fits(1, 0, x, y) && dot2(1, 0, x, y) == x,
        dot2_fits(0, 1, x, y) && dot2(0, 1, x, y) == y,
        dot2_fits(x, y, 1, 0) && dot2(x, y, 1, 0) == x,
        dot2_fits(x, y, 0, 1) && dot2(x, y, 0, 1) == y,
{
}

proof fn lemma_unit_dot3(x: i64, y: i64, z: i64)
    ensures
        dot3_fits(1, 0, 0, x, y, z) && dot3(1, 0, 0, x, y, z) == x,
        dot3_fits(0, 1, 0, x, y, z) && dot3(0, 1, 0, x, y, z) == y,
        dot3_fits(0, 0, 1, x, y, z) && dot3(0, 0, 1, x, y, z) == z,
        dot3_fits(x, y, z, 1, 0, 0) && dot3(x, y, z, 1, 0, 0) == x,
        dot3_fits(x, y, z, 0, 1, 0) && dot3(x, y, z, 0, 1, 0) == y,
        dot3_fits(x, y, z, 0, 0, 1) && dot3(x, y, z, 0, 0, 1) == z,
{
}

/// A matrix whose determinant is approximately zero has no inverse; `inv` then returns
/// `false` and leaves the matrix as it was (see its contract).
pub proof fn lemma_singular_has_no_inverse(m1: Mat1<i64>, m2: Mat2<i64>, m3: Mat3<i64>)
    requires
        <Mat2<i64> as Det<i64>>::det_defined(m2),
        <Mat3<i64> as Det<i64>>::det_defined(m3),
    ensures
        approx_zero(<Mat1<i64> as Det<i64>>::det_of(m1)) ==> Mat1::<i64>::inverse_of(m1) is None,
        approx_zero(<Mat2<i64> as Det<i64>>::det_of(m2)) ==> Mat2::<i64>::inverse_of(m2) is None,
        approx_zero(<Mat3<i64> as Det<i64>>::det_of(m3)) ==> Mat3::<i64>::inverse_of(m3) is None,
{
}


/// Where `d` divides `x`, division rounded toward zero is exact.
proof fn lemma_tdiv_exact(x: int, d: int)
    requires
        d != 0,
        x % d == 0,
    ensures
        tdiv(x, d) * d == x,
{
    lemma_fundamental_div_mod(x, d);
    let k = x / d;
    assert(x == d * k);
    let ad = abs_int(d);
    let ak = abs_int(k);
    assert(abs_int(x) == ad * ak) by {
        if d > 0 && k >= 0 {
            assert(x >= 0 && x == ad * ak) by (nonlinear_arith)
                requires
                    x == d * k,
                    d > 0,
                    k >= 0,
                    ad == d,
                    ak == k,
            ;
        } else if d > 0 {
            assert(x < 0 && -x == ad * ak) by (nonlinear_arith)
                requires
                    x == d * k,
                    d > 0,
                    k < 0,
                    ad == d,
                    ak == -k,
            ;
        } else if k >= 0 {
            assert(x <= 0 && -x == ad * ak) by (nonlinear_arith)
                requires
                    x == d * k,
                    d < 0,
                    k >= 0,
                    ad == -d,
                    ak == k,
            ;
        } else {
            assert(x > 0 && x == ad * ak) by (nonlinear_arith)
                requires
                    x == d * k,
                    d < 0,
                    k < 0,
                    ad == -d,
                    ak == -k,
            ;
        }
    }
    assert(k > 0 ==> ((x >= 0) == (d >= 0))) by (nonlinear_arith)
        requires
            x == d * k,
            d != 0,
    ;
    assert(k < 0 ==> ((x >= 0) != (d >= 0))) by (nonlinear_arith)
        requires
            x == d * k,
            d != 0,
    ;
    lemma_div_multiples_vanish(ak, ad);
    assert(abs_int(x) / ad == ak);
    assert(tdiv(x, d) == k);
    assert(k * d == x) by (nonlinear_arith)
        requires
            x == d * k,
    ;
}

/// Cancels a nonzero factor `d` from one entry of a product with the adjugate.
proof fn lemma_cancel2(d: int, x1: int, x2: int, q1: int, q2: int, a1: int, a2: int, t: int)
    requires
        d != 0,
        q1 * d == a1,
        q2 * d == a2,
        x1 * a1 + x2 * a2 == t * d,
    ensures
        x1 * q1 + x2 * q2 == t,
{
    assert((x1 * q1) * d == x1 * (q1 * d)) by (nonlinear_arith);
    assert((x2 * q2) * d == x2 * (q2 * d)) by (nonlinear_arith);
    assert((x1 * q1 + x2 * q2) * d == (x1 * q1) * d + (x2 * q2) * d) by (nonlinear_arith);
    assert((x1 * q1 + x2 * q2) * d == t * d);
    assert(x1 * q1 + x2 * q2 == t) by (nonlinear_arith)
        requires
            (x1 * q1 + x2 * q2) * d == t * d,
            d != 0,
    ;
}

/// Whether the determinant of `m` divides every entry of its adjugate, that is, whether
/// the inverse of `m` has integer entries.
pub open spec fn inverse_is_integral2(m: Mat2<i64>) -> bool {
    let d = det2(m);
    &&& (m.m22 as int) % d == 0
    &&& (-m.m12) % d == 0
    &&& (-m.m21) % d == 0
    &&& (m.m11 as int) % d == 0
}

/// A 1x1 matrix that has an inverse with an integer entry gives the identity when
/// multiplied by it.
pub proof fn lemma_inverse_product1(m: Mat1<i64>)
    requires
        Mat1::<i64>::inverse_of(m) is Some,
        1int % (m.m11 as int) == 0,
    ensures
        m.m11 * Mat1::<i64>::inverse_of(m).unwrap().m11 == 1,
{
    lemma_tdiv_exact(1, m.m11 as int);
    lemma_tdiv_shrinks(1, m.m11 as int);
    assert(m.m11 * tdiv(1, m.m11 as int) == 1) by (nonlinear_arith)
        requires
            tdiv(1, m.m11 as int) * m.m11 == 1,
    ;
}

/// A 2x2 matrix that has an inverse with integer entries gives the identity when
/// multiplied by it, on either side.
pub proof fn lemma_inverse_product2(m: Mat2<i64>)
    requires
        Mat2::<i64>::inv_defined(m),
        Mat2::<i64>::inverse_of(m) is Some,
        inverse_is_integral2(m),
    ensures
        <Mat2<i64> as RMul<Mat2<i64>>>::rmul_of(m, Mat2::<i64>::inverse_of(m).unwrap())
            == identity2(),
        <Mat2<i64> as RMul<Mat2<i64>>>::rmul_of(Mat2::<i64>::inverse_of(m).unwrap(), m)
            == identity2(),
{
    let d = det2(m);
    let q = Mat2::<i64>::inverse_of(m).unwrap();
    let (m11, m12, m21, m22) = (m.m11 as int, m.m12 as int, m.m21 as int, m.m22 as int);
    lemma_tdiv_exact(m22, d);
    lemma_tdiv_exact(-m12, d);
    lemma_tdiv_exact(-m21, d);
    lemma_tdiv_exact(m11, d);
    let (q11, q12, q21, q22) = (q.m11 as int, q.m12 as int, q.m21 as int, q.m22 as int);
    assert(q11 * d == m22 && q12 * d == -m12 && q21 * d == -m21 && q22 * d == m11);
    assert({
        &&& m11 * m22 + m12 * (-m21) == 1 * d
        &&& m11 * (-m12) + m12 * m11 == 0 * d
        &&& m21 * m22 + m22 * (-m21) == 0 * d
        &&& m21 * (-m12) + m22 * m11 == 1 * d
        &&& m11 * m22 + m21 * (-m12) == 1 * d
        &&& m12 * m22 + m22 * (-m12) == 0 * d
        &&& m11 * (-m21) + m21 * m11 == 0 * d
        &&& m12 * (-m21) + m22 * m11 == 1 * d
    }) by (nonlinear_arith)
        requires
            d == m11 * m22 - m21 * m12,
    ;
    lemma_cancel2(d, m11, m12, q11, q21, m22, -m21, 1);
    lemma_cancel2(d, m11, m12, q12, q22, -m12, m11, 0);
    lemma_cancel2(d, m21, m22, q11, q21, m22, -m21, 0);
    lemma_cancel2(d, m21, m22, q12, q22, -m12, m11, 1);
    lemma_cancel2(d, m11, m21, q11, q12, m22, -m12, 1);
    lemma_cancel2(d, m12, m22, q11, q12, m22, -m12, 0);
    lemma_cancel2(d, m11, m21, q21, q22, -m21, m11, 0);
    lemma_cancel2(d, m12, m22, q21, q22, -m21, m11, 1);
}



/// The products of a 3x3 matrix with its adjugate, on either side, are its determinant
/// times the identity.
proof fn lemma_adjugate3(m11: int, m12: int, m13: int, m21: int, m22: int, m23: int, m31: int, m32: int, m33: int)
    ensures
        m11 * (m22 * m33 - m32 * m23) + m12 * (-(m21 * m33 - m31 * m23)) + m13 * (m21 * m32 - m31 * m22) == 1 * (m11 * (m22 * m33 - m32 * m23) - m12 * (m21 * m33 - m31 * m23) + m13 * (m21 * m32 - m31 * m22)),
        m11 * (m13 * m32 - m33 * m12) + m12 * (m11 * m33 - m31 * m13) + m13 * (m12 * m31 - m32 * m11) == 0 * (m11 * (m22 * m33 - m32 * m23) - m12 * (m21 * m33 - m31 * m23) + m13 * (m21 * m32 - m31 * m22)),
        m11 * (m12 * m23 - m22 * m13) + m12 * (m13 * m21 - m23 * m11) + m13 * (m11 * m22 - m21 * m12) == 0 * (m11 * (m22 * m33 - m32 * m23) - m12 * (m21 * m33 - m31 * m23) + m13 * (m21 * m32 - m31 * m22)),
        m21 * (m22 * m33 - m32 * m23) + m22 * (-(m21 * m33 - m31 * m23)) + m23 * (m21 * m32 - m31 * m22) == 0 * (m11 * (m22 * m33 - m32 * m23) - m12 * (m21 * m33 - m31 * m23) + m13 * (m21 * m32 - m31 * m22)),
        m21 * (m13 * m32 - m33 * m12) + m22 * (m11 * m33 - m31 * m13) + m23 * (m12 * m31 - m32 * m11) == 1 * (m11 * (m22 * m33 - m32 * m23) - m12 * (m21 * m33 - m31 * m23) + m13 * (m21 * m32 - m31 * m22)),
        m21 * (m12 * m23 - m22 * m13) + m22 * (m13 * m21 - m23 * m11) + m23 * (m11 * m22 - m21 * m12) == 0 * (m11 * (m22 * m33 - m32 * m23) - m12 * (m21 * m33 - m31 * m23) + m13 * (m21 * m32 - m31 * m22)),
        m31 * (m22 * m33 - m32 * m23) + m32 * (-(m21 * m33 - m31 * m23)) + m33 * (m21 * m32 - m31 * m22) == 0 * (m11 * (m22 * m33 - m32 * m23) - m12 * (m21 * m33 - m31 * m23) + m13 * (m21 * m32 - m31 * m22)),
        m31 * (m13 * m32 - m33 * m12) + m32 * (m11 * m33 - m31 * m13) + m33 * (m12 * m31 - m32 * m11) == 0 * (m11 * (m22 * m33 - m32 * m23) - m12 * (m21 * m33 - m31 * m23) + m13 * (m21 * m32 - m31 * m22)),
        m31 * (m12 * m23 - m22 * m13) + m32 * (m13 * m21 - m23 * m11) + m33 * (m11 * m22 - m21 * m12) == 1 * (m11 * (m22 * m33 - m32 * m23) - m12 * (m21 * m33 - m31 * m23) + m13 * (m21 * m32 - m31 * m22)),
        m11 * (m22 * m33 - m32 * m23) + m21 * (m13 * m32 - m33 * m12) + m31 * (m12 * m23 - m22 * m13) == 1 * (m11 * (m22 * m33 - m32 * m23) - m12 * (m21 * m33 - m31 * m23) + m13 * (m21 * m32 - m31 * m22)),
        m12 * (m22 * m33 - m32 * m23) + m22 * (m13 * m32 - m33 * m12) + m32 * (m12 * m23 - m22 * m13) == 0 * (m11 * (m22 * m33 - m32 * m23) - m12 * (m21 * m33 - m31 * m23) + m13 * (m21 * m32 - m31 * m22)),
        m13 * (m22 * m33 - m32 * m23) + m23 * (m13 * m32 - m33 * m12) + m33 * (m12 * m23 - m22 * m13) == 0 * (m11 * (m22 * m33 - m32 * m23) - m12 * (m21 * m33 - m31 * m23) + m13 * (m21 * m32 - m31 * m22)),
        m11 * (-(m21 * m33 - m31 * m23)) + m21 * (m11 * m33 - m31 * m13) + m31 * (m13 * m21 - m23 * m11) == 0 * (m11 * (m22 * m33 - m32 * m23) - m12 * (m21 * m33 - m31 * m23) + m13 * (m21 * m32 - m31 * m22)),
        m12 * (-(m21 * m33 - m31 * m23)) + m22 * (m11 * m33 - m31 * m13) + m32 * (m13 * m21 - m23 * m11) == 1 * (m11 * (m22 * m33 - m32 * m23) - m12 * (m21 * m33 - m31 * m23) + m13 * (m21 * m32 - m31 * m22)),
        m13 * (-(m21 * m33 - m31 * m23)) + m23 * (m11 * m33 - m31 * m13) + m33 * (m13 * m21 - m23 * m11) == 0 * (m11 * (m22 * m33 - m32 * m23) - m12 * (m21 * m33 - m31 * m23) + m13 * (m21 * m32 - m31 * m22)),
        m11 * (m21 * m32 - m31 * m22) + m21 * (m12 * m31 - m32 * m11) + m31 * (m11 * m22 - m21 * m12) == 0 * (m11 * (m22 * m33 - m32 * m23) - m12 * (m21 * m33 - m31 * m23) + m13 * (m21 * m32 - m31 * m22)),
        m12 * (m21 * m32 - m31 * m22) + m22 * (m12 * m31 - m32 * m11) + m32 * (m11 * m22 - m21 * m12) == 0 * (m11 * (m22 * m33 - m32 * m23) - m12 * (m21 * m33 - m31 * m23) + m13 * (m21 * m32 - m31 * m22)),
        m13 * (m21 * m32 - m31 * m22) + m23 * (m12 * m31 - m32 * m11) + m33 * (m11 * m22 - m21 * m12) == 1 * (m11 * (m22 * m33 - m32 * m23) - m12 * (m21 * m33 - m31 * m23) + m13 * (m21 * m32 - m31 * m22)),
{
    assert(m12 * (m21 * m33 - m31 * m23) == m12 * m21 * m33 - m12 * m23 * m31) by (nonlinear_arith);
    assert(m13 * (m21 * m32 - m31 * m22) == m13 * m21 * m32 - m13 * m22 * m31) by (nonlinear_arith);
    assert(m11 * (m22 * m33 - m32 * m23) == m11 * m22 * m33 - m11 * m23 * m32) by (nonlinear_arith);
    assert(m12 * (-(m21 * m33 - m31 * m23)) == -(m12 * m21 * m33) + m12 * m23 * m31) by (nonlinear_arith);
    assert(m13 * (m21 * m32 - m31 * m22) == m13 * m21 * m32 - m13 * m22 * m31) by (nonlinear_arith);
    assert(m11 * (m13 * m32 - m33 * m12) == m11 * m13 * m32 - m11 * m12 * m33) by (nonlinear_arith);
    assert(m12 * (m11 * m33 - m31 * m13) == m11 * m12 * m33 - m12 * m13 * m31) by (nonlinear_arith);
    assert(m13 * (m12 * m31 - m32 * m11) == m12 * m13 * m31 - m11 * m13 * m32) by (nonlinear_arith);
    assert(m11 * (m12 * m23 - m22 * m13) == m11 * m12 * m23 - m11 * m13 * m22) by (nonlinear_arith);
    assert(m12 * (m13 * m21 - m23 * m11) == m12 * m13 * m21 - m11 * m12 * m23) by (nonlinear_arith);
    assert(m13 * (m11 * m22 - m21 * m12) == m11 * m13 * m22 - m12 * m13 * m21) by (nonlinear_arith);
    assert(m21 * (m22 * m33 - m32 * m23) == m21 * m22 * m33 - m21 * m23 * m32) by (nonlinear_arith);
    assert(m22 * (-(m21 * m33 - m31 * m23)) == -(m21 * m22 * m33) + m22 * m23 * m31) by (nonlinear_arith);
    assert(m23 * (m21 * m32 - m31 * m22) == m21 * m23 * m32 - m22 * m23 * m31) by (nonlinear_arith);
    assert(m21 * (m13 * m32 - m33 * m12) == m13 * m21 * m32 - m12 * m21 * m33) by (nonlinear_arith);
    assert(m22 * (m11 * m33 - m31 * m13) == m11 * m22 * m33 - m13 * m22 * m31) by (nonlinear_arith);
    assert(m23 * (m12 * m31 - m32 * m11) == m12 * m23 * m31 - m11 * m23 * m32) by (nonlinear_arith);
    assert(m21 * (m12 * m23 - m22 * m13) == m12 * m21 * m23 - m13 * m21 * m22) by (nonlinear_arith);
    assert(m22 * (m13 * m21 - m23 * m11) == m13 * m21 * m22 - m11 * m22 * m23) by (nonlinear_arith);
    assert(m23 * (m11 * m22 - m21 * m12) == m11 * m22 * m23 - m12 * m21 * m23) by (nonlinear_arith);
    assert(m31 * (m22 * m33 - m32 * m23) == m22 * m31 * m33 - m23 * m31 * m32) by (nonlinear_arith);
    assert(m32 * (-(m21 * m33 - m31 * m23)) == -(m21 * m32 * m33) + m23 * m31 * m32) by (nonlinear_arith);
    assert(m33 * (m21 * m32 - m31 * m22) == m21 * m32 * m33 - m22 * m31 * m33) by (nonlinear_arith);
    assert(m31 * (m13 * m32 - m33 * m12) == m13 * m31 * m32 - m12 * m31 * m33) by (nonlinear_arith);
    assert(m32 * (m11 * m33 - m31 * m13) == m11 * m32 * m33 - m13 * m31 * m32) by (nonlinear_arith);
    assert(m33 * (m12 * m31 - m32 * m11) == m12 * m31 * m33 - m11 * m32 * m33) by (nonlinear_arith);
    assert(m31 * (m12 * m23 - m22 * m13) == m12 * m23 * m31 - m13 * m22 * m31) by (nonlinear_arith);
    assert(m32 * (m13 * m21 - m23 * m11) == m13 * m21 * m32 - m11 * m23 * m32) by (nonlinear_arith);
    assert(m33 * (m11 * m22 - m21 * m12) == m11 * m22 * m33 - m12 * m21 * m33) by (nonlinear_arith);
    assert(m12 * (m22 * m33 - m32 * m23) == m12 * m22 * m33 - m12 * m23 * m32) by (nonlinear_arith);
    assert(m22 * (m13 * m32 - m33 * m12) == m13 * m22 * m32 - m12 * m22 * m33) by (nonlinear_arith);
    assert(m32 * (m12 * m23 - m22 * m13) == m12 * m23 * m32 - m13 * m22 * m32) by (nonlinear_arith);
    assert(m13 * (m22 * m33 - m32 * m23) == m13 * m22 * m33 - m13 * m23 * m32) by (nonlinear_arith);
    assert(m23 * (m13 * m32 - m33 * m12) == m13 * m23 * m32 - m12 * m23 * m33) by (nonlinear_arith);
    assert(m33 * (m12 * m23 - m22 * m13) == m12 * m23 * m33 - m13 * m22 * m33) by (nonlinear_arith);
    assert(m11 * (-(m21 * m33 - m31 * m23)) == -(m11 * m21 * m33) + m11 * m23 * m31) by (nonlinear_arith);
    assert(m21 * (m11 * m33 - m31 * m13) == m11 * m21 * m33 - m13 * m21 * m31) by (nonlinear_arith);
    assert(m31 * (m13 * m21 - m23 * m11) == m13 * m21 * m31 - m11 * m23 * m31) by (nonlinear_arith);
    assert(m13 * (-(m21 * m33 - m31 * m23)) == -(m13 * m21 * m33) + m13 * m23 * m31) by (nonlinear_arith);
    assert(m23 * (m11 * m33 - m31 * m13) == m11 * m23 * m33 - m13 * m23 * m31) by (nonlinear_arith);
    assert(m33 * (m13 * m21 - m23 * m11) == m13 * m21 * m33 - m11 * m23 * m33) by (nonlinear_arith);
    assert(m11 * (m21 * m32 - m31 * m22) == m11 * m21 * m32 - m11 * m22 * m31) by (nonlinear_arith);
    assert(m21 * (m12 * m31 - m32 * m11) == m12 * m21 * m31 - m11 * m21 * m32) by (nonlinear_arith);
    assert(m31 * (m11 * m22 - m21 * m12) == m11 * m22 * m31 - m12 * m21 * m31) by (nonlinear_arith);
    assert(m12 * (m21 * m32 - m31 * m22) == m12 * m21 * m32 - m12 * m22 * m31) by (nonlinear_arith);
    assert(m22 * (m12 * m31 - m32 * m11) == m12 * m22 * m31 - m11 * m22 * m32) by (nonlinear_arith);
    assert(m32 * (m11 * m22 - m21 * m12) == m11 * m22 * m32 - m12 * m21 * m32) by (nonlinear_arith);
}

/// Cancels a nonzero factor `d` from one entry of a product with the adjugate.
proof fn lemma_cancel3(
    d: int,
    x1: int,
    x2: int,
    x3: int,
    q1: int,
    q2: int,
    q3: int,
    a1: int,
    a2: int,
    a3: int,
    t: int,
)
    requires
        d != 0,
        q1 * d == a1,
        q2 * d == a2,
        q3 * d == a3,
        x1 * a1 + x2 * a2 + x3 * a3 == t * d,
    ensures
        x1 * q1 + x2 * q2 + x3 * q3 == t,
        q1 * x1 + q2 * x2 + q3 * x3 == t,
{
    assert((x1 * q1) * d == x1 * (q1 * d)) by (nonlinear_arith);
    assert((x2 * q2) * d == x2 * (q2 * d)) by (nonlinear_arith);
    assert((x3 * q3) * d == x3 * (q3 * d)) by (nonlinear_arith);
    assert((x1 * q1 + x2 * q2 + x3 * q3) * d == (x1 * q1) * d + (x2 * q2) * d + (x3 * q3) * d)
        by (nonlinear_arith);
    assert((x1 * q1 + x2 * q2 + x3 * q3) * d == t * d);
    assert(x1 * q1 + x2 * q2 + x3 * q3 == t) by (nonlinear_arith)
        requires
            (x1 * q1 + x2 * q2 + x3 * q3) * d == t * d,
            d != 0,
    ;
    assert(q1 * x1 + q2 * x2 + q3 * x3 == t) by (nonlinear_arith)
        requires
            x1 * q1 + x2 * q2 + x3 * q3 == t,
    ;
}

/// Whether the determinant of `m` divides every entry of its adjugate, that is, whether
/// the inverse of `m` has integer entries.
pub open spec fn inverse_is_integral3(m: Mat3<i64>) -> bool {
    let a = adj3(m);
    let d = det3(m);
    &&& a.m11 % d == 0
    &&& a.m12 % d == 0
    &&& a.m13 % d == 0
    &&& a.m21 % d == 0
    &&& a.m22 % d == 0
    &&& a.m23 % d == 0
    &&& a.m31 % d == 0
    &&& a.m32 % d == 0
    &&& a.m33 % d == 0
}

/// A 3x3 matrix that has an inverse with integer entries gives the identity when
/// multiplied by it, on either side.
pub proof fn lemma_inverse_product3(m: Mat3<i64>)
    requires
        Mat3::<i64>::inv_defined(m),
        Mat3::<i64>::inverse_of(m) is Some,
        inverse_is_integral3(m),
    ensures
        <Mat3<i64> as RMul<Mat3<i64>>>::rmul_of(m, Mat3::<i64>::inverse_of(m).unwrap())
            == identity3(),
        <Mat3<i64> as RMul<Mat3<i64>>>::rmul_of(Mat3::<i64>::inverse_of(m).unwrap(), m)
            == identity3(),
{
    let d = det3(m);
    let a = adj3(m);
    let q = Mat3::<i64>::inverse_of(m).unwrap();
    lemma_tdiv_exact(a.m11, d);
    lemma_tdiv_exact(a.m12, d);
    lemma_tdiv_exact(a.m13, d);
    lemma_tdiv_exact(a.m21, d);
    lemma_tdiv_exact(a.m22, d);
    lemma_tdiv_exact(a.m23, d);
    lemma_tdiv_exact(a.m31, d);
    lemma_tdiv_exact(a.m32, d);
    lemma_tdiv_exact(a.m33, d);
    lemma_adjugate3(m.m11 as int, m.m12 as int, m.m13 as int, m.m21 as int, m.m22 as int, m.m23 as int, m.m31 as int, m.m32 as int, m.m33 as int);
    lemma_cancel3(d, m.m11 as int, m.m12 as int, m.m13 as int, q.m11 as int, q.m21 as int, q.m31 as int, a.m11, a.m21, a.m31, 1);
    lemma_cancel3(d, m.m11 as int, m.m12 as int, m.m13 as int, q.m12 as int, q.m22 as int, q.m32 as int, a.m12, a.m22, a.m32, 0);
    lemma_cancel3(d, m.m11 as int, m.m12 as int, m.m13 as int, q.m13 as int, q.m23 as int, q.m33 as int, a.m13, a.m23, a.m33, 0);
    lemma_cancel3(d, m.m21 as int, m.m22 as int, m.m23 as int, q.m11 as int, q.m21 as int, q.m31 as int, a.m11, a.m21, a.m31, 0);
    lemma_cancel3(d, m.m21 as int, m.m22 as int, m.m23 as int, q.m12 as int, q.m22 as int, q.m32 as int, a.m12, a.m22, a.m32, 1);
    lemma_cancel3(d, m.m21 as int, m.m22 as int, m.m23 as int, q.m13 as int, q.m23 as int, q.m33 as int, a.m13, a.m23, a.m33, 0);
    lemma_cancel3(d, m.m31 as int, m.m32 as int, m.m33 as int, q.m11 as int, q.m21 as int, q.m31 as int, a.m11, a.m21, a.m31, 0);
    lemma_cancel3(d, m.m31 as int, m.m32 as int, m.m33 as int, q.m12 as int, q.m22 as int, q.m32 as int, a.m12, a.m22, a.m32, 0);
    lemma_cancel3(d, m.m31 as int, m.m32 as int, m.m33 as int, q.m13 as int, q.m23 as int, q.m33 as int, a.m13, a.m23, a.m33, 1);
    lemma_cancel3(d, m.m11 as int, m.m21 as int, m.m31 as int, q.m11 as int, q.m12 as int, q.m13 as int, a.m11, a.m12, a.m13, 1);
    lemma_cancel3(d, m.m12 as int, m.m22 as int, m.m32 as int, q.m11 as int, q.m12 as int, q.m13 as int, a.m11, a.m12, a.m13, 0);
    lemma_cancel3(d, m.m13 as int, m.m23 as int, m.m33 as int, q.m11 as int, q.m12 as int, q.m13 as int, a.m11, a.m12, a.m13, 0);
    lemma_cancel3(d, m.m11 as int, m.m21 as int, m.m31 as int, q.m21 as int, q.m22 as int, q.m23 as int, a.m21, a.m22, a.m23, 0);
    lemma_cancel3(d, m.m12 as int, m.m22 as int, m.m32 as int, q.m21 as int, q.m22 as int, q.m23 as int, a.m21, a.m22, a.m23, 1);
    lemma_cancel3(d, m.m13 as int, m.m23 as int, m.m33 as int, q.m21 as int, q.m22 as int, q.m23 as int, a.m21, a.m22, a.m23, 0);
    lemma_cancel3(d, m.m11 as int, m.m21 as int, m.m31 as int, q.m31 as int, q.m32 as int, q.m33 as int, a.m31, a.m32, a.m33, 0);
    lemma_cancel3(d, m.m12 as int, m.m22 as int, m.m32 as int, q.m31 as int, q.m32 as int, q.m33 as int, a.m31, a.m32, a.m33, 0);
    lemma_cancel3(d, m.m13 as int, m.m23 as int, m.m33 as int, q.m31 as int, q.m32 as int, q.m33 as int, a.m31, a.m32, a.m33, 1);
}
} // verus!
