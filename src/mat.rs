//! Determinant and inverse of square matrices over 64-bit signed integers.
use crate::operations::{Det, Inv};
use crate::scalar::{div_trunc, fits, lemma_tdiv_shrinks, tdiv, ApproxEq};
use crate::structs::{Mat1, Mat2, Mat3};
use vstd::prelude::*;

verus! {

/// The 2x2 minor `a * b - c * d`.
pub open spec fn minor(a: int, b: int, c: int, d: int) -> int {
    a * b - c * d
}

/// Whether computing `a * b - c * d` in `i64` never leaves its range.
pub open spec fn minor_fits(a: int, b: int, c: int, d: int) -> bool {
    fits(a * b) && fits(c * d) && fits(a * b - c * d)
}

/// Whether `x / d` fits in an `i64` wherever `d` is not zero.
pub open spec fn quot_fits(x: int, d: int) -> bool {
    d != 0 ==> fits(tdiv(x, d))
}

/// Whether a scalar is zero up to the default epsilon.
pub open spec fn approx_zero(d: i64) -> bool {
    <i64 as ApproxEq<i64>>::approx_eq_eps_of(d, 0i64, <i64 as ApproxEq<i64>>::epsilon_of())
}

/// Computes `a * b - c * d`.
fn minor_exec(a: i64, b: i64, c: i64, d: i64) -> (r: i64)
    requires
        minor_fits(a as int, b as int, c as int, d as int),
    ensures
        r == minor(a as int, b as int, c as int, d as int),
{
    a * b - c * d
}

/// The determinant of a 2x2 matrix.
pub open spec fn det2(m: Mat2<i64>) -> int {
    minor(m.m11 as int, m.m22 as int, m.m21 as int, m.m12 as int)
}

/// The three minors of the first row of a 3x3 matrix, and its cofactor expansion.
pub open spec fn minor_12_23(m: Mat3<i64>) -> int {
    minor(m.m22 as int, m.m33 as int, m.m32 as int, m.m23 as int)
}

pub open spec fn minor_11_23(m: Mat3<i64>) -> int {
    minor(m.m21 as int, m.m33 as int, m.m31 as int, m.m23 as int)
}

pub open spec fn minor_11_22(m: Mat3<i64>) -> int {
    minor(m.m21 as int, m.m32 as int, m.m31 as int, m.m22 as int)
}

/// The determinant of a 3x3 matrix.
pub open spec fn det3(m: Mat3<i64>) -> int {
    m.m11 * minor_12_23(m) - m.m12 * minor_11_23(m) + m.m13 * minor_11_22(m)
}

/// Whether each step of the cofactor expansion of `m` fits in an `i64`.
pub open spec fn det3_fits(m: Mat3<i64>) -> bool {
    &&& minor_fits(m.m22 as int, m.m33 as int, m.m32 as int, m.m23 as int)
    &&& minor_fits(m.m21 as int, m.m33 as int, m.m31 as int, m.m23 as int)
    &&& minor_fits(m.m21 as int, m.m32 as int, m.m31 as int, m.m22 as int)
    &&& fits(m.m11 * minor_12_23(m))
    &&& fits(m.m12 * minor_11_23(m))
    &&& fits(m.m11 * minor_12_23(m) - m.m12 * minor_11_23(m))
    &&& fits(m.m13 * minor_11_22(m))
    &&& fits(det3(m))
}

/// The adjugate of a 3x3 matrix: entry (i, j) is the cofactor (j, i).
pub open spec fn adj3(m: Mat3<i64>) -> Mat3<int> {
    Mat3 {
        m11: minor_12_23(m),
        m12: minor(m.m13 as int, m.m32 as int, m.m33 as int, m.m12 as int),
        m13: minor(m.m12 as int, m.m23 as int, m.m22 as int, m.m13 as int),
        m21: -minor_11_23(m),
        m22: minor(m.m11 as int, m.m33 as int, m.m31 as int, m.m13 as int),
        m23: minor(m.m13 as int, m.m21 as int, m.m23 as int, m.m11 as int),
        m31: minor_11_22(m),
        m32: minor(m.m12 as int, m.m31 as int, m.m32 as int, m.m11 as int),
        m33: minor(m.m11 as int, m.m22 as int, m.m21 as int, m.m12 as int),
    }
}

/// Each entry of `a` divided by `d`, rounded toward zero.
pub open spec fn div3(a: Mat3<int>, d: int) -> Mat3<i64> {
    Mat3 {
        m11: tdiv(a.m11, d) as i64,
        m12: tdiv(a.m12, d) as i64,
        m13: tdiv(a.m13, d) as i64,
        m21: tdiv(a.m21, d) as i64,
        m22: tdiv(a.m22, d) as i64,
        m23: tdiv(a.m23, d) as i64,
        m31: tdiv(a.m31, d) as i64,
        m32: tdiv(a.m32, d) as i64,
        m33: tdiv(a.m33, d) as i64,
    }
}

impl Det<i64> for Mat1<i64> {
    open spec fn det_defined(m: Mat1<i64>) -> bool {
        true
    }

    open spec fn det_of(m: Mat1<i64>) -> i64 {
        m.m11
    }

    fn det(m: &Mat1<i64>) -> (r: i64) {
        let d: i64 = m.m11;
        assert(d == <Mat1<i64> as Det<i64>>::det_of(*m));
        d
    }
}

impl Det<i64> for Mat2<i64> {
    open spec fn det_defined(m: Mat2<i64>) -> bool {
        minor_fits(m.m11 as int, m.m22 as int, m.m21 as int, m.m12 as int)
    }

    open spec fn det_of(m: Mat2<i64>) -> i64 {
        det2(m) as i64
    }

    fn det(m: &Mat2<i64>) -> (r: i64) {
        minor_exec(m.m11, m.m22, m.m21, m.m12)
    }
}

impl Det<i64> for Mat3<i64> {
    open spec fn det_defined(m: Mat3<i64>) -> bool {
        det3_fits(m)
    }

    open spec fn det_of(m: Mat3<i64>) -> i64 {
        det3(m) as i64
    }

    fn det(m: &Mat3<i64>) -> (r: i64) {
        let minor_m12_m23 = minor_exec(m.m22, m.m33, m.m32, m.m23);
        let minor_m11_m23 = minor_exec(m.m21, m.m33, m.m31, m.m23);
        let minor_m11_m22 = minor_exec(m.m21, m.m32, m.m31, m.m22);

        m.m11 * minor_m12_m23 - m.m12 * minor_m11_m23 + m.m13 * minor_m11_m22
    }
}

impl Inv for Mat1<i64> {
    open spec fn inv_defined(m: Mat1<i64>) -> bool {
        true
    }

    open spec fn inverse_of(m: Mat1<i64>) -> Option<Mat1<i64>> {
        if approx_zero(m.m11) {
            None
        } else {
            Some(Mat1 { m11: tdiv(1, m.m11 as int) as i64 })
        }
    }

    fn inv(&mut self) -> (r: bool) {
        if ApproxEq::approx_eq(&self.m11, &0i64) {
            false
        } else {
            let one: i64 = 1;
            let d = Det::det(&*self);
            proof {
                lemma_tdiv_shrinks(1, d as int);
            }
            self.m11 = div_trunc(one, d);
            true
        }
    }
}

} // verus!

verus! {

impl Inv for Mat2<i64> {
    open spec fn inv_defined(m: Mat2<i64>) -> bool {
        &&& <Mat2<i64> as Det<i64>>::det_defined(m)
        &&& det2(m) != 0 ==> {
            &&& m.m12 != i64::MIN
            &&& m.m21 != i64::MIN
            &&& quot_fits(m.m22 as int, det2(m))
            &&& quot_fits(-m.m12, det2(m))
            &&& quot_fits(-m.m21, det2(m))
            &&& quot_fits(m.m11 as int, det2(m))
        }
    }

    open spec fn inverse_of(m: Mat2<i64>) -> Option<Mat2<i64>> {
        let d = det2(m);
        if approx_zero(d as i64) {
            None
        } else {
            Some(
                Mat2 {
                    m11: tdiv(m.m22 as int, d) as i64,
                    m12: tdiv(-m.m12, d) as i64,
                    m21: tdiv(-m.m21, d) as i64,
                    m22: tdiv(m.m11 as int, d) as i64,
                },
            )
        }
    }

    fn inv(&mut self) -> (r: bool) {
        let det = Det::det(&*self);

        if ApproxEq::approx_eq(&det, &0i64) {
            false
        } else {
            *self = Mat2::new(
                div_trunc(self.m22, det),
                div_trunc(-self.m12, det),
                div_trunc(-self.m21, det),
                div_trunc(self.m11, det),
            );
            true
        }
    }
}

impl Inv for Mat3<i64> {
    open spec fn inv_defined(m: Mat3<i64>) -> bool {
        &&& det3_fits(m)
        &&& det3(m) != 0 ==> {
            &&& minor_fits(m.m13 as int, m.m32 as int, m.m33 as int, m.m12 as int)
            &&& minor_fits(m.m12 as int, m.m23 as int, m.m22 as int, m.m13 as int)
            &&& minor_fits(m.m11 as int, m.m33 as int, m.m31 as int, m.m13 as int)
            &&& minor_fits(m.m13 as int, m.m21 as int, m.m23 as int, m.m11 as int)
            &&& minor_fits(m.m12 as int, m.m31 as int, m.m32 as int, m.m11 as int)
            &&& minor_fits(m.m11 as int, m.m22 as int, m.m21 as int, m.m12 as int)
            &&& fits(-minor_11_23(m))
            &&& quot_fits(adj3(m).m11, det3(m))
            &&& quot_fits(adj3(m).m12, det3(m))
            &&& quot_fits(adj3(m).m13, det3(m))
            &&& quot_fits(adj3(m).m21, det3(m))
            &&& quot_fits(adj3(m).m22, det3(m))
            &&& quot_fits(adj3(m).m23, det3(m))
            &&& quot_fits(adj3(m).m31, det3(m))
            &&& quot_fits(adj3(m).m32, det3(m))
            &&& quot_fits(adj3(m).m33, det3(m))
        }
    }

    open spec fn inverse_of(m: Mat3<i64>) -> Option<Mat3<i64>> {
        if approx_zero(det3(m) as i64) {
            None
        } else {
            Some(div3(adj3(m), det3(m)))
        }
    }

    fn inv(&mut self) -> (r: bool) {
        let minor_m12_m23 = minor_exec(self.m22, self.m33, self.m32, self.m23);
        let minor_m11_m23 = minor_exec(self.m21, self.m33, self.m31, self.m23);
        let minor_m11_m22 = minor_exec(self.m21, self.m32, self.m31, self.m22);

        let det = self.m11 * minor_m12_m23 - self.m12 * minor_m11_m23 + self.m13 * minor_m11_m22;

        if ApproxEq::approx_eq(&det, &0i64) {
            false
        } else {
            // every new entry is computed from the old ones before any is stored
            *self = Mat3::new(
                div_trunc(minor_m12_m23, det),
                div_trunc(minor_exec(self.m13, self.m32, self.m33, self.m12), det),
                div_trunc(minor_exec(self.m12, self.m23, self.m22, self.m13), det),
                div_trunc(-minor_m11_m23, det),
                div_trunc(minor_exec(self.m11, self.m33, self.m31, self.m13), det),
                div_trunc(minor_exec(self.m13, self.m21, self.m23, self.m11), det),
                div_trunc(minor_m11_m22, det),
                div_trunc(minor_exec(self.m12, self.m31, self.m32, self.m11), det),
                div_trunc(minor_exec(self.m11, self.m22, self.m21, self.m12), det),
            );
            true
        }
    }
}

} // verus!
