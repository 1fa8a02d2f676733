//! Products of matrices with matrices, vectors and points, over 64-bit signed integers.
//!
//! `m.rmul(&v)` is `m * v`: the rows of `m` against `v`. `m.lmul(&v)` is `v * m`: `v`
//! against the columns of `m`. Points are multiplied exactly as vectors are.
use crate::operations::{LMul, RMul};
use crate::scalar::fits;
use crate::structs::{Mat2, Mat3, Pnt2, Pnt3, Vec2, Vec3};
use vstd::prelude::*;

verus! {

/// The dot product `a * x + b * y`.
pub open spec fn dot2(a: i64, b: i64, x: i64, y: i64) -> int {
    a * x + b * y
}

/// Whether each step of `a * x + b * y` fits in an `i64`.
pub open spec fn dot2_fits(a: i64, b: i64, x: i64, y: i64) -> bool {
    fits(a * x) && fits(b * y) && fits(dot2(a, b, x, y))
}

/// The dot product `a * x + b * y + c * z`.
pub open spec fn dot3(a: i64, b: i64, c: i64, x: i64, y: i64, z: i64) -> int {
    a * x + b * y + c * z
}

/// Whether each step of `a * x + b * y + c * z` fits in an `i64`.
pub open spec fn dot3_fits(a: i64, b: i64, c: i64, x: i64, y: i64, z: i64) -> bool {
    fits(a * x) && fits(b * y) && fits(a * x + b * y) && fits(c * z) && fits(
        dot3(a, b, c, x, y, z),
    )
}

fn dot2_exec(a: i64, b: i64, x: i64, y: i64) -> (r: i64)
    requires
        dot2_fits(a, b, x, y),
    ensures
        r == dot2(a, b, x, y),
{
    a * x + b * y
}

fn dot3_exec(a: i64, b: i64, c: i64, x: i64, y: i64, z: i64) -> (r: i64)
    requires
        dot3_fits(a, b, c, x, y, z),
    ensures
        r == dot3(a, b, c, x, y, z),
{
    a * x + b * y + c * z
}

/// The product of a 2x2 matrix and a column of two scalars.
pub open spec fn mat2_times(m: Mat2<i64>, x: i64, y: i64) -> (int, int) {
    (dot2(m.m11, m.m12, x, y), dot2(m.m21, m.m22, x, y))
}

pub open spec fn mat2_times_fits(m: Mat2<i64>, x: i64, y: i64) -> bool {
    dot2_fits(m.m11, m.m12, x, y) && dot2_fits(m.m21, m.m22, x, y)
}

/// The product of a row of two scalars and a 2x2 matrix.
pub open spec fn times_mat2(x: i64, y: i64, m: Mat2<i64>) -> (int, int) {
    (dot2(x, y, m.m11, m.m21), dot2(x, y, m.m12, m.m22))
}

pub open spec fn times_mat2_fits(x: i64, y: i64, m: Mat2<i64>) -> bool {
    dot2_fits(x, y, m.m11, m.m21) && dot2_fits(x, y, m.m12, m.m22)
}

/// The product of a 3x3 matrix and a column of three scalars.
pub open spec fn mat3_times(m: Mat3<i64>, x: i64, y: i64, z: i64) -> (int, int, int) {
    (
        dot3(m.m11, m.m12, m.m13, x, y, z),
        dot3(m.m21, m.m22, m.m23, x, y, z),
        dot3(m.m31, m.m32, m.m33, x, y, z),
    )
}

pub open spec fn mat3_times_fits(m: Mat3<i64>, x: i64, y: i64, z: i64) -> bool {
    &&& dot3_fits(m.m11, m.m12, m.m13, x, y, z)
    &&& dot3_fits(m.m21, m.m22, m.m23, x, y, z)
    &&& dot3_fits(m.m31, m.m32, m.m33, x, y, z)
}

/// The product of a row of three scalars and a 3x3 matrix.
pub open spec fn times_mat3(x: i64, y: i64, z: i64, m: Mat3<i64>) -> (int, int, int) {
    (
        dot3(x, y, z, m.m11, m.m21, m.m31),
        dot3(x, y, z, m.m12, m.m22, m.m32),
        dot3(x, y, z, m.m13, m.m23, m.m33),
    )
}

pub open spec fn times_mat3_fits(x: i64, y: i64, z: i64, m: Mat3<i64>) -> bool {
    &&& dot3_fits(x, y, z, m.m11, m.m21, m.m31)
    &&& dot3_fits(x, y, z, m.m12, m.m22, m.m32)
    &&& dot3_fits(x, y, z, m.m13, m.m23, m.m33)
}

impl RMul<Vec2<i64>> for Mat2<i64> {
    open spec fn rmul_defined(m: Mat2<i64>, v: Vec2<i64>) -> bool {
        mat2_times_fits(m, v.x, v.y)
    }

    open spec fn rmul_of(m: Mat2<i64>, v: Vec2<i64>) -> Vec2<i64> {
        let p = mat2_times(m, v.x, v.y);
        Vec2 { x: p.0 as i64, y: p.1 as i64 }
    }

    fn rmul(&self, v: &Vec2<i64>) -> (r: Vec2<i64>) {
        Vec2::new(dot2_exec(self.m11, self.m12, v.x, v.y), dot2_exec(self.m21, self.m22, v.x, v.y))
    }
}

impl LMul<Vec2<i64>> for Mat2<i64> {
    open spec fn lmul_defined(m: Mat2<i64>, v: Vec2<i64>) -> bool {
        times_mat2_fits(v.x, v.y, m)
    }

    open spec fn lmul_of(m: Mat2<i64>, v: Vec2<i64>) -> Vec2<i64> {
        let p = times_mat2(v.x, v.y, m);
        Vec2 { x: p.0 as i64, y: p.1 as i64 }
    }

    fn lmul(&self, v: &Vec2<i64>) -> (r: Vec2<i64>) {
        Vec2::new(dot2_exec(v.x, v.y, self.m11, self.m21), dot2_exec(v.x, v.y, self.m12, self.m22))
    }
}

impl RMul<Pnt2<i64>> for Mat2<i64> {
    open spec fn rmul_defined(m: Mat2<i64>, v: Pnt2<i64>) -> bool {
        mat2_times_fits(m, v.x, v.y)
    }

    open spec fn rmul_of(m: Mat2<i64>, v: Pnt2<i64>) -> Pnt2<i64> {
        let p = mat2_times(m, v.x, v.y);
        Pnt2 { x: p.0 as i64, y: p.1 as i64 }
    }

    fn rmul(&self, v: &Pnt2<i64>) -> (r: Pnt2<i64>) {
        Pnt2::new(dot2_exec(self.m11, self.m12, v.x, v.y), dot2_exec(self.m21, self.m22, v.x, v.y))
    }
}

impl LMul<Pnt2<i64>> for Mat2<i64> {
    open spec fn lmul_defined(m: Mat2<i64>, v: Pnt2<i64>) -> bool {
        times_mat2_fits(v.x, v.y, m)
    }

    open spec fn lmul_of(m: Mat2<i64>, v: Pnt2<i64>) -> Pnt2<i64> {
        let p = times_mat2(v.x, v.y, m);
        Pnt2 { x: p.0 as i64, y: p.1 as i64 }
    }

    fn lmul(&self, v: &Pnt2<i64>) -> (r: Pnt2<i64>) {
        Pnt2::new(dot2_exec(v.x, v.y, self.m11, self.m21), dot2_exec(v.x, v.y, self.m12, self.m22))
    }
}

impl RMul<Mat2<i64>> for Mat2<i64> {
    open spec fn rmul_defined(m: Mat2<i64>, v: Mat2<i64>) -> bool {
        times_mat2_fits(m.m11, m.m12, v) && times_mat2_fits(m.m21, m.m22, v)
    }

    open spec fn rmul_of(m: Mat2<i64>, v: Mat2<i64>) -> Mat2<i64> {
        let r1 = times_mat2(m.m11, m.m12, v);
        let r2 = times_mat2(m.m21, m.m22, v);
        Mat2 { m11: r1.0 as i64, m12: r1.1 as i64, m21: r2.0 as i64, m22: r2.1 as i64 }
    }

    fn rmul(&self, right: &Mat2<i64>) -> (r: Mat2<i64>) {
        Mat2::new(
            dot2_exec(self.m11, self.m12, right.m11, right.m21),
            dot2_exec(self.m11, self.m12, right.m12, right.m22),
            dot2_exec(self.m21, self.m22, right.m11, right.m21),
            dot2_exec(self.m21, self.m22, right.m12, right.m22),
        )
    }
}

impl RMul<Vec3<i64>> for Mat3<i64> {
    open spec fn rmul_defined(m: Mat3<i64>, v: Vec3<i64>) -> bool {
        mat3_times_fits(m, v.x, v.y, v.z)
    }

    open spec fn rmul_of(m: Mat3<i64>, v: Vec3<i64>) -> Vec3<i64> {
        let p = mat3_times(m, v.x, v.y, v.z);
        Vec3 { x: p.0 as i64, y: p.1 as i64, z: p.2 as i64 }
    }

    fn rmul(&self, v: &Vec3<i64>) -> (r: Vec3<i64>) {
        Vec3::new(
            dot3_exec(self.m11, self.m12, self.m13, v.x, v.y, v.z),
            dot3_exec(self.m21, self.m22, self.m23, v.x, v.y, v.z),
            dot3_exec(self.m31, self.m32, self.m33, v.x, v.y, v.z),
        )
    }
}

impl LMul<Vec3<i64>> for Mat3<i64> {
    open spec fn lmul_defined(m: Mat3<i64>, v: Vec3<i64>) -> bool {
        times_mat3_fits(v.x, v.y, v.z, m)
    }

    open spec fn lmul_of(m: Mat3<i64>, v: Vec3<i64>) -> Vec3<i64> {
        let p = times_mat3(v.x, v.y, v.z, m);
        Vec3 { x: p.0 as i64, y: p.1 as i64, z: p.2 as i64 }
    }

    fn lmul(&self, v: &Vec3<i64>) -> (r: Vec3<i64>) {
        Vec3::new(
            dot3_exec(v.x, v.y, v.z, self.m11, self.m21, self.m31),
            dot3_exec(v.x, v.y, v.z, self.m12, self.m22, self.m32),
            dot3_exec(v.x, v.y, v.z, self.m13, self.m23, self.m33),
        )
    }
}

impl RMul<Pnt3<i64>> for Mat3<i64> {
    open spec fn rmul_defined(m: Mat3<i64>, v: Pnt3<i64>) -> bool {
        mat3_times_fits(m, v.x, v.y, v.z)
    }

    open spec fn rmul_of(m: Mat3<i64>, v: Pnt3<i64>) -> Pnt3<i64> {
        let p = mat3_times(m, v.x, v.y, v.z);
        Pnt3 { x: p.0 as i64, y: p.1 as i64, z: p.2 as i64 }
    }

    fn rmul(&self, v: &Pnt3<i64>) -> (r: Pnt3<i64>) {
        Pnt3::new(
            dot3_exec(self.m11, self.m12, self.m13, v.x, v.y, v.z),
            dot3_exec(self.m21, self.m22, self.m23, v.x, v.y, v.z),
            dot3_exec(self.m31, self.m32, self.m33, v.x, v.y, v.z),
        )
    }
}

impl LMul<Pnt3<i64>> for Mat3<i64> {
    open spec fn lmul_defined(m: Mat3<i64>, v: Pnt3<i64>) -> bool {
        times_mat3_fits(v.x, v.y, v.z, m)
    }

    open spec fn lmul_of(m: Mat3<i64>, v: Pnt3<i64>) -> Pnt3<i64> {
        let p = times_mat3(v.x, v.y, v.z, m);
        Pnt3 { x: p.0 as i64, y: p.1 as i64, z: p.2 as i64 }
    }

    fn lmul(&self, v: &Pnt3<i64>) -> (r: Pnt3<i64>) {
        Pnt3::new(
            dot3_exec(v.x, v.y, v.z, self.m11, self.m21, self.m31),
            dot3_exec(v.x, v.y, v.z, self.m12, self.m22, self.m32),
            dot3_exec(v.x, v.y, v.z, self.m13, self.m23, self.m33),
        )
    }
}

impl RMul<Mat3<i64>> for Mat3<i64> {
    open spec fn rmul_defined(m: Mat3<i64>, v: Mat3<i64>) -> bool {
        &&& times_mat3_fits(m.m11, m.m12, m.m13, v)
        &&& times_mat3_fits(m.m21, m.m22, m.m23, v)
        &&& times_mat3_fits(m.m31, m.m32, m.m33, v)
    }

    open spec fn rmul_of(m: Mat3<i64>, v: Mat3<i64>) -> Mat3<i64> {
        let r1 = times_mat3(m.m11, m.m12, m.m13, v);
        let r2 = times_mat3(m.m21, m.m22, m.m23, v);
        let r3 = times_mat3(m.m31, m.m32, m.m33, v);
        Mat3 {
            m11: r1.0 as i64,
            m12: r1.1 as i64,
            m13: r1.2 as i64,
            m21: r2.0 as i64,
            m22: r2.1 as i64,
            m23: r2.2 as i64,
            m31: r3.0 as i64,
            m32: r3.1 as i64,
            m33: r3.2 as i64,
        }
    }

    fn rmul(&self, right: &Mat3<i64>) -> (r: Mat3<i64>) {
        Mat3::new(
            dot3_exec(self.m11, self.m12, self.m13, right.m11, right.m21, right.m31),
            dot3_exec(self.m11, self.m12, self.m13, right.m12, right.m22, right.m32),
            dot3_exec(self.m11, self.m12, self.m13, right.m13, right.m23, right.m33),
            dot3_exec(self.m21, self.m22, self.m23, right.m11, right.m21, right.m31),
            dot3_exec(self.m21, self.m22, self.m23, right.m12, right.m22, right.m32),
            dot3_exec(self.m21, self.m22, self.m23, right.m13, right.m23, right.m33),
            dot3_exec(self.m31, self.m32, self.m33, right.m11, right.m21, right.m31),
            dot3_exec(self.m31, self.m32, self.m33, right.m12, right.m22, right.m32),
            dot3_exec(self.m31, self.m32, self.m33, right.m13, right.m23, right.m33),
        )
    }
}

} // verus!
