//! Transposition and row/column access: operations that only move entries around, and so
//! work for any scalar type.
use crate::operations::Transpose;
use crate::structs::{Mat1, Mat2, Mat3, Vec3};
use vstd::prelude::*;

verus! {

impl<N: Copy> Transpose for Mat1<N> {
    open spec fn transpose_of(m: Mat1<N>) -> Mat1<N> {
        m
    }

    fn transpose(&mut self) {
    }
}

impl<N: Copy> Transpose for Mat2<N> {
    open spec fn transpose_of(m: Mat2<N>) -> Mat2<N> {
        Mat2 { m11: m.m11, m12: m.m21, m21: m.m12, m22: m.m22 }
    }

    fn transpose(&mut self) {
        let t = self.m12;
        self.m12 = self.m21;
        self.m21 = t;
    }
}

impl<N: Copy> Transpose for Mat3<N> {
    open spec fn transpose_of(m: Mat3<N>) -> Mat3<N> {
        Mat3 {
            m11: m.m11,
            m12: m.m21,
            m13: m.m31,
            m21: m.m12,
            m22: m.m22,
            m23: m.m32,
            m31: m.m13,
            m32: m.m23,
            m33: m.m33,
        }
    }

    fn transpose(&mut self) {
        let t = self.m12;
        self.m12 = self.m21;
        self.m21 = t;

        let t = self.m13;
        self.m13 = self.m31;
        self.m31 = t;

        let t = self.m23;
        self.m23 = self.m32;
        self.m32 = t;
    }
}

impl<N: Copy> Mat3<N> {
    /// Row `i` of `m`, for `i` in `0..3`.
    pub open spec fn row_of(m: Mat3<N>, i: int) -> Vec3<N> {
        if i == 0 {
            Vec3 { x: m.m11, y: m.m12, z: m.m13 }
        } else if i == 1 {
            Vec3 { x: m.m21, y: m.m22, z: m.m23 }
        } else {
            Vec3 { x: m.m31, y: m.m32, z: m.m33 }
        }
    }

    /// Column `i` of `m`, for `i` in `0..3`.
    pub open spec fn col_of(m: Mat3<N>, i: int) -> Vec3<N> {
        Self::row_of(<Mat3<N> as Transpose>::transpose_of(m), i)
    }

    /// `m` with row `i` replaced by `r`.
    pub open spec fn with_row(m: Mat3<N>, i: int, r: Vec3<N>) -> Mat3<N> {
        if i == 0 {
            Mat3 { m11: r.x, m12: r.y, m13: r.z, ..m }
        } else if i == 1 {
            Mat3 { m21: r.x, m22: r.y, m23: r.z, ..m }
        } else {
            Mat3 { m31: r.x, m32: r.y, m33: r.z, ..m }
        }
    }

    /// `m` with column `i` replaced by `c`.
    pub open spec fn with_col(m: Mat3<N>, i: int, c: Vec3<N>) -> Mat3<N> {
        if i == 0 {
            Mat3 { m11: c.x, m21: c.y, m31: c.z, ..m }
        } else if i == 1 {
            Mat3 { m12: c.x, m22: c.y, m32: c.z, ..m }
        } else {
            Mat3 { m13: c.x, m23: c.y, m33: c.z, ..m }
        }
    }

    /// The number of rows.
    pub fn nrows(&self) -> (r: usize)
        ensures
            r == 3,
    {
        3
    }

    /// Row `i`. An index out of `0..3` is a usage error.
    pub fn row(&self, i: usize) -> (r: Vec3<N>)
        requires
            i < 3,
        ensures
            r == Self::row_of(*self, i as int),
    {
        match i {
            0 => Vec3::new(self.m11, self.m12, self.m13),
            1 => Vec3::new(self.m21, self.m22, self.m23),
            _ => Vec3::new(self.m31, self.m32, self.m33),
        }
    }

    /// Overwrites row `i` with `r`. An index out of `0..3` is a usage error.
    pub fn set_row(&mut self, i: usize, r: Vec3<N>)
        requires
            i < 3,
        ensures
            *final(self) == Self::with_row(*old(self), i as int, r),
    {
        match i {
            0 => {
                self.m11 = r.x;
                self.m12 = r.y;
                self.m13 = r.z;
            },
            1 => {
                self.m21 = r.x;
                self.m22 = r.y;
                self.m23 = r.z;
            },
            _ => {
                self.m31 = r.x;
                self.m32 = r.y;
                self.m33 = r.z;
            },
        }
    }

    /// The number of columns.
    pub fn ncols(&self) -> (r: usize)
        ensures
            r == 3,
    {
        3
    }

    /// Column `i`. An index out of `0..3` is a usage error.
    pub fn col(&self, i: usize) -> (r: Vec3<N>)
        requires
            i < 3,
        ensures
            r == Self::col_of(*self, i as int),
    {
        match i {
            0 => Vec3::new(self.m11, self.m21, self.m31),
            1 => Vec3::new(self.m12, self.m22, self.m32),
            _ => Vec3::new(self.m13, self.m23, self.m33),
        }
    }

    /// Overwrites column `i` with `c`. An index out of `0..3` is a usage error.
    pub fn set_col(&mut self, i: usize, c: Vec3<N>)
        requires
            i < 3,
        ensures
            *final(self) == Self::with_col(*old(self), i as int, c),
    {
        match i {
            0 => {
                self.m11 = c.x;
                self.m21 = c.y;
                self.m31 = c.z;
            },
            1 => {
                self.m12 = c.x;
                self.m22 = c.y;
                self.m32 = c.z;
            },
            _ => {
                self.m13 = c.x;
                self.m23 = c.y;
                self.m33 = c.z;
            },
        }
    }
}

} // verus!
