//! Low level operations on vectors and matrices.
use vstd::prelude::*;

verus! {

/// Trait of objects having an inverse. Typically used to implement matrix inverse.
pub trait Inv: Sized + Copy {
    /// Whether inverting `m` stays within the range of the scalar type.
    spec fn inv_defined(m: Self) -> bool;

    /// The inverse of `m`, or `None` where `m` is singular.
    spec fn inverse_of(m: Self) -> Option<Self>;

    /// Returns the inverse of `m`.
    fn inv_cpy(m: &Self) -> (r: Option<Self>)
        requires
            Self::inv_defined(*m),
        ensures
            r == Self::inverse_of(*m),
    {
        let mut res = *m;
        if res.inv() {
            Some(res)
        } else {
            None
        }
    }

    /// In-place version of `inv_cpy`: returns whether `self` had an inverse, and leaves
    /// `self` unchanged where it had none.
    fn inv(&mut self) -> (r: bool)
        requires
            Self::inv_defined(*old(self)),
        ensures
            r == Self::inverse_of(*old(self)).is_some(),
            r ==> *final(self) == Self::inverse_of(*old(self)).unwrap(),
            !r ==> *final(self) == *old(self),
    ;
}

/// Trait of objects having a determinant. Typically used by square matrices.
pub trait Det<N>: Sized {
    /// Whether computing the determinant of `m` stays within the range of `N`.
    spec fn det_defined(m: Self) -> bool;

    /// The determinant of `m`.
    spec fn det_of(m: Self) -> N;

    /// Returns the determinant of `m`.
    fn det(m: &Self) -> (r: N)
        requires
            Self::det_defined(*m),
        ensures
            r == Self::det_of(*m),
    ;
}

/// Trait of objects which can be transposed.
pub trait Transpose: Sized + Copy {
    /// The transpose of `m`.
    spec fn transpose_of(m: Self) -> Self;

    /// Computes the transpose of a matrix.
    fn transpose_cpy(m: &Self) -> (r: Self)
        ensures
            r == Self::transpose_of(*m),
    {
        let mut res = *m;
        res.transpose();
        res
    }

    /// In-place version of `transpose_cpy`.
    fn transpose(&mut self)
        ensures
            *final(self) == Self::transpose_of(*old(self)),
    ;
}

/// Trait of objects having a right multiplication with another element.
pub trait RMul<V>: Sized {
    /// Whether `m * v` stays within the range of the scalar type.
    spec fn rmul_defined(m: Self, v: V) -> bool;

    /// The product `m * v`.
    spec fn rmul_of(m: Self, v: V) -> V;

    /// Computes `self * v`.
    fn rmul(&self, v: &V) -> (r: V)
        requires
            Self::rmul_defined(*self, *v),
        ensures
            r == Self::rmul_of(*self, *v),
    ;
}

/// Trait of objects having a left multiplication with another element.
pub trait LMul<V>: Sized {
    /// Whether `v * m` stays within the range of the scalar type.
    spec fn lmul_defined(m: Self, v: V) -> bool;

    /// The product `v * m`.
    spec fn lmul_of(m: Self, v: V) -> V;

    /// Computes `v * self`.
    fn lmul(&self, v: &V) -> (r: V)
        requires
            Self::lmul_defined(*self, *v),
        ensures
            r == Self::lmul_of(*self, *v),
    ;
}

} // verus!
