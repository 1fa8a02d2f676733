//! Vectors, points and square matrices of dimension one to three, as plain records of
//! named components. Matrix components are named `m<row><col>`, counting from one.
use vstd::prelude::*;

verus! {

/// Vector of dimension 2.
#[derive(Clone, Copy, Debug, PartialEq, Eq)]
pub struct Vec2<N> {
    pub x: N,
    pub y: N,
}

/// Vector of dimension 3.
#[derive(Clone, Copy, Debug, PartialEq, Eq)]
pub struct Vec3<N> {
    pub x: N,
    pub y: N,
    pub z: N,
}

/// Point of dimension 2.
#[derive(Clone, Copy, Debug, PartialEq, Eq)]
pub struct Pnt2<N> {
    pub x: N,
    pub y: N,
}

/// Point of dimension 3.
#[derive(Clone, Copy, Debug, PartialEq, Eq)]
pub struct Pnt3<N> {
    pub x: N,
    pub y: N,
    pub z: N,
}

/// Square matrix of dimension 1.
#[derive(Clone, Copy, Debug, PartialEq, Eq)]
pub struct Mat1<N> {
    pub m11: N,
}

/// Square matrix of dimension 2.
#[derive(Clone, Copy, Debug, PartialEq, Eq)]
pub struct Mat2<N> {
    pub m11: N,
    pub m12: N,
    pub m21: N,
    pub m22: N,
}

/// Square matrix of dimension 3.
#[derive(Clone, Copy, Debug, PartialEq, Eq)]
pub struct Mat3<N> {
    pub m11: N,
    pub m12: N,
    pub m13: N,
    pub m21: N,
    pub m22: N,
    pub m23: N,
    pub m31: N,
    pub m32: N,
    pub m33: N,
}

impl<N> Vec2<N> {
    /// Creates a vector from its components.
    pub fn new(x: N, y: N) -> (r: Vec2<N>)
        ensures
            r == (Vec2 { x, y }),
    {
        Vec2 { x, y }
    }
}

impl<N> Vec3<N> {
    /// Creates a vector from its components.
    pub fn new(x: N, y: N, z: N) -> (r: Vec3<N>)
        ensures
            r == (Vec3 { x, y, z }),
    {
        Vec3 { x, y, z }
    }
}

impl<N> Pnt2<N> {
    /// Creates a point from its coordinates.
    pub fn new(x: N, y: N) -> (r: Pnt2<N>)
        ensures
            r == (Pnt2 { x, y }),
    {
        Pnt2 { x, y }
    }
}

impl<N> Pnt3<N> {
    /// Creates a point from its coordinates.
    pub fn new(x: N, y: N, z: N) -> (r: Pnt3<N>)
        ensures
            r == (Pnt3 { x, y, z }),
    {
        Pnt3 { x, y, z }
    }
}

impl<N> Mat1<N> {
    /// Creates a matrix from its single component.
    pub fn new(m11: N) -> (r: Mat1<N>)
        ensures
            r == (Mat1 { m11 }),
    {
        Mat1 { m11 }
    }
}

impl<N> Mat2<N> {
    /// Creates a matrix from its components, in row-major order.
    pub fn new(m11: N, m12: N, m21: N, m22: N) -> (r: Mat2<N>)
        ensures
            r == (Mat2 { m11, m12, m21, m22 }),
    {
        Mat2 { m11, m12, m21, m22 }
    }
}

impl<N> Mat3<N> {
    /// Creates a matrix from its components, in row-major order.
    pub fn new(m11: N, m12: N, m13: N, m21: N, m22: N, m23: N, m31: N, m32: N, m33: N) -> (r:
        Mat3<N>)
        ensures
            r == (Mat3 { m11, m12, m13, m21, m22, m23, m31, m32, m33 }),
    {
        Mat3 { m11, m12, m13, m21, m22, m23, m31, m32, m33 }
    }
}

} // verus!
