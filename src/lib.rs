//! Small fixed-size vectors, points and square matrices, with their determinant, inverse,
//! transpose, row and column access and products.
//!
//! The records are generic over their scalar type, and so are the operations that only move
//! entries around. The arithmetic operations work on 64-bit signed integers: each states the
//! exact integer result, and asks that every intermediate value fit in an `i64`. Division
//! rounds toward zero, so an inverse is exact where the determinant divides every entry of
//! the adjugate (for instance where it is 1 or -1).
pub mod ordering;
pub mod scalar;
pub mod structs;
pub mod operations;
pub mod mat;
pub mod access;
pub mod product;
pub mod laws;
