//! Partial orderings: a four-way comparison result and the operations derived from it.
use crate::structs::{Vec2, Vec3};
use std::cmp::Ordering;
use vstd::prelude::*;

verus! {

/// Result of a partial ordering.
#[derive(PartialEq, Eq, Structural, Clone, Copy, Debug)]
pub enum POrdering {
    /// Result of a strict comparison.
    PartialLess,
    /// Equality relationship.
    PartialEqual,
    /// Result of a strict comparison.
    PartialGreater,
    /// Result of a comparison between two objects that are not comparable.
    NotComparable,
}

impl POrdering {
    /// `Less` or `Equal`.
    pub open spec fn le_spec(self) -> bool {
        self == POrdering::PartialLess || self == POrdering::PartialEqual
    }

    /// `Greater` or `Equal`.
    pub open spec fn ge_spec(self) -> bool {
        self == POrdering::PartialGreater || self == POrdering::PartialEqual
    }

    /// Returns `true` if `self` is equal to `Equal`.
    pub fn is_eq(&self) -> (r: bool)
        ensures
            r == (*self == POrdering::PartialEqual),
    {
        *self == POrdering::PartialEqual
    }

    /// Returns `true` if `self` is equal to `Less`.
    pub fn is_lt(&self) -> (r: bool)
        ensures
            r == (*self == POrdering::PartialLess),
    {
        *self == POrdering::PartialLess
    }

    /// Returns `true` if `self` is equal to `Less` or `Equal`.
    pub fn is_le(&self) -> (r: bool)
        ensures
            r == self.le_spec(),
    {
        *self == POrdering::PartialLess || *self == POrdering::PartialEqual
    }

    /// Returns `true` if `self` is equal to `Greater`.
    pub fn is_gt(&self) -> (r: bool)
        ensures
            r == (*self == POrdering::PartialGreater),
    {
        *self == POrdering::PartialGreater
    }

    /// Returns `true` if `self` is equal to `Greater` or `Equal`.
    pub fn is_ge(&self) -> (r: bool)
        ensures
            r == self.ge_spec(),
    {
        *self == POrdering::PartialGreater || *self == POrdering::PartialEqual
    }

    /// Returns `true` if `self` is equal to `NotComparable`.
    pub fn is_not_comparable(&self) -> (r: bool)
        ensures
            r == (*self == POrdering::NotComparable),
    {
        *self == POrdering::NotComparable
    }

    /// The partial ordering that corresponds to a total one.
    pub open spec fn from_ordering_spec(ord: Ordering) -> POrdering {
        match ord {
            Ordering::Less => POrdering::PartialLess,
            Ordering::Equal => POrdering::PartialEqual,
            Ordering::Greater => POrdering::PartialGreater,
        }
    }

    /// Creates a `POrdering` from an `Ordering`.
    pub fn from_ordering(ord: Ordering) -> (r: POrdering)
        ensures
            r == Self::from_ordering_spec(ord),
    {
        match ord {
            Ordering::Less => POrdering::PartialLess,
            Ordering::Equal => POrdering::PartialEqual,
            Ordering::Greater => POrdering::PartialGreater,
        }
    }

    /// Converts this `POrdering` to an `Ordering`.
    ///
    /// Returns `None` if `self` is `NotComparable`.
    pub fn to_ordering(self) -> (r: Option<Ordering>)
        ensures
            r == (match self {
                POrdering::PartialLess => Some(Ordering::Less),
                POrdering::PartialEqual => Some(Ordering::Equal),
                POrdering::PartialGreater => Some(Ordering::Greater),
                POrdering::NotComparable => None,
            }),
            r.is_some() ==> Self::from_ordering_spec(r.unwrap()) == self,
    {
        match self {
            POrdering::PartialLess => Some(Ordering::Less),
            POrdering::PartialEqual => Some(Ordering::Equal),
            POrdering::PartialGreater => Some(Ordering::Greater),
            POrdering::NotComparable => None,
        }
    }
}

/// Pointwise ordering operations.
pub trait POrd: Sized {
    /// The comparison of `a` and `b`.
    spec fn cmp_of(a: Self, b: Self) -> POrdering;

    /// The infimum of `a` and `b`.
    spec fn inf_of(a: Self, b: Self) -> Self;

    /// The supremum of `a` and `b`.
    spec fn sup_of(a: Self, b: Self) -> Self;

    /// Returns the infimum of `a` and `b`.
    fn inf(a: &Self, b: &Self) -> (r: Self)
        ensures
            r == Self::inf_of(*a, *b),
    ;

    /// Returns the supremum of `a` and `b`.
    fn sup(a: &Self, b: &Self) -> (r: Self)
        ensures
            r == Self::sup_of(*a, *b),
    ;

    /// Compare `a` and `b` using a partial ordering relation.
    fn partial_cmp(a: &Self, b: &Self) -> (r: POrdering)
        ensures
            r == Self::cmp_of(*a, *b),
    ;

    /// Returns `true` iff `a` and `b` are comparable and `a <= b`.
    fn partial_le(a: &Self, b: &Self) -> (r: bool)
        ensures
            r == Self::cmp_of(*a, *b).le_spec(),
    {
        Self::partial_cmp(a, b).is_le()
    }

    /// Returns `true` iff `a` and `b` are comparable and `a < b`.
    fn partial_lt(a: &Self, b: &Self) -> (r: bool)
        ensures
            r == (Self::cmp_of(*a, *b) == POrdering::PartialLess),
    {
        Self::partial_cmp(a, b).is_lt()
    }

    /// Returns `true` iff `a` and `b` are comparable and `a >= b`.
    fn partial_ge(a: &Self, b: &Self) -> (r: bool)
        ensures
            r == Self::cmp_of(*a, *b).ge_spec(),
    {
        Self::partial_cmp(a, b).is_ge()
    }

    /// Returns `true` iff `a` and `b` are comparable and `a > b`.
    fn partial_gt(a: &Self, b: &Self) -> (r: bool)
        ensures
            r == (Self::cmp_of(*a, *b) == POrdering::PartialGreater),
    {
        Self::partial_cmp(a, b).is_gt()
    }

    /// Return the minimum of `a` and `b` if they are comparable.
    fn partial_min<'a>(a: &'a Self, b: &'a Self) -> (r: Option<&'a Self>)
        ensures
            r == (match Self::cmp_of(*a, *b) {
                POrdering::PartialLess | POrdering::PartialEqual => Some(a),
                POrdering::PartialGreater => Some(b),
                POrdering::NotComparable => None,
            }),
    {
        match Self::partial_cmp(a, b) {
            POrdering::PartialLess | POrdering::PartialEqual => Some(a),
            POrdering::PartialGreater => Some(b),
            POrdering::NotComparable => None,
        }
    }

    /// Return the maximum of `a` and `b` if they are comparable.
    fn partial_max<'a>(a: &'a Self, b: &'a Self) -> (r: Option<&'a Self>)
        ensures
            r == (match Self::cmp_of(*a, *b) {
                POrdering::PartialGreater | POrdering::PartialEqual => Some(a),
                POrdering::PartialLess => Some(b),
                POrdering::NotComparable => None,
            }),
    {
        match Self::partial_cmp(a, b) {
            POrdering::PartialGreater | POrdering::PartialEqual => Some(a),
            POrdering::PartialLess => Some(b),
            POrdering::NotComparable => None,
        }
    }

    /// Clamp `value` between `min` and `max`. Returns `None` if `value` is not comparable to
    /// `min` or `max`.
    fn partial_clamp<'a>(value: &'a Self, min: &'a Self, max: &'a Self) -> (r: Option<&'a Self>)
        ensures
            r == (if Self::cmp_of(*value, *min) == POrdering::NotComparable
                || Self::cmp_of(*value, *max) == POrdering::NotComparable {
                None
            } else if Self::cmp_of(*value, *min) == POrdering::PartialLess {
                Some(min)
            } else if Self::cmp_of(*value, *max) == POrdering::PartialGreater {
                Some(max)
            } else {
                Some(value)
            }),
    {
        let v_min = Self::partial_cmp(value, min);
        let v_max = Self::partial_cmp(value, max);

        if v_min.is_not_comparable() || v_max.is_not_comparable() {
            None
        } else {
            if v_min.is_lt() {
                Some(min)
            } else if v_max.is_gt() {
                Some(max)
            } else {
                Some(value)
            }
        }
    }
}

/// The usual total order on signed integers; no two of them are incomparable.
impl POrd for i64 {
    open spec fn cmp_of(a: i64, b: i64) -> POrdering {
        if a < b {
            POrdering::PartialLess
        } else if a == b {
            POrdering::PartialEqual
        } else {
            POrdering::PartialGreater
        }
    }

    open spec fn inf_of(a: i64, b: i64) -> i64 {
        if a <= b { a } else { b }
    }

    open spec fn sup_of(a: i64, b: i64) -> i64 {
        if a >= b { a } else { b }
    }

    fn inf(a: &i64, b: &i64) -> (r: i64) {
        if *a <= *b { *a } else { *b }
    }

    fn sup(a: &i64, b: &i64) -> (r: i64) {
        if *a >= *b { *a } else { *b }
    }

    fn partial_cmp(a: &i64, b: &i64) -> (r: POrdering) {
        if *a < *b {
            POrdering::PartialLess
        } else if *a == *b {
            POrdering::PartialEqual
        } else {
            POrdering::PartialGreater
        }
    }
}

/// Componentwise order on vectors: `a <= b` where every component of `a` is at most the
/// matching one of `b`. Two vectors each larger somewhere are not comparable.
impl POrd for Vec2<i64> {
    open spec fn cmp_of(a: Vec2<i64>, b: Vec2<i64>) -> POrdering {
        if a.x == b.x && a.y == b.y {
            POrdering::PartialEqual
        } else if a.x <= b.x && a.y <= b.y {
            POrdering::PartialLess
        } else if a.x >= b.x && a.y >= b.y {
            POrdering::PartialGreater
        } else {
            POrdering::NotComparable
        }
    }

    open spec fn inf_of(a: Vec2<i64>, b: Vec2<i64>) -> Vec2<i64> {
        Vec2 { x: i64::inf_of(a.x, b.x), y: i64::inf_of(a.y, b.y) }
    }

    open spec fn sup_of(a: Vec2<i64>, b: Vec2<i64>) -> Vec2<i64> {
        Vec2 { x: i64::sup_of(a.x, b.x), y: i64::sup_of(a.y, b.y) }
    }

    fn inf(a: &Vec2<i64>, b: &Vec2<i64>) -> (r: Vec2<i64>) {
        Vec2::new(i64::inf(&a.x, &b.x), i64::inf(&a.y, &b.y))
    }

    fn sup(a: &Vec2<i64>, b: &Vec2<i64>) -> (r: Vec2<i64>) {
        Vec2::new(i64::sup(&a.x, &b.x), i64::sup(&a.y, &b.y))
    }

    fn partial_cmp(a: &Vec2<i64>, b: &Vec2<i64>) -> (r: POrdering) {
        if a.x == b.x && a.y == b.y {
            POrdering::PartialEqual
        } else if a.x <= b.x && a.y <= b.y {
            POrdering::PartialLess
        } else if a.x >= b.x && a.y >= b.y {
            POrdering::PartialGreater
        } else {
            POrdering::NotComparable
        }
    }
}

/// Componentwise order on vectors, as for `Vec2`.
impl POrd for Vec3<i64> {
    open spec fn cmp_of(a: Vec3<i64>, b: Vec3<i64>) -> POrdering {
        if a.x == b.x && a.y == b.y && a.z == b.z {
            POrdering::PartialEqual
        } else if a.x <= b.x && a.y <= b.y && a.z <= b.z {
            POrdering::PartialLess
        } else if a.x >= b.x && a.y >= b.y && a.z >= b.z {
            POrdering::PartialGreater
        } else {
            POrdering::NotComparable
        }
    }

    open spec fn inf_of(a: Vec3<i64>, b: Vec3<i64>) -> Vec3<i64> {
        Vec3 { x: i64::inf_of(a.x, b.x), y: i64::inf_of(a.y, b.y), z: i64::inf_of(a.z, b.z) }
    }

    open spec fn sup_of(a: Vec3<i64>, b: Vec3<i64>) -> Vec3<i64> {
        Vec3 { x: i64::sup_of(a.x, b.x), y: i64::sup_of(a.y, b.y), z: i64::sup_of(a.z, b.z) }
    }

    fn inf(a: &Vec3<i64>, b: &Vec3<i64>) -> (r: Vec3<i64>) {
        Vec3::new(i64::inf(&a.x, &b.x), i64::inf(&a.y, &b.y), i64::inf(&a.z, &b.z))
    }

    fn sup(a: &Vec3<i64>, b: &Vec3<i64>) -> (r: Vec3<i64>) {
        Vec3::new(i64::sup(&a.x, &b.x), i64::sup(&a.y, &b.y), i64::sup(&a.z, &b.z))
    }

    fn partial_cmp(a: &Vec3<i64>, b: &Vec3<i64>) -> (r: POrdering) {
        if a.x == b.x && a.y == b.y && a.z == b.z {
            POrdering::PartialEqual
        } else if a.x <= b.x && a.y <= b.y && a.z <= b.z {
            POrdering::PartialLess
        } else if a.x >= b.x && a.y >= b.y && a.z >= b.z {
            POrdering::PartialGreater
        } else {
            POrdering::NotComparable
        }
    }
}

} // verus!
