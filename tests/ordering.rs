use nalgebra::ordering::{POrd, POrdering};
use nalgebra::structs::{Vec2, Vec3};
use std::cmp::Ordering;

#[test]
fn queries_on_each_variant() {
    let all = [
        POrdering::PartialLess,
        POrdering::PartialEqual,
        POrdering::PartialGreater,
        POrdering::NotComparable,
    ];
    let expected = [
        // is_eq, is_lt, is_le, is_gt, is_ge, is_not_comparable
        [false, true, true, false, false, false],
        [true, false, true, false, true, false],
        [false, false, false, true, true, false],
        [false, false, false, false, false, true],
    ];
    for (o, e) in all.iter().zip(expected.iter()) {
        assert_eq!(o.is_eq(), e[0]);
        assert_eq!(o.is_lt(), e[1]);
        assert_eq!(o.is_le(), e[2]);
        assert_eq!(o.is_gt(), e[3]);
        assert_eq!(o.is_ge(), e[4]);
        assert_eq!(o.is_not_comparable(), e[5]);
    }
}

#[test]
fn ordering_round_trip() {
    for o in [Ordering::Less, Ordering::Equal, Ordering::Greater] {
        assert_eq!(POrdering::from_ordering(o).to_ordering(), Some(o));
    }
    assert_eq!(POrdering::from_ordering(Ordering::Less), POrdering::PartialLess);
    assert_eq!(POrdering::NotComparable.to_ordering(), None);
}

#[test]
fn integer_comparisons() {
    assert_eq!(<i64 as POrd>::partial_cmp(&1, &2), POrdering::PartialLess);
    assert_eq!(<i64 as POrd>::partial_cmp(&2, &2), POrdering::PartialEqual);
    assert_eq!(<i64 as POrd>::partial_cmp(&3, &2), POrdering::PartialGreater);
    assert!(<i64 as POrd>::partial_le(&2, &2));
    assert!(!<i64 as POrd>::partial_lt(&2, &2));
    assert!(<i64 as POrd>::partial_ge(&3, &2));
    assert!(<i64 as POrd>::partial_gt(&3, &2));
    assert_eq!(<i64 as POrd>::inf(&3, &-2), -2);
    assert_eq!(<i64 as POrd>::sup(&3, &-2), 3);
}

#[test]
fn min_max_clamp() {
    assert_eq!(<i64 as POrd>::partial_min(&4, &9), Some(&4));
    assert_eq!(<i64 as POrd>::partial_min(&9, &4), Some(&4));
    assert_eq!(<i64 as POrd>::partial_max(&4, &9), Some(&9));
    assert_eq!(<i64 as POrd>::partial_max(&5, &5), Some(&5));
    assert_eq!(<i64 as POrd>::partial_clamp(&-3, &0, &10), Some(&0));
    assert_eq!(<i64 as POrd>::partial_clamp(&12, &0, &10), Some(&10));
    assert_eq!(<i64 as POrd>::partial_clamp(&7, &0, &10), Some(&7));
    assert_eq!(<i64 as POrd>::partial_clamp(&0, &0, &10), Some(&0));
}

#[test]
fn componentwise_vector_order() {
    let a = Vec2::new(1i64, 2);
    let b = Vec2::new(3i64, 4);
    let c = Vec2::new(0i64, 5);
    assert_eq!(<Vec2<i64> as POrd>::partial_cmp(&a, &b), POrdering::PartialLess);
    assert_eq!(<Vec2<i64> as POrd>::partial_cmp(&b, &a), POrdering::PartialGreater);
    assert_eq!(<Vec2<i64> as POrd>::partial_cmp(&a, &a), POrdering::PartialEqual);
    assert_eq!(<Vec2<i64> as POrd>::partial_cmp(&a, &c), POrdering::NotComparable);
    assert_eq!(<Vec2<i64> as POrd>::partial_cmp(&Vec2::new(1i64, 4), &b), POrdering::PartialLess);
    assert_eq!(<Vec2<i64> as POrd>::inf(&a, &c), Vec2::new(0, 2));
    assert_eq!(<Vec2<i64> as POrd>::sup(&a, &c), Vec2::new(1, 5));
    let u = Vec3::new(1i64, 1, 1);
    let v = Vec3::new(1i64, 2, 0);
    assert_eq!(<Vec3<i64> as POrd>::partial_cmp(&u, &v), POrdering::NotComparable);
    assert_eq!(<Vec3<i64> as POrd>::inf(&u, &v), Vec3::new(1, 1, 0));
    assert_eq!(<Vec3<i64> as POrd>::sup(&u, &v), Vec3::new(1, 2, 1));
}

#[test]
fn incomparable_min_max_clamp() {
    let a = Vec2::new(1i64, 2);
    let c = Vec2::new(0i64, 5);
    assert_eq!(<Vec2<i64> as POrd>::partial_min(&a, &c), None);
    assert_eq!(<Vec2<i64> as POrd>::partial_max(&a, &c), None);
    assert!(!<Vec2<i64> as POrd>::partial_le(&a, &c));
    assert!(!<Vec2<i64> as POrd>::partial_ge(&a, &c));
    let lo = Vec2::new(0i64, 0);
    let hi = Vec2::new(10i64, 10);
    assert_eq!(<Vec2<i64> as POrd>::partial_clamp(&Vec2::new(-1, 11), &lo, &hi), None);
    assert_eq!(<Vec2<i64> as POrd>::partial_clamp(&Vec2::new(-1, -1), &lo, &hi), Some(&lo));
    assert_eq!(<Vec2<i64> as POrd>::partial_clamp(&Vec2::new(11, 12), &lo, &hi), Some(&hi));
    let inside = Vec2::new(3i64, 4);
    assert_eq!(<Vec2<i64> as POrd>::partial_clamp(&inside, &lo, &hi), Some(&inside));
}
