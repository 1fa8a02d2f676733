use nalgebra::operations::{Det, Inv, LMul, RMul, Transpose};
use nalgebra::structs::{Mat1, Mat2, Mat3, Pnt2, Pnt3, Vec2, Vec3};

fn identity3() -> Mat3<i64> {
    Mat3::new(1, 0, 0, 0, 1, 0, 0, 0, 1)
}

#[test]
fn determinants() {
    assert_eq!(Det::det(&Mat1::new(-4i64)), -4);
    assert_eq!(Det::det(&Mat2::new(4i64, 7, 2, 6)), 10);
    assert_eq!(Det::det(&Mat2::new(1i64, 2, 2, 4)), 0);
    assert_eq!(Det::det(&identity3()), 1);
    assert_eq!(Det::det(&Mat3::new(1i64, 2, 3, 0, 1, 4, 5, 6, 0)), 1);
    assert_eq!(Det::det(&Mat3::new(2i64, 0, 0, 0, 3, 0, 0, 0, 4)), 24);
}

#[test]
fn inverse_1x1() {
    assert_eq!(Inv::inv_cpy(&Mat1::new(1i64)), Some(Mat1::new(1)));
    assert_eq!(Inv::inv_cpy(&Mat1::new(-1i64)), Some(Mat1::new(-1)));
    assert_eq!(Inv::inv_cpy(&Mat1::new(2i64)), Some(Mat1::new(0)));
    assert_eq!(Inv::inv_cpy(&Mat1::new(0i64)), None);
}

#[test]
fn inverse_2x2() {
    // integer entries truncate toward zero: 0.6, -0.7, -0.2, 0.4 all become 0
    assert_eq!(Inv::inv_cpy(&Mat2::new(4i64, 7, 2, 6)), Some(Mat2::new(0, 0, 0, 0)));
    assert_eq!(Inv::inv_cpy(&Mat2::new(2i64, 1, 1, 1)), Some(Mat2::new(1, -1, -1, 2)));
    assert_eq!(Inv::inv_cpy(&Mat2::new(10i64, 20, 30, 40)), Some(Mat2::new(0, 0, 0, 0)));
    assert_eq!(Inv::inv_cpy(&Mat2::new(1i64, 2, 2, 4)), None);
}

#[test]
fn singular_inverse_leaves_matrix_unchanged() {
    let mut m = Mat2::new(1i64, 2, 2, 4);
    assert!(!m.inv());
    assert_eq!(m, Mat2::new(1, 2, 2, 4));

    let mut m3 = Mat3::new(1i64, 2, 3, 4, 5, 6, 7, 8, 9);
    assert_eq!(Det::det(&m3), 0);
    assert!(!m3.inv());
    assert_eq!(m3, Mat3::new(1, 2, 3, 4, 5, 6, 7, 8, 9));
    assert_eq!(Inv::inv_cpy(&m3), None);

    let mut m1 = Mat1::new(0i64);
    assert!(!m1.inv());
    assert_eq!(m1, Mat1::new(0));
}

#[test]
fn identity_3x3_inverts_to_itself() {
    assert_eq!(Det::det(&identity3()), 1);
    assert_eq!(Inv::inv_cpy(&identity3()), Some(identity3()));
    let mut m = identity3();
    assert!(m.inv());
    assert_eq!(m, identity3());
}

#[test]
fn inverse_3x3() {
    let m = Mat3::new(1i64, 2, 3, 0, 1, 4, 5, 6, 0);
    let inv = Inv::inv_cpy(&m).unwrap();
    assert_eq!(inv, Mat3::new(-24, 18, 5, 20, -15, -4, -5, 4, 1));
    assert_eq!(m.rmul(&inv), identity3());
    assert_eq!(inv.rmul(&m), identity3());
    let d = Mat3::new(2i64, 0, 0, 0, 4, 0, 0, 0, -1);
    assert_eq!(Inv::inv_cpy(&d), Some(Mat3::new(0, 0, 0, 0, 0, 0, 0, 0, -1)));
}

#[test]
fn inverse_2x2_products() {
    let m = Mat2::new(3i64, 5, 1, 2);
    let inv = Inv::inv_cpy(&m).unwrap();
    assert_eq!(inv, Mat2::new(2, -5, -1, 3));
    assert_eq!(m.rmul(&inv), Mat2::new(1, 0, 0, 1));
    assert_eq!(inv.rmul(&m), Mat2::new(1, 0, 0, 1));
}

#[test]
fn transposes() {
    let m = Mat3::new(1i64, 2, 3, 4, 5, 6, 7, 8, 9);
    let t = Transpose::transpose_cpy(&m);
    assert_eq!(t, Mat3::new(1, 4, 7, 2, 5, 8, 3, 6, 9));
    assert_eq!(Transpose::transpose_cpy(&t), m);
    let mut m2 = Mat2::new(1i64, 2, 3, 4);
    m2.transpose();
    assert_eq!(m2, Mat2::new(1, 3, 2, 4));
    assert_eq!(Transpose::transpose_cpy(&Mat1::new(9i64)), Mat1::new(9));
}

#[test]
fn rows_and_columns() {
    let mut m = Mat3::new(1i64, 2, 3, 4, 5, 6, 7, 8, 9);
    assert_eq!(m.nrows(), 3);
    assert_eq!(m.ncols(), 3);
    assert_eq!(m.row(1), Vec3::new(4, 5, 6));
    assert_eq!(m.col(2), Vec3::new(3, 6, 9));
    for i in 0..3 {
        let before = m;
        let r = m.row(i);
        m.set_row(i, r);
        assert_eq!(m, before);
        let c = m.col(i);
        m.set_col(i, c);
        assert_eq!(m, before);
    }
    m.set_row(0, Vec3::new(-1, -2, -3));
    assert_eq!(m, Mat3::new(-1, -2, -3, 4, 5, 6, 7, 8, 9));
    m.set_col(2, Vec3::new(0, 0, 0));
    assert_eq!(m, Mat3::new(-1, -2, 0, 4, 5, 0, 7, 8, 0));
}

#[test]
fn products_are_not_commutative() {
    let m = Mat2::new(1i64, 2, 3, 4);
    let v = Vec2::new(5i64, 6);
    assert_eq!(m.rmul(&v), Vec2::new(17, 39));
    assert_eq!(m.lmul(&v), Vec2::new(23, 34));
    assert_eq!(m.rmul(&Pnt2::new(5i64, 6)), Pnt2::new(17, 39));
    assert_eq!(m.lmul(&Pnt2::new(5i64, 6)), Pnt2::new(23, 34));
    assert_eq!(m.rmul(&Mat2::new(0i64, 1, 1, 0)), Mat2::new(2, 1, 4, 3));

    let m3 = Mat3::new(1i64, 2, 3, 4, 5, 6, 7, 8, 9);
    let v3 = Vec3::new(1i64, 0, -1);
    assert_eq!(m3.rmul(&v3), Vec3::new(-2, -2, -2));
    assert_eq!(m3.lmul(&v3), Vec3::new(-6, -6, -6));
    assert_eq!(m3.rmul(&Pnt3::new(1i64, 0, -1)), Pnt3::new(-2, -2, -2));
    assert_eq!(m3.lmul(&Pnt3::new(1i64, 0, -1)), Pnt3::new(-6, -6, -6));
    assert_eq!(m3.rmul(&identity3()), m3);
}

#[test]
fn identity_products() {
    let i2 = Mat2::new(1i64, 0, 0, 1);
    let v = Vec2::new(-8i64, 13);
    assert_eq!(i2.rmul(&v), v);
    assert_eq!(i2.lmul(&v), v);
    let p = Pnt3::new(3i64, -4, 5);
    assert_eq!(identity3().rmul(&p), p);
    assert_eq!(identity3().lmul(&p), p);
    let v3 = Vec3::new(i64::MAX, i64::MIN, 0);
    assert_eq!(identity3().rmul(&v3), v3);
}
