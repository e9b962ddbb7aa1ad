use linalg4::alg::mat4::Mat4;
use linalg4::alg::scalar::Scalar;
use linalg4::alg::vec4::Vec4;

#[test]
fn integer_sums_and_products_wrap() {
    assert_eq!(<i64 as Scalar>::add(2, 3), 5);
    assert_eq!(<i64 as Scalar>::add(i64::MAX, 1), i64::MIN);
    assert_eq!(<i64 as Scalar>::sub(i64::MIN, 1), i64::MAX);
    assert_eq!(<i64 as Scalar>::mul(1 << 62, 4), 0);
    assert_eq!(<i64 as Scalar>::mul(-7, 6), -42);
    assert_eq!(<i64 as Scalar>::neg(5), -5);
    assert_eq!(<i64 as Scalar>::neg(i64::MIN), i64::MIN);
    assert_eq!(<i64 as Scalar>::abs(-5), 5);
    assert_eq!(<i64 as Scalar>::abs(i64::MIN), i64::MIN);
    assert_eq!(<i64 as Scalar>::from_i32(-3), -3);
    assert_eq!(<i64 as Scalar>::pi(), 3);
}

#[test]
fn integer_division_truncates_and_is_total() {
    assert_eq!(<i64 as Scalar>::div(7, 2), 3);
    assert_eq!(<i64 as Scalar>::div(-7, 2), -3);
    assert_eq!(<i64 as Scalar>::div(7, -2), -3);
    assert_eq!(<i64 as Scalar>::div(5, 0), 0);
    assert_eq!(<i64 as Scalar>::div(i64::MIN, -1), 0);
}

#[test]
fn integer_root_rounds_down() {
    assert_eq!(<i64 as Scalar>::sqrt(0), 0);
    assert_eq!(<i64 as Scalar>::sqrt(1), 1);
    assert_eq!(<i64 as Scalar>::sqrt(15), 3);
    assert_eq!(<i64 as Scalar>::sqrt(16), 4);
    assert_eq!(<i64 as Scalar>::sqrt(17), 4);
    assert_eq!(<i64 as Scalar>::sqrt(-9), 0);
    assert_eq!(<i64 as Scalar>::sqrt(i64::MAX), 3037000499);
    assert_eq!(<i64 as Scalar>::sqrt(3037000499 * 3037000499), 3037000499);
    assert_eq!(<i64 as Scalar>::sqrt(3037000499 * 3037000499 - 1), 3037000498);
}

#[test]
fn integer_comparisons() {
    assert!(<i64 as Scalar>::is_zero(0));
    assert!(!<i64 as Scalar>::is_zero(-1));
    assert!(<i64 as Scalar>::lt(-1, 0));
    assert!(!<i64 as Scalar>::lt(0, 0));
    assert!(<i64 as Scalar>::le(0, 0));
    assert!(!<i64 as Scalar>::le(1, 0));
}

#[test]
fn integer_identity_law_holds_exactly() {
    let a = Mat4([3i64, -1, 4, 1, -5, 9, 2, -6, 5, 3, i64::MAX, 8, 9, 7, i64::MIN, 3]);
    assert_eq!((a * Mat4::identity()).0, a.0);
    assert_eq!((Mat4::identity() * a).0, a.0);
    assert_eq!(Mat4::<i64>::identity().determinant(), 1);
    assert_eq!(a.transpose().transpose().0, a.0);
}

#[test]
fn integer_matrices_follow_the_same_expansions() {
    let a = Mat4([3i64, 1, 4, 1, 5, 9, 2, 6, 5, 3, 5, 8, 9, 7, 9, 3]);
    assert_eq!(a.determinant(), 98);
    assert_eq!(
        a.aggiunta().0,
        [-467, -123, 79, 191, 171, 57, -39, -67, 326, 76, -52, -122, 24, 8, 10, -18]
    );
    assert_eq!((a * a.aggiunta()).0, [98, 0, 0, 0, 0, 98, 0, 0, 0, 0, 98, 0, 0, 0, 0, 98]);
    assert_eq!(a.mul(&Vec4([1, 2, 3, 4])).0, [64, 56, 59, 49]);
    let even = Mat4([0i64, 0, 1, 0, 1, 0, 0, 0, 0, 1, 0, 0, 0, 0, 0, 1]);
    assert_eq!(even.determinant(), 1);
    assert_eq!(even.inverse().unwrap().0, even.transpose().0);
    let odd = Mat4([0i64, 1, 0, 0, 0, 0, 0, 1, 1, 0, 0, 0, 0, 0, 1, 0]);
    assert_eq!(odd.determinant(), -1);
    assert_eq!(odd.inverse().unwrap().0, odd.transpose().0);
    assert!(Mat4([0i64; 16]).inverse().is_none());
    assert_eq!(Mat4::<i64>::identity().inverse().unwrap().0, Mat4::<i64>::identity().0);
}

#[test]
fn integer_vector_length_rounds_down() {
    assert_eq!(Vec4([2i64, 3, 6, 0]).modulo(), 7);
    assert_eq!(Vec4([1i64, 1, 1, 0]).modulo(), 1);
    assert_eq!(Vec4([0i64, 6, 8, 0]).normalized().0, [0, 0, 0, 0]);
}
