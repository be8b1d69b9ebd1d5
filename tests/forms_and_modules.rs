use innerspace::{
    BilinearForm, ConvergentBasis, CountableBasis, FiniteBasis, QuadradicForm, RingModule, Scalar,
};

#[test]
fn bilinear_and_quadratic_forms() {
    assert_eq!(3i32.dot(4), 12);
    assert_eq!((-3i64).dot(4), -12);
    assert_eq!(3i32.dot(4), 4i32.dot(3));
    assert_eq!((-5i32).q_form(), 25);
    assert_eq!(6i64.q_form(), 36);
}

#[test]
fn module_operations() {
    assert_eq!(3i32.plus(4), 7);
    assert_eq!(3i32.minus(4), -1);
    assert_eq!(3i32.scale(-4), -12);
    assert_eq!(3i64.plus(-4), -1);
    assert_eq!(3i64.minus(-4), 7);
    assert_eq!(5i64.scale(6), 30);
    assert_eq!(8i32.minus(3), 3i32.minus(8).scale(-1));
    assert_eq!(11i64.minus(11), 0);
    assert_eq!(4i32.plus(9i32.minus(4)), 9);
}

#[test]
fn scalar_operations() {
    assert!(0i32.is_zero());
    assert!(!7i64.is_zero());
    assert_eq!((-4i32).conj(), -4);
}

#[test]
fn one_dimensional_basis() {
    assert_eq!(<i32 as FiniteBasis<i32>>::dimensions(), 1);
    assert_eq!(<i64 as ConvergentBasis<i64>>::basis(0), 1);
    let mut x: i32 = 9;
    assert_eq!(x.coordinate(0), 9);
    assert_eq!(x.elements(), 1);
    x.set_coordinate(0, -2);
    assert_eq!(x, -2);
}
