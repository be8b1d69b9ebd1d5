use std::f64::consts::{FRAC_PI_2, PI};

use innerspace::{
    angle_of_signs, Angle, InnerProductMetric, InnerProductSpace, Metric, Seminorm,
    SesquilinearForm, Sign,
};

fn radians(a: Angle) -> f64 {
    a.right_angles() as f64 * FRAC_PI_2
}

#[test]
fn integer_inner_product_and_norms() {
    assert_eq!(3i32.inner_product(4), 12);
    assert_eq!(3i32.norm_sqrd(), 9);
    assert_eq!(3i32.norm(), 3);
    assert_eq!((-3i32).norm(), 3);
    assert_eq!(3i64.inner_product(4), 12);
    assert_eq!(3i64.norm_sqrd(), 9);
    assert_eq!((-7i64).norm(), 7);
}

#[test]
fn integer_distance() {
    assert_eq!(3i32.dist_euclid(4), 1);
    assert_eq!(4i32.dist_euclid(-6), 10);
    assert_eq!(3i64.dist_euclid(4), 1);
}

#[test]
fn integer_orthogonal() {
    assert!(0i32.orthogonal(5));
    assert!(5i32.orthogonal(0));
    assert!(!2i32.orthogonal(5));
    assert!(0i64.orthogonal(5));
    assert!(!2i64.orthogonal(5));
}

#[test]
fn integer_project_and_reject() {
    assert_eq!(2i32.project(6), 6);
    assert_eq!(2i32.reject(6), 0);
    assert_eq!(0i32.project(6), 0);
    assert_eq!(0i32.reject(6), 6);
    assert_eq!((-3i64).project(7), 7);
    assert_eq!((-3i64).reject(7), 0);
}

#[test]
fn integer_angles() {
    assert_eq!(2i32.angle(6), Angle::Zero);
    assert_eq!(2i32.angle(-6), Angle::Straight);
    assert_eq!(0i32.angle(6), Angle::Right);
    assert_eq!(0i32.angle(0), Angle::Zero);
    assert_eq!((-2i64).angle(-6), Angle::Zero);
    assert_eq!(radians(2i32.angle(-6)), PI);
    assert_eq!(radians(0i64.angle(6)), FRAC_PI_2);
    assert_eq!(radians(2i64.angle(6)), 0.0);
}

#[test]
fn angle_from_signs() {
    assert_eq!(angle_of_signs(Sign::Positive, Sign::Positive), Angle::Zero);
    assert_eq!(angle_of_signs(Sign::Negative, Sign::Negative), Angle::Zero);
    assert_eq!(angle_of_signs(Sign::Positive, Sign::Negative), Angle::Straight);
    assert_eq!(angle_of_signs(Sign::Zero, Sign::Negative), Angle::Right);
    assert_eq!(angle_of_signs(Sign::Positive, Sign::Zero), Angle::Right);
    assert_eq!(angle_of_signs(Sign::Zero, Sign::Zero), Angle::Zero);
}

#[test]
fn integer_normalized() {
    assert_eq!(7i32.normalized(), 1);
    assert_eq!((-7i32).normalized(), -1);
    assert_eq!(0i32.normalized(), 0);
    assert_eq!((-9i64).normalized(), -1);
}

#[test]
fn extreme_values() {
    assert_eq!(i32::MAX.norm(), i32::MAX);
    assert_eq!((i32::MIN + 1).norm(), i32::MAX);
    assert_eq!(i64::MIN.normalized(), -1);
    assert_eq!(i64::MIN.angle(i64::MAX), Angle::Straight);
    assert!(i32::MIN.orthogonal(0));
    assert_eq!(i32::MAX.dist_euclid(0), i32::MAX);
}

#[test]
fn distance_is_symmetric() {
    for &(x, y) in &[(3i32, 8i32), (-5, 12), (0, 0), (100, -100)] {
        assert_eq!(x.dist_euclid(y), y.dist_euclid(x));
        assert_eq!(x.dist_euclid(x), 0);
    }
}

#[test]
fn triangle_inequality() {
    for &(x, y, z) in &[(0i64, 5i64, 2i64), (-3, 4, 10), (7, -7, 7), (1, 1, 1)] {
        assert!(x.dist_euclid(z) <= x.dist_euclid(y) + y.dist_euclid(z));
    }
}

#[test]
fn project_plus_reject_is_identity() {
    for &(x, y) in &[(2i32, 6i32), (0, 6), (-4, 9), (5, -1)] {
        assert_eq!(x.project(y) + x.reject(y), y);
    }
}

#[test]
fn orthogonal_matches_inner_product() {
    for &(x, y) in &[(0i32, 5i32), (2, 5), (-3, 0), (0, 0), (-1, -1)] {
        assert_eq!(x.orthogonal(y), x.inner_product(y) == 0);
    }
}

#[test]
fn angles_stay_within_half_turn() {
    for &(x, y) in &[(2i32, 6i32), (2, -6), (0, 6), (0, 0), (-1, 4)] {
        let r = radians(x.angle(y));
        assert!((0.0..=PI).contains(&r));
    }
}

#[test]
fn overrides_agree_with_derivation() {
    for &x in &[1i64, -1, 3, -12, 40000] {
        let n = x.norm();
        assert!(n >= 0);
        assert_eq!(n * n, x.inner_product(x));
        assert_eq!(x.normalized() * n, x);
        assert_eq!(x.project(5) * x.inner_product(x), x * x.inner_product(5));
    }
    for &(x, y) in &[(2i32, 6i32), (-2, 6), (5, 5)] {
        let c: i32 = match x.angle(y) {
            Angle::Zero => 1,
            Angle::Right => 0,
            Angle::Straight => -1,
        };
        assert_eq!(c * x.norm() * y.norm(), x.inner_product(y));
    }
}

#[test]
fn metric_adapter() {
    let m = InnerProductMetric;
    let d: i32 = m.distance(3i32, 4i32);
    assert_eq!(d, 1);
    let d: i64 = m.distance(10i64, -5i64);
    assert_eq!(d, 15);
    let n: i32 = Seminorm::<i32, i32, i32>::norm(&m, -8i32);
    assert_eq!(n, 8);
    let u: i64 = Seminorm::<i64, i64, i64>::normalize(&m, -8i64);
    assert_eq!(u, -1);
    let p: i32 = m.product_of(3i32, 4i32);
    assert_eq!(p, 12);
    assert_eq!(SesquilinearForm::<i32, i32>::sigma(&m, -5i32), -5);
    assert_eq!(SesquilinearForm::<i64, i64>::sigma_inv(&m, 9i64), 9);
    assert_eq!(InnerProductMetric, m);
}
