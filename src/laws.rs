//! Laws that relate the operations of inner-product spaces and their metric.
use vstd::prelude::*;

use crate::algebra::{RingModule, Scalar};
use crate::metric::{InnerProductMetric, InnerProductSpace, Metric};

verus! {

/// A projection and its rejection add up to the projected vector:
/// `project(x, y) + reject(x, y) == y`.
pub proof fn lemma_project_plus_reject<F: Scalar, V: InnerProductSpace<F>>(x: V, y: V)
    requires
        y.sub_defined(x.spec_project(y)),
    ensures
        x.spec_project(y).sum_of(y.difference(x.spec_project(y))) == y,
{
    V::lemma_add_sub(x.spec_project(y), y);
}

/// Every angle lies between zero and a straight angle, that is in `[0, π]`.
pub proof fn lemma_angle_in_range<F: Scalar, V: InnerProductSpace<F>>(x: V, y: V)
    ensures
        0 <= x.spec_angle(y).spec_right_angles() <= 2,
{
}

/// The norm of a space is the square root of `<x, x>` that the general
/// derivation takes: any nonnegative `n` with `n * n == <x, x>` is the norm.
pub proof fn lemma_norm_is_root<F: Scalar, V: InnerProductSpace<F>>(x: V, n: int)
    requires
        n >= 0,
        n * n == x.spec_inner(x),
    ensures
        n == x.spec_norm(),
{
    V::lemma_norm(x);
    let m = x.spec_norm();
    if n < m {
        assert(n * n < m * m) by (nonlinear_arith)
            requires
                0 <= n < m,
        ;
    } else if m < n {
        assert(m * m < n * n) by (nonlinear_arith)
            requires
                0 <= m < n,
        ;
    }
}

/// Orthogonality of numbers on a line, decided by zero tests alone, agrees
/// with a vanishing inner product on every pair.
pub proof fn lemma_orthogonal_by_zero_test_i32(x: i32, y: i32)
    ensures
        (x == 0 || y == 0) == (x.spec_inner(y) == 0),
{
    assert((x * y == 0) == (x == 0 || y == 0)) by (nonlinear_arith);
}

/// Orthogonality of numbers on a line, decided by zero tests alone, agrees
/// with a vanishing inner product on every pair.
pub proof fn lemma_orthogonal_by_zero_test_i64(x: i64, y: i64)
    ensures
        (x == 0 || y == 0) == (x.spec_inner(y) == 0),
{
    assert((x * y == 0) == (x == 0 || y == 0)) by (nonlinear_arith);
}

/// The distance of every inner-product space is symmetric,
/// `d(x, y) == d(y, x)`, and zero from a vector to itself.
pub proof fn lemma_distance_symmetric<F: Scalar, V: InnerProductSpace<F>>(x: V, y: V)
    requires
        x.sub_defined(y),
        y.sub_defined(x),
        x.sub_defined(x),
    ensures
        InnerProductMetric.spec_distance(x, y) == InnerProductMetric.spec_distance(y, x),
        InnerProductMetric.spec_distance(x, x) == 0,
{
    let d = x.difference(y);
    let e = y.difference(x);
    V::lemma_sub_swap(x, y);
    V::lemma_inner_scale(d, e, -1);
    V::lemma_inner_symmetric(d, e);
    V::lemma_inner_scale(d, d, -1);
    assert(e.spec_inner(e) == d.spec_inner(d));
    V::lemma_norm(e);
    lemma_norm_is_root(d, e.spec_norm());
    V::lemma_sub_self(x);
    let z = V::zero_element();
    V::lemma_inner_zero(z);
    V::lemma_norm(z);
    let n = z.spec_norm();
    assert(n == 0) by (nonlinear_arith)
        requires
            n >= 0,
            n * n == 0,
    ;
}

/// The triangle inequality: `d(x, z) <= d(x, y) + d(y, z)`.
pub proof fn lemma_triangle_i32(x: i32, y: i32, z: i32)
    requires
        x.sub_defined(y),
        y.sub_defined(z),
        x.sub_defined(z),
    ensures
        InnerProductMetric.spec_distance(x, z) <= InnerProductMetric.spec_distance(x, y)
            + InnerProductMetric.spec_distance(y, z),
{
}

/// The triangle inequality: `d(x, z) <= d(x, y) + d(y, z)`.
pub proof fn lemma_triangle_i64(x: i64, y: i64, z: i64)
    requires
        x.sub_defined(y),
        y.sub_defined(z),
        x.sub_defined(z),
    ensures
        InnerProductMetric.spec_distance(x, z) <= InnerProductMetric.spec_distance(x, y)
            + InnerProductMetric.spec_distance(y, z),
{
}

} // verus!
