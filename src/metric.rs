//! Metrics, seminorms and norms, and inner-product spaces from which all of
//! them are derived.
use vstd::prelude::*;

use crate::algebra::{RingModule, Scalar};

verus! {

/// An angle that is a whole number of right angles, from zero up to a straight
/// angle.
#[derive(Clone, Copy, Debug, PartialEq, Eq, Hash, Structural)]
pub enum Angle {
    Zero,
    Right,
    Straight,
}

impl Angle {
    /// The number of right angles, so the angle in radians is this times `π/2`.
    pub open spec fn spec_right_angles(self) -> int {
        match self {
            Angle::Zero => 0,
            Angle::Right => 1,
            Angle::Straight => 2,
        }
    }

    /// The cosine of the angle.
    pub open spec fn cosine(self) -> int {
        match self {
            Angle::Zero => 1,
            Angle::Right => 0,
            Angle::Straight => -1,
        }
    }

    /// The number of right angles that the angle spans.
    pub fn right_angles(self) -> (r: u8)
        ensures
            r as int == self.spec_right_angles(),
            r <= 2,
    {
        match self {
            Angle::Zero => 0,
            Angle::Right => 1,
            Angle::Straight => 2,
        }
    }
}

/// A module over `F` with an inner product `<x, y>`, from which its norm,
/// distance, orthogonality, projection, rejection and angle are derived.
///
/// Scalars here are exact integers, which have no general square root,
/// inverse or arc cosine. So a space supplies its norm, normalization,
/// projection and angle itself, and proves the laws that tie each of them to
/// the inner product; the squared norm, the distance, orthogonality and the
/// rejection are derived.
pub trait InnerProductSpace<F: Scalar>: RingModule<F> {
    /// The value of `<self, rhs>`.
    spec fn spec_inner(self, rhs: Self) -> int;

    /// Whether `<self, rhs>` is representable in `F`.
    spec fn inner_defined(self, rhs: Self) -> bool;

    /// The length of `self`.
    spec fn spec_norm(self) -> int;

    /// Whether the length of `self` is representable in `F`.
    spec fn norm_defined(self) -> bool;

    /// The unit vector in the direction of `self`.
    spec fn spec_normalized(self) -> Self;

    spec fn normalized_defined(self) -> bool;

    /// The component of `rhs` along `self`.
    spec fn spec_project(self, rhs: Self) -> Self;

    spec fn project_defined(self, rhs: Self) -> bool;

    /// The angle between `self` and `rhs`.
    spec fn spec_angle(self, rhs: Self) -> Angle;

    spec fn angle_defined(self, rhs: Self) -> bool;

    /// The inner product of a real space is symmetric.
    proof fn lemma_inner_symmetric(x: Self, y: Self)
        ensures
            x.spec_inner(y) == y.spec_inner(x),
    ;

    /// The inner product is linear under scaling of its first operand.
    proof fn lemma_inner_scale(x: Self, y: Self, k: int)
        requires
            x.scale_defined(k),
        ensures
            x.scaled_by(k).spec_inner(y) == k * x.spec_inner(y),
    ;

    /// The zero vector is orthogonal to everything.
    proof fn lemma_inner_zero(y: Self)
        ensures
            Self::zero_element().spec_inner(y) == 0,
    ;

    /// The norm is the nonnegative square root of `<x, x>`.
    proof fn lemma_norm(x: Self)
        ensures
            x.spec_norm() >= 0,
            x.spec_norm() * x.spec_norm() == x.spec_inner(x),
    ;

    /// The normalization of a nonzero vector, stretched by its norm, is the
    /// vector again: it is `x * (1 / |x|)`.
    proof fn lemma_normalized(x: Self)
        requires
            x.spec_inner(x) != 0,
        ensures
            x.spec_normalized().scaled_by(x.spec_norm()) == x,
    ;

    /// The projection of `y` on a nonzero `x` is `x * (<x, y> / <x, x>)`,
    /// stated without division: `p * <x, x> == x * <x, y>`.
    proof fn lemma_project(x: Self, y: Self)
        requires
            x.spec_inner(x) != 0,
        ensures
            x.spec_project(y).scaled_by(x.spec_inner(x)) == x.scaled_by(x.spec_inner(y)),
    ;

    /// The angle between nonzero vectors is `acos(<x, y> / (|x| |y|))`, stated
    /// through its cosine.
    proof fn lemma_angle(x: Self, y: Self)
        requires
            x.spec_inner(x) != 0,
            y.spec_inner(y) != 0,
        ensures
            x.spec_angle(y).cosine() * (x.spec_norm() * y.spec_norm()) == x.spec_inner(y),
    ;

    fn inner_product(self, rhs: Self) -> (r: F)
        requires
            self.inner_defined(rhs),
        ensures
            r.value() == self.spec_inner(rhs),
    ;

    /// `<self, self>`.
    fn norm_sqrd(self) -> (r: F)
        requires
            self.inner_defined(self),
        ensures
            r.value() == self.spec_inner(self),
    {
        self.inner_product(self)
    }

    fn norm(self) -> (r: F)
        requires
            self.norm_defined(),
        ensures
            r.value() == self.spec_norm(),
    ;

    /// The norm of `self - rhs`.
    fn dist_euclid(self, rhs: Self) -> (r: F)
        requires
            self.sub_defined(rhs),
            self.difference(rhs).norm_defined(),
        ensures
            r.value() == self.difference(rhs).spec_norm(),
    {
        self.minus(rhs).norm()
    }

    fn normalized(self) -> (r: Self)
        requires
            self.normalized_defined(),
        ensures
            r == self.spec_normalized(),
    ;

    /// Whether `<self, rhs>` is zero.
    fn orthogonal(self, rhs: Self) -> (r: bool)
        requires
            self.inner_defined(rhs),
        ensures
            r == (self.spec_inner(rhs) == 0),
    {
        self.inner_product(rhs).is_zero()
    }

    /// `rhs` less its projection on `self`.
    fn reject(self, rhs: Self) -> (r: Self)
        requires
            self.project_defined(rhs),
            rhs.sub_defined(self.spec_project(rhs)),
        ensures
            r == rhs.difference(self.spec_project(rhs)),
    {
        rhs.minus(self.project(rhs))
    }

    fn project(self, rhs: Self) -> (r: Self)
        requires
            self.project_defined(rhs),
        ensures
            r == self.spec_project(rhs),
    ;

    fn angle(self, rhs: Self) -> (r: Angle)
        requires
            self.angle_defined(rhs),
        ensures
            r == self.spec_angle(rhs),
    ;
}

/// The absolute value of an integer.
pub open spec fn abs_of(x: int) -> int {
    if x < 0 {
        -x
    } else {
        x
    }
}

/// Where a number lies relative to zero.
#[derive(Clone, Copy, Debug, PartialEq, Eq, Hash, Structural)]
pub enum Sign {
    Negative,
    Zero,
    Positive,
}

/// The sign of an integer.
pub open spec fn sign_of(x: int) -> Sign {
    if x < 0 {
        Sign::Negative
    } else if x == 0 {
        Sign::Zero
    } else {
        Sign::Positive
    }
}

/// The angle between two numbers on a line, decided by their signs alone:
/// a right angle where exactly one of them is zero, a straight angle where
/// their signs differ, and zero otherwise (two zeros included).
pub open spec fn sign_angle(x: Sign, y: Sign) -> Angle {
    if (x == Sign::Zero) != (y == Sign::Zero) {
        Angle::Right
    } else if (x == Sign::Negative) != (y == Sign::Negative) {
        Angle::Straight
    } else {
        Angle::Zero
    }
}

/// The angle between two numbers on a line.
pub open spec fn line_angle(x: int, y: int) -> Angle {
    sign_angle(sign_of(x), sign_of(y))
}

/// Decides the angle between two numbers on a line from their signs.
pub fn angle_of_signs(x: Sign, y: Sign) -> (r: Angle)
    ensures
        r == sign_angle(x, y),
{
    let x_zero = matches!(x, Sign::Zero);
    let y_zero = matches!(y, Sign::Zero);
    let x_negative = matches!(x, Sign::Negative);
    let y_negative = matches!(y, Sign::Negative);
    if x_zero != y_zero {
        Angle::Right
    } else if x_negative != y_negative {
        Angle::Straight
    } else {
        Angle::Zero
    }
}

proof fn lemma_line_angle(x: int, y: int)
    requires
        x != 0,
        y != 0,
    ensures
        line_angle(x, y).cosine() * (abs_of(x) * abs_of(y)) == x * y,
{
    if x > 0 && y > 0 {
    } else if x > 0 && y < 0 {
        assert(x * (-y) == -(x * y)) by (nonlinear_arith);
    } else if x < 0 && y > 0 {
        assert((-x) * y == -(x * y)) by (nonlinear_arith);
    } else {
        assert((-x) * (-y) == x * y) by (nonlinear_arith);
    }
}

/// The sign of `x`.
pub fn sign_i32(x: i32) -> (r: Sign)
    ensures
        r == sign_of(x as int),
{
    if x < 0 {
        Sign::Negative
    } else if x == 0 {
        Sign::Zero
    } else {
        Sign::Positive
    }
}

/// A one-dimensional space over itself: `<x, y> = x * y`.
impl InnerProductSpace<i32> for i32 {
    open spec fn spec_inner(self, rhs: i32) -> int {
        self * rhs
    }

    open spec fn inner_defined(self, rhs: i32) -> bool {
        i32::MIN <= self * rhs <= i32::MAX
    }

    open spec fn spec_norm(self) -> int {
        abs_of(self as int)
    }

    open spec fn norm_defined(self) -> bool {
        self != i32::MIN
    }

    open spec fn spec_normalized(self) -> i32 {
        if self > 0 {
            1
        } else if self < 0 {
            -1i32
        } else {
            0
        }
    }

    open spec fn normalized_defined(self) -> bool {
        true
    }

    open spec fn spec_project(self, rhs: i32) -> i32 {
        if self == 0 {
            0
        } else {
            rhs
        }
    }

    open spec fn project_defined(self, rhs: i32) -> bool {
        true
    }

    open spec fn spec_angle(self, rhs: i32) -> Angle {
        line_angle(self as int, rhs as int)
    }

    open spec fn angle_defined(self, rhs: i32) -> bool {
        true
    }

    proof fn lemma_inner_symmetric(x: i32, y: i32) {
        assert(x * y == y * x) by (nonlinear_arith);
    }

    proof fn lemma_inner_scale(x: i32, y: i32, k: int) {
        assert((x * k) * y == k * (x * y)) by (nonlinear_arith);
    }

    proof fn lemma_inner_zero(y: i32) {
    }

    proof fn lemma_norm(x: i32) {
        assert((-x) * (-x) == x * x) by (nonlinear_arith);
    }

    proof fn lemma_normalized(x: i32) {
    }

    proof fn lemma_project(x: i32, y: i32) {
        assert(y * (x * x) == x * (x * y)) by (nonlinear_arith);
    }

    proof fn lemma_angle(x: i32, y: i32) {
        lemma_line_angle(x as int, y as int);
    }

    fn inner_product(self, rhs: i32) -> (r: i32) {
        self * rhs
    }

    /// The absolute value, taken directly rather than as a square root.
    fn norm(self) -> (r: i32) {
        if self < 0 {
            -self
        } else {
            self
        }
    }

    /// The sign of `self`.
    fn normalized(self) -> (r: i32) {
        if self > 0 {
            1
        } else if self < 0 {
            -1
        } else {
            0
        }
    }

    /// Decided by the zero tests alone, without a product.
    fn orthogonal(self, rhs: i32) -> (r: bool) {
        proof {
            assert(self != 0 && rhs != 0 ==> self * rhs != 0) by (nonlinear_arith);
        }
        self == 0 || rhs == 0
    }

    fn reject(self, rhs: i32) -> (r: i32) {
        if self == 0 {
            rhs
        } else {
            0
        }
    }

    fn project(self, rhs: i32) -> (r: i32) {
        if self == 0 {
            0
        } else {
            rhs
        }
    }

    fn angle(self, rhs: i32) -> (r: Angle) {
        angle_of_signs(sign_i32(self), sign_i32(rhs))
    }
}

/// The sign of `x`.
pub fn sign_i64(x: i64) -> (r: Sign)
    ensures
        r == sign_of(x as int),
{
    if x < 0 {
        Sign::Negative
    } else if x == 0 {
        Sign::Zero
    } else {
        Sign::Positive
    }
}

/// A one-dimensional space over itself: `<x, y> = x * y`.
impl InnerProductSpace<i64> for i64 {
    open spec fn spec_inner(self, rhs: i64) -> int {
        self * rhs
    }

    open spec fn inner_defined(self, rhs: i64) -> bool {
        i64::MIN <= self * rhs <= i64::MAX
    }

    open spec fn spec_norm(self) -> int {
        abs_of(self as int)
    }

    open spec fn norm_defined(self) -> bool {
        self != i64::MIN
    }

    open spec fn spec_normalized(self) -> i64 {
        if self > 0 {
            1
        } else if self < 0 {
            -1i64
        } else {
            0
        }
    }

    open spec fn normalized_defined(self) -> bool {
        true
    }

    open spec fn spec_project(self, rhs: i64) -> i64 {
        if self == 0 {
            0
        } else {
            rhs
        }
    }

    open spec fn project_defined(self, rhs: i64) -> bool {
        true
    }

    open spec fn spec_angle(self, rhs: i64) -> Angle {
        line_angle(self as int, rhs as int)
    }

    open spec fn angle_defined(self, rhs: i64) -> bool {
        true
    }

    proof fn lemma_inner_symmetric(x: i64, y: i64) {
        assert(x * y == y * x) by (nonlinear_arith);
    }

    proof fn lemma_inner_scale(x: i64, y: i64, k: int) {
        assert((x * k) * y == k * (x * y)) by (nonlinear_arith);
    }

    proof fn lemma_inner_zero(y: i64) {
    }

    proof fn lemma_norm(x: i64) {
        assert((-x) * (-x) == x * x) by (nonlinear_arith);
    }

    proof fn lemma_normalized(x: i64) {
    }

    proof fn lemma_project(x: i64, y: i64) {
        assert(y * (x * x) == x * (x * y)) by (nonlinear_arith);
    }

    proof fn lemma_angle(x: i64, y: i64) {
        lemma_line_angle(x as int, y as int);
    }

    fn inner_product(self, rhs: i64) -> (r: i64) {
        self * rhs
    }

    /// The absolute value, taken directly rather than as a square root.
    fn norm(self) -> (r: i64) {
        if self < 0 {
            -self
        } else {
            self
        }
    }

    /// The sign of `self`.
    fn normalized(self) -> (r: i64) {
        if self > 0 {
            1
        } else if self < 0 {
            -1
        } else {
            0
        }
    }

    /// Decided by the zero tests alone, without a product.
    fn orthogonal(self, rhs: i64) -> (r: bool) {
        proof {
            assert(self != 0 && rhs != 0 ==> self * rhs != 0) by (nonlinear_arith);
        }
        self == 0 || rhs == 0
    }

    fn reject(self, rhs: i64) -> (r: i64) {
        if self == 0 {
            rhs
        } else {
            0
        }
    }

    fn project(self, rhs: i64) -> (r: i64) {
        if self == 0 {
            0
        } else {
            rhs
        }
    }

    fn angle(self, rhs: i64) -> (r: Angle) {
        angle_of_signs(sign_i64(self), sign_i64(rhs))
    }
}

///
///A real-valued distance between elements of `X`, written on a type other than
///`X` so that one space may carry many metrics.
///
///A metric satisfies `d(x, x) = 0`, `d(x, y) > 0` for `x != y`, and the
///triangle inequality.
pub trait Metric<X, R: Scalar> {
    /// The distance between `x1` and `x2`.
    spec fn spec_distance(&self, x1: X, x2: X) -> int;

    /// Whether that distance is representable in `R`.
    spec fn distance_defined(&self, x1: X, x2: X) -> bool;

    fn distance(&self, x1: X, x2: X) -> (r: R)
        requires
            self.distance_defined(x1, x2),
        ensures
            r.value() == self.spec_distance(x1, x2),
    ;
}

///
///A real-valued length on a module `X` over `K`, which may vanish on nonzero
///vectors: `|x| >= 0`, `|c x| = |c| |x|`, `|x + y| <= |x| + |y|`.
pub trait Seminorm<K: Scalar, X: RingModule<K>, R: Scalar> {
    /// The length of `x`.
    spec fn spec_norm_of(&self, x: X) -> int;

    spec fn norm_of_defined(&self, x: X) -> bool;

    /// The unit vector in the direction of `x`.
    spec fn spec_normalize(&self, x: X) -> X;

    spec fn normalize_defined(&self, x: X) -> bool;

    /// A vector of nonzero length is its normalization stretched by its
    /// length: the normalization is `x * (1 / |x|)`.
    proof fn lemma_normalize(&self, x: X)
        requires
            self.spec_norm_of(x) != 0,
        ensures
            self.spec_normalize(x).scaled_by(self.spec_norm_of(x)) == x,
    ;

    fn norm(&self, x: X) -> (r: R)
        requires
            self.norm_of_defined(x),
        ensures
            r.value() == self.spec_norm_of(x),
    ;

    /// `x * (1 / |x|)`.
    fn normalize(&self, x: X) -> (r: X)
        requires
            self.normalize_defined(x),
        ensures
            r == self.spec_normalize(x),
    ;
}

///
///A seminorm that vanishes only on the zero vector.
pub trait Norm<K: Scalar, X: RingModule<K>, R: Scalar>: Seminorm<K, X, R> {}

/// A norm together with a metric on the same space.
pub trait NormedMetric<K: Scalar, X: RingModule<K>, R: Scalar>: Norm<K, X, R> + Metric<X, R> {}

impl<
    K: Scalar,
    X: RingModule<K>,
    R: Scalar,
    T: Norm<K, X, R> + Metric<X, R>,
> NormedMetric<K, X, R> for T {}

/// A scalar product `<x, y>` that is linear in its second argument and
/// `sigma`-linear in its first.
pub trait SesquilinearForm<K: Scalar, V> {
    /// The value of `<v1, v2>`.
    spec fn spec_product_of(&self, v1: V, v2: V) -> int;

    spec fn product_of_defined(&self, v1: V, v2: V) -> bool;

    fn product_of(&self, v1: V, v2: V) -> (r: K)
        requires
            self.product_of_defined(v1, v2),
        ensures
            r.value() == self.spec_product_of(v1, v2),
    ;

    /// The involution of the scalars that the first argument goes through.
    fn sigma(&self, x: K) -> (r: K)
        ensures
            r.value() == x.value(),
    ;

    /// The inverse of `sigma`.
    fn sigma_inv(&self, x: K) -> (r: K)
        ensures
            r.value() == x.value(),
    ;
}

/// A sesquilinear form for which `<x, y> = 0` exactly when `<y, x> = 0`.
pub trait ReflexiveForm<K: Scalar, V>: SesquilinearForm<K, V> {
    proof fn lemma_reflexive(&self, x: V, y: V)
        ensures
            (self.spec_product_of(x, y) == 0) == (self.spec_product_of(y, x) == 0),
    ;
}

/// A sesquilinear form with `<x, y> = sigma(<y, x>)`; over real scalars
/// `sigma` is the identity, so `<x, y> = <y, x>`.
pub trait SymSesquilinearForm<K: Scalar, V>: ReflexiveForm<K, V> {
    proof fn lemma_symmetric(&self, x: V, y: V)
        ensures
            self.spec_product_of(x, y) == self.spec_product_of(y, x),
    ;
}

/// A bilinear form between two elements of `V`, carried by a type other than `V`.
pub trait BilinearFormOn<K: Scalar, V>: SesquilinearForm<K, V> {}

/// A symmetric sesquilinear form together with the norm that it induces.
pub trait InnerProduct<K: Scalar, M: RingModule<K>>: SymSesquilinearForm<K, M> + Norm<K, M, K> {}

///
///The metric, norm and form that the inner product of a space gives: for
///finite-dimensional real spaces the Euclidean metric.
#[derive(Clone, Copy, Debug, PartialEq, Eq, Hash, Structural)]
pub struct InnerProductMetric;

impl<R: Scalar, V: InnerProductSpace<R>> Metric<V, R> for InnerProductMetric {
    open spec fn spec_distance(&self, x1: V, x2: V) -> int {
        x1.difference(x2).spec_norm()
    }

    open spec fn distance_defined(&self, x1: V, x2: V) -> bool {
        x1.sub_defined(x2) && x1.difference(x2).norm_defined()
    }

    fn distance(&self, x1: V, x2: V) -> (r: R) {
        x1.dist_euclid(x2)
    }
}

impl<K: Scalar, V: InnerProductSpace<K>> Seminorm<K, V, K> for InnerProductMetric {
    open spec fn spec_norm_of(&self, x: V) -> int {
        x.spec_norm()
    }

    open spec fn norm_of_defined(&self, x: V) -> bool {
        x.norm_defined()
    }

    open spec fn spec_normalize(&self, x: V) -> V {
        x.spec_normalized()
    }

    open spec fn normalize_defined(&self, x: V) -> bool {
        x.normalized_defined()
    }

    proof fn lemma_normalize(&self, x: V) {
        V::lemma_norm(x);
        let n = x.spec_norm();
        assert(n * n != 0) by (nonlinear_arith)
            requires
                n != 0,
        ;
        V::lemma_normalized(x);
    }

    fn norm(&self, x: V) -> (r: K) {
        x.norm()
    }

    fn normalize(&self, x: V) -> (r: V) {
        x.normalized()
    }
}

impl<K: Scalar, V: InnerProductSpace<K>> Norm<K, V, K> for InnerProductMetric {}

impl<K: Scalar, V: InnerProductSpace<K>> SesquilinearForm<K, V> for InnerProductMetric {
    open spec fn spec_product_of(&self, v1: V, v2: V) -> int {
        v1.spec_inner(v2)
    }

    open spec fn product_of_defined(&self, v1: V, v2: V) -> bool {
        v1.inner_defined(v2)
    }

    fn product_of(&self, v1: V, v2: V) -> (r: K) {
        v1.inner_product(v2)
    }

    fn sigma(&self, x: K) -> (r: K) {
        x.conj()
    }

    fn sigma_inv(&self, x: K) -> (r: K) {
        x.conj()
    }
}

impl<K: Scalar, V: InnerProductSpace<K>> ReflexiveForm<K, V> for InnerProductMetric {
    proof fn lemma_reflexive(&self, x: V, y: V) {
        V::lemma_inner_symmetric(x, y);
    }
}

impl<K: Scalar, V: InnerProductSpace<K>> SymSesquilinearForm<K, V> for InnerProductMetric {
    proof fn lemma_symmetric(&self, x: V, y: V) {
        V::lemma_inner_symmetric(x, y);
    }
}

impl<K: Scalar, V: InnerProductSpace<K>> BilinearFormOn<K, V> for InnerProductMetric {}

impl<K: Scalar, V: InnerProductSpace<K>> InnerProduct<K, V> for InnerProductMetric {}

} // verus!
