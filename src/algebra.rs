//! Scalars and the bilinear and quadratic forms built on them.
use vstd::prelude::*;

verus! {

/// A ring of scalars whose elements stand for exact integers.
///
/// `value` is the mathematical integer that a scalar denotes; every contract of
/// this library speaks of scalars through it.
pub trait Scalar: Sized + Copy {
    spec fn value(self) -> int;

    /// Whether `self` is the additive identity.
    fn is_zero(self) -> (r: bool)
        ensures
            r == (self.value() == 0),
    ;

    /// The ring's involution. Integer scalars are real, so it is the identity.
    fn conj(self) -> (r: Self)
        ensures
            r == self,
    ;
}

impl Scalar for i32 {
    open spec fn value(self) -> int {
        self as int
    }

    fn is_zero(self) -> (r: bool) {
        self == 0
    }

    fn conj(self) -> (r: i32) {
        self
    }
}

impl Scalar for i64 {
    open spec fn value(self) -> int {
        self as int
    }

    fn is_zero(self) -> (r: bool) {
        self == 0
    }

    fn conj(self) -> (r: i64) {
        self
    }
}

/// A bilinear scalar product `B(x, y)` into the scalars `K`.
///
/// `B` is linear in each operand. Commutativity is not part of this capability:
/// a form that has it says so by also being a [`SymmetricForm`].
pub trait BilinearForm<K: Scalar>: Sized + Copy {
    /// The value of `B(self, rhs)`.
    spec fn spec_dot(self, rhs: Self) -> int;

    /// Whether `B(self, rhs)` is representable in `K`.
    spec fn dot_defined(self, rhs: Self) -> bool;

    fn dot(self, rhs: Self) -> (r: K)
        requires
            self.dot_defined(rhs),
        ensures
            r.value() == self.spec_dot(rhs),
    ;
}

/// A bilinear form with `B(x, y) == B(y, x)`.
pub trait SymmetricForm<K: Scalar>: BilinearForm<K> {
    proof fn lemma_dot_symmetric(x: Self, y: Self)
        ensures
            x.spec_dot(y) == y.spec_dot(x),
    ;
}

/// A bilinear form documented to satisfy `B(x, y) == -B(y, x)`.
pub trait AlternatingForm<K: Scalar>: BilinearForm<K> {}

/// A quadratic form `q(x)` into the scalars `K`.
///
/// A bilinear form gives one by `q(x) = B(x, x)`; a type supplies it on its own.
pub trait QuadradicForm<K: Scalar>: Sized + Copy {
    /// The value of `q(self)`.
    spec fn spec_q_form(self) -> int;

    /// Whether `q(self)` is representable in `K`.
    spec fn q_form_defined(self) -> bool;

    fn q_form(self) -> (r: K)
        requires
            self.q_form_defined(),
        ensures
            r.value() == self.spec_q_form(),
    ;
}

impl BilinearForm<i32> for i32 {
    open spec fn spec_dot(self, rhs: i32) -> int {
        self * rhs
    }

    open spec fn dot_defined(self, rhs: i32) -> bool {
        i32::MIN <= self * rhs <= i32::MAX
    }

    fn dot(self, rhs: i32) -> (r: i32) {
        self * rhs
    }
}

impl SymmetricForm<i32> for i32 {
    proof fn lemma_dot_symmetric(x: i32, y: i32) {
        assert(x * y == y * x) by (nonlinear_arith);
    }
}

impl QuadradicForm<i32> for i32 {
    open spec fn spec_q_form(self) -> int {
        self * self
    }

    open spec fn q_form_defined(self) -> bool {
        self * self <= i32::MAX
    }

    fn q_form(self) -> (r: i32) {
        proof {
            assert(self * self >= 0) by (nonlinear_arith);
        }
        self * self
    }
}

impl BilinearForm<i64> for i64 {
    open spec fn spec_dot(self, rhs: i64) -> int {
        self * rhs
    }

    open spec fn dot_defined(self, rhs: i64) -> bool {
        i64::MIN <= self * rhs <= i64::MAX
    }

    fn dot(self, rhs: i64) -> (r: i64) {
        self * rhs
    }
}

impl SymmetricForm<i64> for i64 {
    proof fn lemma_dot_symmetric(x: i64, y: i64) {
        assert(x * y == y * x) by (nonlinear_arith);
    }
}

impl QuadradicForm<i64> for i64 {
    open spec fn spec_q_form(self) -> int {
        self * self
    }

    open spec fn q_form_defined(self) -> bool {
        self * self <= i64::MAX
    }

    fn q_form(self) -> (r: i64) {
        proof {
            assert(self * self >= 0) by (nonlinear_arith);
        }
        self * self
    }
}

/// An abelian group with a distributive scalar multiplication by `K`.
///
/// Each operation comes with the predicate under which its result is
/// representable; the group law that subtraction undoes addition is a proof
/// obligation of every conforming type.
pub trait RingModule<K: Scalar>: Sized + Copy {
    spec fn sum_of(self, rhs: Self) -> Self;

    spec fn difference(self, rhs: Self) -> Self;

    /// `self` multiplied by the scalar value `k`.
    spec fn scaled_by(self, k: int) -> Self;

    spec fn add_defined(self, rhs: Self) -> bool;

    spec fn sub_defined(self, rhs: Self) -> bool;

    spec fn scale_defined(self, k: int) -> bool;

    /// The additive identity.
    spec fn zero_element() -> Self;

    /// Subtracting an element from itself gives the identity.
    proof fn lemma_sub_self(x: Self)
        requires
            x.sub_defined(x),
        ensures
            x.difference(x) == Self::zero_element(),
    ;

    /// Swapping the operands of a difference negates it.
    proof fn lemma_sub_swap(x: Self, y: Self)
        requires
            x.sub_defined(y),
            y.sub_defined(x),
        ensures
            x.difference(y).scale_defined(-1),
            y.difference(x) == x.difference(y).scaled_by(-1),
    ;

    /// Adding back what was subtracted gives the original element.
    proof fn lemma_add_sub(x: Self, y: Self)
        requires
            y.sub_defined(x),
        ensures
            x.sum_of(y.difference(x)) == y,
    ;

    fn plus(self, rhs: Self) -> (r: Self)
        requires
            self.add_defined(rhs),
        ensures
            r == self.sum_of(rhs),
    ;

    fn minus(self, rhs: Self) -> (r: Self)
        requires
            self.sub_defined(rhs),
        ensures
            r == self.difference(rhs),
    ;

    fn scale(self, k: K) -> (r: Self)
        requires
            self.scale_defined(k.value()),
        ensures
            r == self.scaled_by(k.value()),
    ;
}

impl RingModule<i32> for i32 {
    open spec fn sum_of(self, rhs: i32) -> i32 {
        (self + rhs) as i32
    }

    open spec fn difference(self, rhs: i32) -> i32 {
        (self - rhs) as i32
    }

    open spec fn scaled_by(self, k: int) -> i32 {
        (self * k) as i32
    }

    open spec fn add_defined(self, rhs: i32) -> bool {
        i32::MIN <= self + rhs <= i32::MAX
    }

    open spec fn sub_defined(self, rhs: i32) -> bool {
        i32::MIN <= self - rhs <= i32::MAX
    }

    open spec fn scale_defined(self, k: int) -> bool {
        i32::MIN <= self * k <= i32::MAX
    }

    open spec fn zero_element() -> i32 {
        0
    }

    proof fn lemma_sub_self(x: i32) {
    }

    proof fn lemma_sub_swap(x: i32, y: i32) {
    }

    proof fn lemma_add_sub(x: i32, y: i32) {
    }

    fn plus(self, rhs: i32) -> (r: i32) {
        self + rhs
    }

    fn minus(self, rhs: i32) -> (r: i32) {
        self - rhs
    }

    fn scale(self, k: i32) -> (r: i32) {
        self * k
    }
}

impl RingModule<i64> for i64 {
    open spec fn sum_of(self, rhs: i64) -> i64 {
        (self + rhs) as i64
    }

    open spec fn difference(self, rhs: i64) -> i64 {
        (self - rhs) as i64
    }

    open spec fn scaled_by(self, k: int) -> i64 {
        (self * k) as i64
    }

    open spec fn add_defined(self, rhs: i64) -> bool {
        i64::MIN <= self + rhs <= i64::MAX
    }

    open spec fn sub_defined(self, rhs: i64) -> bool {
        i64::MIN <= self - rhs <= i64::MAX
    }

    open spec fn scale_defined(self, k: int) -> bool {
        i64::MIN <= self * k <= i64::MAX
    }

    open spec fn zero_element() -> i64 {
        0
    }

    proof fn lemma_sub_self(x: i64) {
    }

    proof fn lemma_sub_swap(x: i64, y: i64) {
    }

    proof fn lemma_add_sub(x: i64, y: i64) {
    }

    fn plus(self, rhs: i64) -> (r: i64) {
        self + rhs
    }

    fn minus(self, rhs: i64) -> (r: i64) {
        self - rhs
    }

    fn scale(self, k: i64) -> (r: i64) {
        self * k
    }
}

/// Indexed coordinates in a basis, and the basis elements themselves.
pub trait ConvergentBasis<K: Scalar>: Sized {
    /// The coordinate of `self` at index `i`.
    spec fn spec_coordinate(self, i: int) -> int;

    /// Whether `i` indexes a basis element.
    spec fn has_basis(i: int) -> bool;

    /// The `i`-th basis element: coordinate one at `i` and zero elsewhere.
    fn basis(i: usize) -> (r: Self)
        requires
            Self::has_basis(i as int),
        ensures
            forall|j: int|
                #![trigger r.spec_coordinate(j)]
                Self::has_basis(j) ==> r.spec_coordinate(j) == (if j == i as int {
                    1int
                } else {
                    0int
                }),
    ;

    fn coordinate(&self, i: usize) -> (r: K)
        requires
            Self::has_basis(i as int),
        ensures
            r.value() == self.spec_coordinate(i as int),
    ;
}

/// A basis whose coordinates can be written, and that counts its elements.
pub trait CountableBasis<K: Scalar>: ConvergentBasis<K> {
    /// The number of populated basis elements.
    spec fn spec_elements(self) -> int;

    /// Sets the coordinate at `i` to `k` and leaves the others as they were.
    fn set_coordinate(&mut self, i: usize, k: K)
        requires
            Self::has_basis(i as int),
        ensures
            final(self).spec_coordinate(i as int) == k.value(),
            forall|j: int|
                #![trigger final(self).spec_coordinate(j)]
                Self::has_basis(j) && j != i as int ==> final(self).spec_coordinate(j)
                    == old(self).spec_coordinate(j),
    ;

    fn elements(&self) -> (r: usize)
        ensures
            r as int == self.spec_elements(),
    ;
}

/// A basis of a fixed, finite dimension.
pub trait FiniteBasis<K: Scalar>: CountableBasis<K> {
    spec fn spec_dimensions() -> int;

    /// The basis elements are indexed by `0 .. dimensions`.
    proof fn lemma_dimensions(i: int)
        ensures
            Self::has_basis(i) <==> 0 <= i < Self::spec_dimensions(),
    ;

    fn dimensions() -> (r: usize)
        ensures
            r as int == Self::spec_dimensions(),
    ;
}

/// A ring module with a countable basis.
pub trait CountableModule<K: Scalar>: RingModule<K> + CountableBasis<K> {}

impl<K: Scalar, T: RingModule<K> + CountableBasis<K>> CountableModule<K> for T {}

/// A ring module of finite dimension.
pub trait FiniteModule<K: Scalar>: RingModule<K> + FiniteBasis<K> {}

impl<K: Scalar, T: RingModule<K> + FiniteBasis<K>> FiniteModule<K> for T {}

/// A ring module with a quadratic form.
pub trait QuadradicModule<K: Scalar>: RingModule<K> + QuadradicForm<K> {}

impl<K: Scalar, T: RingModule<K> + QuadradicForm<K>> QuadradicModule<K> for T {}

/// A ring module with a quadratic form and a bilinear form into its scalars.
pub trait BilinearModule<K: Scalar>: QuadradicModule<K> + BilinearForm<K> {}

impl<K: Scalar, T: QuadradicModule<K> + BilinearForm<K>> BilinearModule<K> for T {}

/// A number is its own single coordinate.
impl ConvergentBasis<i32> for i32 {
    open spec fn spec_coordinate(self, i: int) -> int {
        self as int
    }

    open spec fn has_basis(i: int) -> bool {
        i == 0
    }

    fn basis(i: usize) -> (r: i32) {
        1
    }

    fn coordinate(&self, i: usize) -> (r: i32) {
        *self
    }
}

impl CountableBasis<i32> for i32 {
    open spec fn spec_elements(self) -> int {
        1
    }

    fn set_coordinate(&mut self, i: usize, k: i32) {
        *self = k;
    }

    fn elements(&self) -> (r: usize) {
        1
    }
}

impl FiniteBasis<i32> for i32 {
    open spec fn spec_dimensions() -> int {
        1
    }

    proof fn lemma_dimensions(i: int) {
    }

    fn dimensions() -> (r: usize) {
        1
    }
}

/// A number is its own single coordinate.
impl ConvergentBasis<i64> for i64 {
    open spec fn spec_coordinate(self, i: int) -> int {
        self as int
    }

    open spec fn has_basis(i: int) -> bool {
        i == 0
    }

    fn basis(i: usize) -> (r: i64) {
        1
    }

    fn coordinate(&self, i: usize) -> (r: i64) {
        *self
    }
}

impl CountableBasis<i64> for i64 {
    open spec fn spec_elements(self) -> int {
        1
    }

    fn set_coordinate(&mut self, i: usize, k: i64) {
        *self = k;
    }

    fn elements(&self) -> (r: usize) {
        1
    }
}

impl FiniteBasis<i64> for i64 {
    open spec fn spec_dimensions() -> int {
        1
    }

    proof fn lemma_dimensions(i: int) {
    }

    fn dimensions() -> (r: usize) {
        1
    }
}

} // verus!
