//! The two-dimensional vector type and its operations.

use vstd::prelude::*;
use crate::scalar::Scalar;
use crate::scalar::ScalarNeg;
use crate::scalar::trunc_div;

verus! {

/// A 2D vector (in the mathematical sense) over an arbitrary scalar type.
///
/// Equality and ordering are the derived componentwise ones, so they follow
/// the scalar's own semantics (for floating-point scalars a NaN component
/// makes two vectors incomparable, as IEEE 754 asks). Construction puts no
/// constraint on the components; the arithmetic operations are provided for
/// any scalar implementing the capability traits of the `scalar` module.
#[derive(Copy, Clone, Debug, PartialEq, PartialOrd, Default)]
pub struct Vec2D<T> {
    pub x: T,
    pub y: T,
}

impl<T> Vec2D<T> {
    /// Creates a new `Vec2D` by assigning the parameters to the x and y
    /// members respectively. Total: no validation, no failure mode.
    pub fn new(x: T, y: T) -> (r: Vec2D<T>)
        ensures
            r.x == x,
            r.y == y,
    {
        Vec2D { x, y }
    }
}

impl<T: Scalar> Vec2D<T> {
    /// The mathematical integer the x component stands for.
    pub open spec fn xi(self) -> int {
        self.x.as_int()
    }

    /// The mathematical integer the y component stands for.
    pub open spec fn yi(self) -> int {
        self.y.as_int()
    }

    /// The vector standing for a pair of integers.
    pub open spec fn of_ints(x: int, y: int) -> Vec2D<T> {
        Vec2D { x: T::of_int(x), y: T::of_int(y) }
    }

    /// The zero vector.
    pub open spec fn spec_zero() -> Vec2D<T> {
        Self::of_ints(0, 0)
    }

    /// Whether the componentwise sum of `a` and `b` is representable.
    pub open spec fn can_add(a: Vec2D<T>, b: Vec2D<T>) -> bool {
        T::in_range(a.xi() + b.xi()) && T::in_range(a.yi() + b.yi())
    }

    /// The componentwise sum.
    pub open spec fn spec_add(a: Vec2D<T>, b: Vec2D<T>) -> Vec2D<T> {
        Self::of_ints(a.xi() + b.xi(), a.yi() + b.yi())
    }

    /// Whether the componentwise difference of `a` and `b` is representable.
    pub open spec fn can_sub(a: Vec2D<T>, b: Vec2D<T>) -> bool {
        T::in_range(a.xi() - b.xi()) && T::in_range(a.yi() - b.yi())
    }

    /// The componentwise difference.
    pub open spec fn spec_sub(a: Vec2D<T>, b: Vec2D<T>) -> Vec2D<T> {
        Self::of_ints(a.xi() - b.xi(), a.yi() - b.yi())
    }

    /// Whether both components of `a` scaled by `s` are representable.
    pub open spec fn can_mul(a: Vec2D<T>, s: T) -> bool {
        T::in_range(a.xi() * s.as_int()) && T::in_range(a.yi() * s.as_int())
    }

    /// The vector scaled componentwise by `s`.
    pub open spec fn spec_mul(a: Vec2D<T>, s: T) -> Vec2D<T> {
        Self::of_ints(a.xi() * s.as_int(), a.yi() * s.as_int())
    }

    /// Whether dividing both components by `s` is defined and representable.
    pub open spec fn can_div(a: Vec2D<T>, s: T) -> bool {
        s.as_int() != 0 && T::in_range(trunc_div(a.xi(), s.as_int())) && T::in_range(
            trunc_div(a.yi(), s.as_int()),
        )
    }

    /// The vector divided componentwise by `s`, truncating as the scalar's
    /// native division does.
    pub open spec fn spec_div(a: Vec2D<T>, s: T) -> Vec2D<T> {
        Self::of_ints(trunc_div(a.xi(), s.as_int()), trunc_div(a.yi(), s.as_int()))
    }

    /// The dot product of `a` and `b` as a mathematical integer.
    pub open spec fn spec_dot(a: Vec2D<T>, b: Vec2D<T>) -> int {
        a.xi() * b.xi() + a.yi() * b.yi()
    }

    /// Whether the dot product of `a` and `b` is representable, each
    /// intermediate product included (the sum is formed in the scalar type,
    /// so the partial products must fit too).
    pub open spec fn can_dot(a: Vec2D<T>, b: Vec2D<T>) -> bool {
        T::in_range(a.xi() * b.xi()) && T::in_range(a.yi() * b.yi()) && T::in_range(
            Self::spec_dot(a, b),
        )
    }

    /// Adds two `Vec2D` together by summing their members.
    pub fn add(self, rhs: Vec2D<T>) -> (r: Vec2D<T>)
        requires
            Self::can_add(self, rhs),
        ensures
            r == Self::spec_add(self, rhs),
    {
        Vec2D { x: self.x.sc_add(rhs.x), y: self.y.sc_add(rhs.y) }
    }

    /// Adds two `Vec2D` together and stores the result in the first;
    /// the result is exactly the one `add` returns.
    pub fn add_assign(&mut self, rhs: Vec2D<T>)
        requires
            Self::can_add(*old(self), rhs),
        ensures
            *final(self) == Self::spec_add(*old(self), rhs),
    {
        self.x = self.x.sc_add(rhs.x);
        self.y = self.y.sc_add(rhs.y);
    }

    /// Subtracts one `Vec2D` from another by subtracting their members.
    pub fn sub(self, rhs: Vec2D<T>) -> (r: Vec2D<T>)
        requires
            Self::can_sub(self, rhs),
        ensures
            r == Self::spec_sub(self, rhs),
    {
        Vec2D { x: self.x.sc_sub(rhs.x), y: self.y.sc_sub(rhs.y) }
    }

    /// Subtracts one `Vec2D` from another and stores the result in the
    /// first; the result is exactly the one `sub` returns.
    pub fn sub_assign(&mut self, rhs: Vec2D<T>)
        requires
            Self::can_sub(*old(self), rhs),
        ensures
            *final(self) == Self::spec_sub(*old(self), rhs),
    {
        self.x = self.x.sc_sub(rhs.x);
        self.y = self.y.sc_sub(rhs.y);
    }

    /// Multiplies a `Vec2D` by its scalar, multiplying each member by it.
    pub fn mul(self, rhs: T) -> (r: Vec2D<T>)
        requires
            Self::can_mul(self, rhs),
        ensures
            r == Self::spec_mul(self, rhs),
    {
        Vec2D { x: self.x.sc_mul(rhs), y: self.y.sc_mul(rhs) }
    }

    /// Multiplies a `Vec2D` by its scalar and stores the result in the
    /// vector; the result is exactly the one `mul` returns.
    pub fn mul_assign(&mut self, rhs: T)
        requires
            Self::can_mul(*old(self), rhs),
        ensures
            *final(self) == Self::spec_mul(*old(self), rhs),
    {
        self.x = self.x.sc_mul(rhs);
        self.y = self.y.sc_mul(rhs);
    }

    /// Divides a `Vec2D` by its scalar, dividing each member by it.
    /// Truncates whenever the underlying scalar's division truncates.
    pub fn div(self, rhs: T) -> (r: Vec2D<T>)
        requires
            Self::can_div(self, rhs),
        ensures
            r == Self::spec_div(self, rhs),
    {
        Vec2D { x: self.x.sc_div(rhs), y: self.y.sc_div(rhs) }
    }

    /// Divides a `Vec2D` by its scalar and stores the result in the vector;
    /// the result is exactly the one `div` returns.
    pub fn div_assign(&mut self, rhs: T)
        requires
            Self::can_div(*old(self), rhs),
        ensures
            *final(self) == Self::spec_div(*old(self), rhs),
    {
        self.x = self.x.sc_div(rhs);
        self.y = self.y.sc_div(rhs);
    }

    /// Dot product, AKA scalar product: the sum of the products of each
    /// dimension, in the scalar type itself with no promotion.
    pub fn dot_product(a: Vec2D<T>, b: Vec2D<T>) -> (r: T)
        requires
            Self::can_dot(a, b),
        ensures
            r == T::of_int(Self::spec_dot(a, b)),
            r.as_int() == Self::spec_dot(a, b),
    {
        proof {
            T::lemma_of_int_as_int(a.xi() * b.xi());
            T::lemma_of_int_as_int(a.yi() * b.yi());
            T::lemma_of_int_as_int(Self::spec_dot(a, b));
        }
        a.x.sc_mul(b.x).sc_add(a.y.sc_mul(b.y))
    }
}

impl<T: ScalarNeg> Vec2D<T> {
    /// Whether both negated components are representable.
    pub open spec fn can_neg(a: Vec2D<T>) -> bool {
        T::in_range(-a.xi()) && T::in_range(-a.yi())
    }

    /// The componentwise negation.
    pub open spec fn spec_neg(a: Vec2D<T>) -> Vec2D<T> {
        Self::of_ints(-a.xi(), -a.yi())
    }

    /// Negates a `Vec2D` by negating each member.
    pub fn neg(self) -> (r: Vec2D<T>)
        requires
            Self::can_neg(self),
        ensures
            r == Self::spec_neg(self),
    {
        Vec2D { x: self.x.sc_neg(), y: self.y.sc_neg() }
    }
}

/// Vector addition is commutative: `a + b == b + a` whenever the sum is
/// representable either way round.
pub proof fn lemma_add_commutes<T: Scalar>(a: Vec2D<T>, b: Vec2D<T>)
    ensures
        Vec2D::spec_add(a, b) == Vec2D::spec_add(b, a),
{
}

/// A vector plus its negation is the zero vector, whenever the negation is
/// representable.
pub proof fn lemma_add_neg_is_zero<T: ScalarNeg>(a: Vec2D<T>)
    requires
        Vec2D::can_neg(a),
    ensures
        Vec2D::spec_add(a, Vec2D::spec_neg(a)) == Vec2D::<T>::spec_zero(),
{
    T::lemma_of_int_as_int(-a.xi());
    T::lemma_of_int_as_int(-a.yi());
}

/// A vector minus itself is the zero vector.
pub proof fn lemma_sub_self_is_zero<T: Scalar>(a: Vec2D<T>)
    ensures
        Vec2D::spec_sub(a, a) == Vec2D::<T>::spec_zero(),
{
}

/// Scalar multiplication distributes over vector addition:
/// `(a + b) * s == a * s + b * s`, whenever the sum and both scaled vectors
/// are representable.
pub proof fn lemma_mul_distributes_over_add<T: Scalar>(a: Vec2D<T>, b: Vec2D<T>, s: T)
    requires
        Vec2D::can_add(a, b),
        Vec2D::can_mul(a, s),
        Vec2D::can_mul(b, s),
    ensures
        Vec2D::spec_mul(Vec2D::spec_add(a, b), s) == Vec2D::spec_add(
            Vec2D::spec_mul(a, s),
            Vec2D::spec_mul(b, s),
        ),
{
    T::lemma_of_int_as_int(a.xi() + b.xi());
    T::lemma_of_int_as_int(a.yi() + b.yi());
    T::lemma_of_int_as_int(a.xi() * s.as_int());
    T::lemma_of_int_as_int(a.yi() * s.as_int());
    T::lemma_of_int_as_int(b.xi() * s.as_int());
    T::lemma_of_int_as_int(b.yi() * s.as_int());
    assert((a.xi() + b.xi()) * s.as_int() == a.xi() * s.as_int() + b.xi() * s.as_int())
        by (nonlinear_arith);
    assert((a.yi() + b.yi()) * s.as_int() == a.yi() * s.as_int() + b.yi() * s.as_int())
        by (nonlinear_arith);
}

/// The dot product is symmetric: `dot(a, b) == dot(b, a)`.
pub proof fn lemma_dot_commutes<T: Scalar>(a: Vec2D<T>, b: Vec2D<T>)
    ensures
        Vec2D::spec_dot(a, b) == Vec2D::spec_dot(b, a),
{
}

/// The dot product is additive in its first argument:
/// `dot(a + b, c) == dot(a, c) + dot(b, c)`, whenever the sum `a + b` is
/// representable.
pub proof fn lemma_dot_distributes_over_add<T: Scalar>(a: Vec2D<T>, b: Vec2D<T>, c: Vec2D<T>)
    requires
        Vec2D::can_add(a, b),
    ensures
        Vec2D::spec_dot(Vec2D::spec_add(a, b), c) == Vec2D::spec_dot(a, c) + Vec2D::spec_dot(
            b,
            c,
        ),
{
    T::lemma_of_int_as_int(a.xi() + b.xi());
    T::lemma_of_int_as_int(a.yi() + b.yi());
    assert((a.xi() + b.xi()) * c.xi() == a.xi() * c.xi() + b.xi() * c.xi()) by (nonlinear_arith);
    assert((a.yi() + b.yi()) * c.yi() == a.yi() * c.yi() + b.yi() * c.yi()) by (nonlinear_arith);
}

} // verus!
