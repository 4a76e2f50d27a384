//! Capability traits for the scalar types a vector can be instantiated with.
//!
//! `Scalar` describes a bounded-range integer type together with the four
//! arithmetic operations every such type offers; `ScalarNeg` adds unary
//! negation, which only the signed types have. A vector operation is
//! available exactly when its scalar satisfies the trait it needs.

use vstd::prelude::*;

verus! {

/// Rust's truncating integer division (rounds toward zero), defined over
/// the mathematical integers. It differs from the Euclidean `/` of
/// specifications only when exactly one operand is negative.
pub open spec fn trunc_div(a: int, b: int) -> int
    recommends
        b != 0,
{
    if a == 0 {
        0
    } else if a > 0 && b > 0 {
        a / b
    } else if a < 0 && b < 0 {
        (a * -1) / (b * -1)
    } else if a < 0 {
        ((a * -1) / b) * -1
    } else {
        (a / (b * -1)) * -1
    }
}

/// A numeric type that represents a contiguous range of the mathematical
/// integers and carries addition, subtraction, multiplication and
/// (truncating) division on that range.
///
/// `as_int` maps a value to the integer it stands for, `of_int` maps an
/// integer back; the two lemmas make the pair a bijection between the type
/// and the integers satisfying `in_range`. Each arithmetic method demands
/// that its exact mathematical result stay in range, and promises exactly
/// that result: overflow never wraps silently and division by zero is
/// excluded, so these operations cannot fault.
pub trait Scalar: Sized + Copy {
    /// The mathematical integer this value stands for.
    spec fn as_int(self) -> int;

    /// Whether the integer `v` is representable in this type.
    spec fn in_range(v: int) -> bool;

    /// The value standing for the integer `v` (meaningful when `in_range(v)`).
    spec fn of_int(v: int) -> Self;

    /// `of_int` inverts `as_int`: a value is determined by the integer it
    /// stands for.
    proof fn lemma_as_int_of_int(x: Self)
        ensures
            Self::of_int(x.as_int()) == x,
            Self::in_range(x.as_int()),
    ;

    /// `as_int` inverts `of_int` on the representable range.
    proof fn lemma_of_int_as_int(v: int)
        requires
            Self::in_range(v),
        ensures
            Self::of_int(v).as_int() == v,
    ;

    /// Addition, exact on the representable range.
    fn sc_add(self, rhs: Self) -> (r: Self)
        requires
            Self::in_range(self.as_int() + rhs.as_int()),
        ensures
            r == Self::of_int(self.as_int() + rhs.as_int()),
    ;

    /// Subtraction, exact on the representable range.
    fn sc_sub(self, rhs: Self) -> (r: Self)
        requires
            Self::in_range(self.as_int() - rhs.as_int()),
        ensures
            r == Self::of_int(self.as_int() - rhs.as_int()),
    ;

    /// Multiplication, exact on the representable range.
    fn sc_mul(self, rhs: Self) -> (r: Self)
        requires
            Self::in_range(self.as_int() * rhs.as_int()),
        ensures
            r == Self::of_int(self.as_int() * rhs.as_int()),
    ;

    /// Division, truncating toward zero as the native `/` of every Rust
    /// integer type does. The divisor must be nonzero.
    fn sc_div(self, rhs: Self) -> (r: Self)
        requires
            rhs.as_int() != 0,
            Self::in_range(trunc_div(self.as_int(), rhs.as_int())),
        ensures
            r == Self::of_int(trunc_div(self.as_int(), rhs.as_int())),
    ;
}

/// A scalar that also supports unary negation: the signed types. Unsigned
/// types do not implement this, so vector negation is simply absent there.
pub trait ScalarNeg: Scalar {
    /// Negation, exact when the negated value is representable.
    fn sc_neg(self) -> (r: Self)
        requires
            Self::in_range(-self.as_int()),
        ensures
            r == Self::of_int(-self.as_int()),
    ;
}

impl Scalar for i64 {
    open spec fn as_int(self) -> int {
        self as int
    }

    open spec fn in_range(v: int) -> bool {
        i64::MIN <= v <= i64::MAX
    }

    open spec fn of_int(v: int) -> Self {
        v as i64
    }

    proof fn lemma_as_int_of_int(x: Self) {
    }

    proof fn lemma_of_int_as_int(v: int) {
    }

    fn sc_add(self, rhs: Self) -> (r: Self) {
        self + rhs
    }

    fn sc_sub(self, rhs: Self) -> (r: Self) {
        self - rhs
    }

    fn sc_mul(self, rhs: Self) -> (r: Self) {
        self * rhs
    }

    fn sc_div(self, rhs: Self) -> (r: Self) {
        self.checked_div(rhs).unwrap()
    }
}

impl ScalarNeg for i64 {
    fn sc_neg(self) -> (r: Self) {
        -self
    }
}

impl Scalar for i32 {
    open spec fn as_int(self) -> int {
        self as int
    }

    open spec fn in_range(v: int) -> bool {
        i32::MIN <= v <= i32::MAX
    }

    open spec fn of_int(v: int) -> Self {
        v as i32
    }

    proof fn lemma_as_int_of_int(x: Self) {
    }

    proof fn lemma_of_int_as_int(v: int) {
    }

    fn sc_add(self, rhs: Self) -> (r: Self) {
        self + rhs
    }

    fn sc_sub(self, rhs: Self) -> (r: Self) {
        self - rhs
    }

    fn sc_mul(self, rhs: Self) -> (r: Self) {
        self * rhs
    }

    fn sc_div(self, rhs: Self) -> (r: Self) {
        self.checked_div(rhs).unwrap()
    }
}

impl ScalarNeg for i32 {
    fn sc_neg(self) -> (r: Self) {
        -self
    }
}

impl Scalar for u64 {
    open spec fn as_int(self) -> int {
        self as int
    }

    open spec fn in_range(v: int) -> bool {
        0 <= v <= u64::MAX
    }

    open spec fn of_int(v: int) -> Self {
        v as u64
    }

    proof fn lemma_as_int_of_int(x: Self) {
    }

    proof fn lemma_of_int_as_int(v: int) {
    }

    fn sc_add(self, rhs: Self) -> (r: Self) {
        self + rhs
    }

    fn sc_sub(self, rhs: Self) -> (r: Self) {
        self - rhs
    }

    fn sc_mul(self, rhs: Self) -> (r: Self) {
        self * rhs
    }

    fn sc_div(self, rhs: Self) -> (r: Self) {
        self / rhs
    }
}

impl Scalar for u32 {
    open spec fn as_int(self) -> int {
        self as int
    }

    open spec fn in_range(v: int) -> bool {
        0 <= v <= u32::MAX
    }

    open spec fn of_int(v: int) -> Self {
        v as u32
    }

    proof fn lemma_as_int_of_int(x: Self) {
    }

    proof fn lemma_of_int_as_int(v: int) {
    }

    fn sc_add(self, rhs: Self) -> (r: Self) {
        self + rhs
    }

    fn sc_sub(self, rhs: Self) -> (r: Self) {
        self - rhs
    }

    fn sc_mul(self, rhs: Self) -> (r: Self) {
        self * rhs
    }

    fn sc_div(self, rhs: Self) -> (r: Self) {
        self / rhs
    }
}

} // verus!
