//! The scalar type of coordinates, velocities and masses.
//!
//! Nothing here fixes a number format. A scalar is any copyable type with the
//! four arithmetic operators; a square root, and a conversion from decimal
//! numerals, are handed to the routines that need them as function values.
//! Contracts speak of two properties of such a type: that its operators
//! accept every pair of operands, and that they are functions of their
//! operands.

use core::ops::{Add, Div, Mul, Sub};
use vstd::prelude::*;
#[allow(unused_imports)]
use vstd::std_specs::ops::{AddSpec, DivSpec, MulSpec, SubSpec};

verus! {

/// A copyable number type closed under `+`, `-`, `*` and `/`.
pub trait Scalar:
    Copy + Add<Output = Self> + Sub<Output = Self> + Mul<Output = Self> + Div<Output = Self>
{
}

impl<T> Scalar for T where
    T: Copy + Add<Output = T> + Sub<Output = T> + Mul<Output = T> + Div<Output = T>
{
}

/// Every operator of `T` may be applied to every pair of operands.
pub open spec fn total_arithmetic<T: Scalar>() -> bool {
    &&& forall|x: T, y: T| #[trigger] x.add_req(y)
    &&& forall|x: T, y: T| #[trigger] x.sub_req(y)
    &&& forall|x: T, y: T| #[trigger] x.mul_req(y)
    &&& forall|x: T, y: T| #[trigger] x.div_req(y)
}

/// Every operator of `T` returns the value that its specification names, so
/// that equal operands always give equal results.
pub open spec fn exact_arithmetic<T: Scalar>() -> bool {
    &&& T::obeys_add_spec()
    &&& T::obeys_sub_spec()
    &&& T::obeys_mul_spec()
    &&& T::obeys_div_spec()
}

/// The square root function may be applied to every scalar.
pub open spec fn total_root<T, F: Fn(T) -> T>(sqrt: &F) -> bool {
    forall|x: T| #[trigger] sqrt.requires((x,))
}

/// The value that `sqrt` returns for `x`, where it returns only one.
pub open spec fn root<T, F: Fn(T) -> T>(sqrt: &F, x: T) -> T {
    choose|r: T| sqrt.ensures((x,), r)
}

/// The square root function returns one value for each argument.
pub open spec fn exact_root<T, F: Fn(T) -> T>(sqrt: &F) -> bool {
    forall|x: T, r: T| #[trigger] sqrt.ensures((x,), r) ==> r == root(sqrt, x)
}

/// A decimal numeral: the first number times ten to the power of the second.
pub type Decimal = (i64, i32);

/// The conversion may be applied to every numeral.
pub open spec fn total_numerals<T, D: Fn(i64, i32) -> T>(decimal: &D) -> bool {
    forall|digits: i64, exponent: i32| #[trigger] decimal.requires((digits, exponent))
}

/// The scalar that `decimal` returns for a numeral, where it returns only
/// one.
pub open spec fn scalar_of<T, D: Fn(i64, i32) -> T>(decimal: &D, numeral: Decimal) -> T {
    choose|r: T| decimal.ensures(numeral, r)
}

/// The conversion returns one scalar for each numeral.
pub open spec fn exact_numerals<T, D: Fn(i64, i32) -> T>(decimal: &D) -> bool {
    forall|numeral: Decimal, r: T| #[trigger]
        decimal.ensures(numeral, r) ==> r == scalar_of(decimal, numeral)
}

/// Multiplication in `T` does not depend on the order of its operands.
pub open spec fn commutative_multiplication<T: Scalar>() -> bool {
    forall|x: T, y: T| #[trigger] x.mul_spec(y) == y.mul_spec(x)
}

/// Multiplication in `T` does not depend on how its operands are grouped.
pub open spec fn associative_multiplication<T: Scalar>() -> bool {
    forall|x: T, y: T, z: T| #[trigger] x.mul_spec(y.mul_spec(z)) == x.mul_spec(y).mul_spec(z)
}

/// `x * x`.
pub open spec fn square<T: Scalar>(x: T) -> T {
    x.mul_spec(x)
}

/// The sum of the squares of three components, added from left to right.
pub open spec fn sum_of_squares<T: Scalar>(a: T, b: T, c: T) -> T {
    square(a).add_spec(square(b)).add_spec(square(c))
}

/// Squares a scalar.
pub fn sqr<T: Scalar>(x: T) -> (r: T)
    requires
        total_arithmetic::<T>(),
    ensures
        exact_arithmetic::<T>() ==> r == square(x),
{
    x * x
}

} // verus!
