//! The number type that the geometry computes with.

use vstd::prelude::*;

verus! {

/// A number type with total arithmetic.
///
/// Every operation returns a value for every argument, and that value
/// depends on the arguments alone: the `_spec` function beside each
/// operation is its model, and the operation computes exactly that. What
/// the operations mean is up to the implementation, be it whole numbers or
/// rounded reals. The trait promises no algebraic law: a law belongs to an
/// implementation and is proved of it.
pub trait Scalar: Copy {
    /// The number that stands for the integer `v`.
    spec fn from_u16_spec(v: u16) -> Self;

    fn from_u16(v: u16) -> (r: Self)
        ensures
            r == Self::from_u16_spec(v),
    ;

    /// `self` as a `u16`: without its fraction, and limited to the range of
    /// `u16`.
    spec fn to_u16_spec(self) -> u16;

    fn to_u16(self) -> (r: u16)
        ensures
            r == self.to_u16_spec(),
    ;

    /// `self` as a `u8`: without its fraction, and limited to the range of
    /// `u8`.
    spec fn to_u8_spec(self) -> u8;

    fn to_u8(self) -> (r: u8)
        ensures
            r == self.to_u8_spec(),
    ;

    /// The smallest difference that the type treats as more than nothing.
    spec fn epsilon_spec() -> Self;

    fn epsilon() -> (r: Self)
        ensures
            r == Self::epsilon_spec(),
    ;

    /// The sum.
    spec fn add_spec(self, rhs: Self) -> Self;

    fn add(self, rhs: Self) -> (r: Self)
        ensures
            r == self.add_spec(rhs),
    ;

    /// The difference.
    spec fn sub_spec(self, rhs: Self) -> Self;

    fn sub(self, rhs: Self) -> (r: Self)
        ensures
            r == self.sub_spec(rhs),
    ;

    /// The product.
    spec fn mul_spec(self, rhs: Self) -> Self;

    fn mul(self, rhs: Self) -> (r: Self)
        ensures
            r == self.mul_spec(rhs),
    ;

    /// The quotient. What a division by zero gives is up to the type.
    spec fn div_spec(self, rhs: Self) -> Self;

    fn div(self, rhs: Self) -> (r: Self)
        ensures
            r == self.div_spec(rhs),
    ;

    /// The square root.
    spec fn sqrt_spec(self) -> Self;

    fn sqrt(self) -> (r: Self)
        ensures
            r == self.sqrt_spec(),
    ;

    /// The sine of an angle given in degrees.
    spec fn sin_degrees_spec(self) -> Self;

    fn sin_degrees(self) -> (r: Self)
        ensures
            r == self.sin_degrees_spec(),
    ;

    /// The cosine of an angle given in degrees.
    spec fn cos_degrees_spec(self) -> Self;

    fn cos_degrees(self) -> (r: Self)
        ensures
            r == self.cos_degrees_spec(),
    ;

    /// Strictly below.
    spec fn less_spec(self, rhs: Self) -> bool;

    fn less(self, rhs: Self) -> (r: bool)
        ensures
            r == self.less_spec(rhs),
    ;

    /// Below or equal.
    spec fn less_eq_spec(self, rhs: Self) -> bool;

    fn less_eq(self, rhs: Self) -> (r: bool)
        ensures
            r == self.less_eq_spec(rhs),
    ;

    /// The smaller of two values.
    spec fn lesser_spec(self, rhs: Self) -> Self;

    fn lesser(self, rhs: Self) -> (r: Self)
        ensures
            r == self.lesser_spec(rhs),
    ;

    /// The larger of two values.
    spec fn greater_spec(self, rhs: Self) -> Self;

    fn greater(self, rhs: Self) -> (r: Self)
        ensures
            r == self.greater_spec(rhs),
    ;
}

/// Zero, as the number type writes it.
pub open spec fn zero_spec<T: Scalar>() -> T {
    T::from_u16_spec(0)
}

/// One, as the number type writes it.
pub open spec fn one_spec<T: Scalar>() -> T {
    T::from_u16_spec(1)
}

pub fn zero<T: Scalar>() -> (r: T)
    ensures
        r == zero_spec::<T>(),
{
    T::from_u16(0)
}

pub fn one<T: Scalar>() -> (r: T)
    ensures
        r == one_spec::<T>(),
{
    T::from_u16(1)
}

} // verus!
