use core::ops::{Add, Div, Mul, Neg, Sub};
use vstd::prelude::*;
use vstd::std_specs::cmp::*;
use vstd::std_specs::convert::*;
use vstd::std_specs::ops::*;

verus! {

/// One of the three coordinate axes.
#[derive(Debug, Clone, Copy, PartialEq, Eq)]
pub enum Axis {
    X,
    Y,
    Z,
}

/// The ways an operation of the kernel fails.
#[derive(Debug, Clone, Copy, PartialEq, Eq)]
pub enum MathError {
    /// A matrix was given a number of cells other than rows times columns.
    ShapeMismatch,
    /// A cell outside the shape of a matrix was addressed.
    OutOfBounds,
    /// The shapes of two factors do not fit.
    DimensionMismatch,
    /// The determinant of a matrix to invert is within the tolerance of zero.
    NotInvertible,
    /// A tuple of magnitude zero was to be normalized.
    DegenerateVector,
}

/// The scalars the kernel computes with: copyable values with the four
/// arithmetic operators, negation, an order, and the small integer literals.
pub trait Number: Copy + Add<Output = Self> + Sub<Output = Self> + Mul<Output = Self> + Div<
    Output = Self,
> + Neg<Output = Self> + PartialOrd + From<i8> {

}

impl<T> Number for T where
    T: Copy + Add<Output = T> + Sub<Output = T> + Mul<Output = T> + Div<Output = T> + Neg<
        Output = T,
    > + PartialOrd + From<i8>,
 {

}

/// Every operator of `T` accepts every operand: no sum, difference, product,
/// quotient or negation is left undefined. Floating-point numbers are such
/// scalars; integers, which overflow, are not.
pub open spec fn defined<T: Number>() -> bool {
    &&& forall|a: T, b: T| #[trigger] a.add_req(b)
    &&& forall|a: T, b: T| #[trigger] a.sub_req(b)
    &&& forall|a: T, b: T| #[trigger] a.mul_req(b)
    &&& forall|a: T, b: T| #[trigger] a.div_req(b)
    &&& forall|a: T| #[trigger] a.neg_req()
}

/// The comparisons of `T` return what `partial_cmp_spec` says.
pub open spec fn exact_order<T: Number>() -> bool {
    T::obeys_partial_cmp_spec()
}

/// The literals of `T` are what `from_spec` says.
pub open spec fn exact_literals<T: Number>() -> bool {
    <T as FromSpec<i8>>::obeys_from_spec()
}

/// Every operator, comparison and literal of `T` returns what its spec
/// function says: `a + b` is `a.add_spec(b)`, and so on.
pub open spec fn exact<T: Number>() -> bool {
    &&& T::obeys_add_spec()
    &&& T::obeys_sub_spec()
    &&& T::obeys_mul_spec()
    &&& T::obeys_div_spec()
    &&& T::obeys_neg_spec()
    &&& T::obeys_eq_spec()
    &&& exact_order::<T>()
    &&& exact_literals::<T>()
}

/// What a call asks of its scalars: that every operator is defined
/// everywhere, or else that the operators are exact and `needs` holds, which
/// says of the operations the call performs that each is defined.
pub open spec fn allowed<T: Number>(needs: bool) -> bool {
    defined::<T>() || (exact::<T>() && needs)
}

/// The scalar written `0`.
pub open spec fn spec_zero<T: Number>() -> T {
    T::from_spec(0i8)
}

/// The scalar written `1`.
pub open spec fn spec_one<T: Number>() -> T {
    T::from_spec(1i8)
}

/// The scalar written `10`.
pub open spec fn spec_ten<T: Number>() -> T {
    T::from_spec(10i8)
}

/// The tolerance of every approximate comparison: one hundred-thousandth,
/// computed as `1 / ((((10 * 10) * 10) * 10) * 10)`.
pub open spec fn spec_epsilon<T: Number>() -> T {
    let ten = spec_ten::<T>();
    spec_one::<T>().div_spec(ten.mul_spec(ten).mul_spec(ten).mul_spec(ten).mul_spec(ten))
}

/// The operations that compute the tolerance are defined.
pub open spec fn can_epsilon<T: Number>() -> bool {
    let ten = spec_ten::<T>();
    let hundred = ten.mul_spec(ten);
    let thousand = hundred.mul_spec(ten);
    let myriad = thousand.mul_spec(ten);
    &&& ten.mul_req(ten)
    &&& hundred.mul_req(ten)
    &&& thousand.mul_req(ten)
    &&& myriad.mul_req(ten)
    &&& spec_one::<T>().div_req(myriad.mul_spec(ten))
}

/// The operation that computes the absolute value of `a` is defined.
pub open spec fn can_abs<T: Number>(a: T) -> bool {
    a.is_lt(&spec_zero::<T>()) ==> a.neg_req()
}

/// The operations that compare `a` and `b` approximately are defined.
pub open spec fn can_near<T: Number>(a: T, b: T) -> bool {
    &&& a.sub_req(b)
    &&& can_abs(a.sub_spec(b))
    &&& can_epsilon::<T>()
}

/// The absolute value: the negation of a scalar below zero, the scalar itself
/// otherwise.
pub open spec fn spec_abs<T: Number>(a: T) -> T {
    if a.is_lt(&spec_zero::<T>()) {
        a.neg_spec()
    } else {
        a
    }
}

/// Two scalars are near when the absolute value of their difference is below
/// the tolerance.
pub open spec fn near<T: Number>(a: T, b: T) -> bool {
    spec_abs(a.sub_spec(b)).is_lt(&spec_epsilon::<T>())
}

/// The scalar written `0`.
pub fn zero<T: Number>() -> (r: T)
    ensures
        exact::<T>() ==> r == spec_zero::<T>(),
{
    T::from(0i8)
}

/// The scalar written `1`.
pub fn one<T: Number>() -> (r: T)
    ensures
        exact::<T>() ==> r == spec_one::<T>(),
{
    T::from(1i8)
}

/// The tolerance of every approximate comparison.
pub fn epsilon<T: Number>() -> (r: T)
    requires
        allowed::<T>(can_epsilon::<T>()),
    ensures
        exact::<T>() ==> r == spec_epsilon::<T>(),
{
    let ten = T::from(10i8);
    one::<T>() / (ten * ten * ten * ten * ten)
}

/// The absolute value.
pub fn abs<T: Number>(a: T) -> (r: T)
    requires
        allowed::<T>(can_abs(a)),
    ensures
        exact::<T>() ==> r == spec_abs(a),
{
    if a < zero() {
        a.neg()
    } else {
        a
    }
}

/// Approximate equality with an absolute tolerance.
pub fn equal<T: Number>(a: T, b: T) -> (r: bool)
    requires
        allowed::<T>(can_near(a, b)),
    ensures
        exact::<T>() ==> r == near(a, b),
{
    abs(a - b) < epsilon()
}

} // verus!
