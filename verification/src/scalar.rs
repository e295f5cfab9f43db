//! The numbers a scene is measured in.
//!
//! Nothing here assumes how a scalar type computes. Every contract that names a
//! value speaks of the scalar's own operations, and holds of each type whose
//! operations are functions of their arguments.

use vstd::prelude::*;
use vstd::std_specs::ops::{AddSpec, SubSpec, MulSpec, DivSpec, NegSpec};
use vstd::std_specs::cmp::{PartialEqSpec, PartialOrdSpec, PartialOrdIs};
use core::ops::{Add, Sub, Mul, Div, Neg};

verus! {

/// A number type a scene can be traced in: the arithmetic and comparison operators,
/// a default value that serves as zero, and the operations below.
///
/// The operations carry no contract. The tracer is proved for however a type
/// computes them, and says of its results what they are in terms of them.
pub trait Scalar: Copy + Default + PartialOrd + Add<Output = Self> + Sub<Output = Self> + Mul<
    Output = Self,
> + Div<Output = Self> + Neg<Output = Self> {
    /// The multiplicative unit.
    fn one() -> Self;

    /// The absolute value of `self`.
    fn abs(self) -> Self;

    /// The square root of `self`.
    fn sqrt(self) -> Self;

    /// `self` raised to the power `exponent`.
    fn powf(self, exponent: Self) -> Self;

    /// The tangent of the angle `self`, in radians.
    fn tan(self) -> Self;

    /// The number `n`.
    fn from_u32(n: u32) -> Self;

    /// The whole number nearest to `self`, which lies between 0 and 255.
    fn to_u8(self) -> u8;
}

/// `z` is a value that `T::default()` can return.
pub open spec fn is_zero<T: Default>(z: T) -> bool {
    call_ensures(T::default, (), z)
}

/// `T::default()` returns one value only.
pub open spec fn single_zero<T: Default>() -> bool {
    forall|a: T, b: T| is_zero(a) && is_zero(b) ==> a == b
}

/// The zero of `T`: what `T::default()` returns.
pub open spec fn zero_of<T: Default>() -> T {
    choose|z: T| #[trigger] is_zero(z)
}

/// `u` is a value that `T::one()` can return.
pub open spec fn is_one<T: Scalar>(u: T) -> bool {
    call_ensures(T::one, (), u)
}

/// The unit of `T`: what `T::one()` returns.
pub open spec fn one_of<T: Scalar>() -> T {
    choose|u: T| #[trigger] is_one(u)
}

/// `r` is a value that `x.abs()` can return.
pub open spec fn is_abs<T: Scalar>(x: T, r: T) -> bool {
    call_ensures(T::abs, (x,), r)
}

/// The absolute value of `x` in `T`: what `x.abs()` returns.
pub open spec fn abs_of<T: Scalar>(x: T) -> T {
    choose|r: T| #[trigger] is_abs(x, r)
}

/// `r` is a value that `x.sqrt()` can return.
pub open spec fn is_sqrt<T: Scalar>(x: T, r: T) -> bool {
    call_ensures(T::sqrt, (x,), r)
}

/// The square root of `x` in `T`: what `x.sqrt()` returns.
pub open spec fn sqrt_of<T: Scalar>(x: T) -> T {
    choose|r: T| #[trigger] is_sqrt(x, r)
}

/// `r` is a value that `x.powf(e)` can return.
pub open spec fn is_powf<T: Scalar>(x: T, e: T, r: T) -> bool {
    call_ensures(T::powf, (x, e), r)
}

/// `x` raised to `e` in `T`: what `x.powf(e)` returns.
pub open spec fn powf_of<T: Scalar>(x: T, e: T) -> T {
    choose|r: T| #[trigger] is_powf(x, e, r)
}

/// `r` is a value that `x.tan()` can return.
pub open spec fn is_tan<T: Scalar>(x: T, r: T) -> bool {
    call_ensures(T::tan, (x,), r)
}

/// The tangent of `x` in `T`: what `x.tan()` returns.
pub open spec fn tan_of<T: Scalar>(x: T) -> T {
    choose|r: T| #[trigger] is_tan(x, r)
}

/// `r` is a value that `T::from_u32(n)` can return.
pub open spec fn is_from_u32<T: Scalar>(n: u32, r: T) -> bool {
    call_ensures(T::from_u32, (n,), r)
}

/// The number `n` in `T`: what `T::from_u32(n)` returns.
pub open spec fn from_u32_of<T: Scalar>(n: u32) -> T {
    choose|r: T| #[trigger] is_from_u32(n, r)
}

/// `r` is a value that `x.to_u8()` can return.
pub open spec fn is_to_u8<T: Scalar>(x: T, r: u8) -> bool {
    call_ensures(T::to_u8, (x,), r)
}

/// The byte nearest to `x`: what `x.to_u8()` returns.
pub open spec fn to_u8_of<T: Scalar>(x: T) -> u8 {
    choose|r: u8| #[trigger] is_to_u8(x, r)
}

/// `a < b` by the order of `T`.
pub open spec fn lt<T: PartialOrd>(a: T, b: T) -> bool {
    a.is_lt(&b)
}

/// `a > b` by the order of `T`.
pub open spec fn gt<T: PartialOrd>(a: T, b: T) -> bool {
    a.is_gt(&b)
}

/// `a >= b` by the order of `T`.
pub open spec fn ge<T: PartialOrd>(a: T, b: T) -> bool {
    a.is_ge(&b)
}

/// `a == b` by the equality of `T`.
pub open spec fn same<T: PartialEq>(a: T, b: T) -> bool {
    a.eq_spec(&b)
}

/// The order of `T` is that of numbers on a line: nothing is less than itself,
/// less than is transitive, and whatever lies below a value lies below any third
/// value or the third lies below that value.
pub open spec fn linear<T: PartialOrd>() -> bool {
    &&& forall|a: T| !#[trigger] lt(a, a)
    &&& forall|a: T, b: T, c: T| #[trigger] lt(a, b) && #[trigger] lt(b, c) ==> lt(a, c)
    &&& forall|a: T, b: T, c: T| #[trigger] lt(a, b) ==> #[trigger] lt(a, c) || lt(c, b)
}

/// The comparison operators of `T` compute its specified order.
pub open spec fn ordered<T: PartialOrd>() -> bool {
    T::obeys_partial_cmp_spec()
}

/// Any two values of `T` may be added.
pub open spec fn add_total<T: Add<Output = T>>() -> bool {
    forall|a: T, b: T| #[trigger] a.add_req(b)
}

/// Any two values of `T` may be subtracted.
pub open spec fn sub_total<T: Sub<Output = T>>() -> bool {
    forall|a: T, b: T| #[trigger] a.sub_req(b)
}

/// Any two values of `T` may be multiplied.
pub open spec fn mul_total<T: Mul<Output = T>>() -> bool {
    forall|a: T, b: T| #[trigger] a.mul_req(b)
}

/// Any value of `T` may be divided by any other.
pub open spec fn div_total<T: Div<Output = T>>() -> bool {
    forall|a: T, b: T| #[trigger] a.div_req(b)
}

/// Any value of `T` may be negated.
pub open spec fn neg_total<T: Neg<Output = T>>() -> bool {
    forall|a: T| #[trigger] a.neg_req()
}

/// No operator of `T` has a precondition: every sum, difference, product, quotient
/// and negation may be taken.
pub open spec fn total<T: Scalar>() -> bool {
    &&& add_total::<T>()
    &&& sub_total::<T>()
    &&& mul_total::<T>()
    &&& div_total::<T>()
    &&& neg_total::<T>()
}

/// The operators of `T` compute their specified results, and its zero and its
/// unit are one value each.
pub open spec fn exact_arithmetic<T: Scalar>() -> bool {
    &&& T::obeys_add_spec()
    &&& T::obeys_sub_spec()
    &&& T::obeys_mul_spec()
    &&& T::obeys_div_spec()
    &&& T::obeys_neg_spec()
    &&& T::obeys_eq_spec()
    &&& ordered::<T>()
    &&& single_zero::<T>()
    &&& forall|a: T, b: T| is_one(a) && is_one(b) ==> a == b
}

/// Every operation of `T` is a function of its arguments: its arithmetic is
/// exact, and each operation of `Scalar` returns one value for each input.
pub open spec fn exact<T: Scalar>() -> bool {
    &&& exact_arithmetic::<T>()
    &&& forall|x: T, a: T, b: T| is_abs(x, a) && is_abs(x, b) ==> a == b
    &&& forall|x: T, a: T, b: T| is_sqrt(x, a) && is_sqrt(x, b) ==> a == b
    &&& forall|x: T, e: T, a: T, b: T| is_powf(x, e, a) && is_powf(x, e, b) ==> a == b
    &&& forall|x: T, a: T, b: T| is_tan(x, a) && is_tan(x, b) ==> a == b
    &&& forall|n: u32, a: T, b: T| is_from_u32(n, a) && is_from_u32(n, b) ==> a == b
    &&& forall|x: T, a: u8, b: u8| is_to_u8(x, a) && is_to_u8(x, b) ==> a == b
}

/// The zero of `T`.
pub fn zero<T: Default>() -> (z: T)
    ensures
        is_zero(z),
        single_zero::<T>() ==> z == zero_of::<T>(),
{
    let z = T::default();
    proof {
        assert(is_zero(z));
        assert(is_zero(zero_of::<T>()));
    }
    z
}

/// The unit of `T`.
pub fn one<T: Scalar>() -> (u: T)
    ensures
        is_one(u),
        exact_arithmetic::<T>() ==> u == one_of::<T>(),
{
    let u = T::one();
    proof {
        assert(is_one(u));
        assert(is_one(one_of::<T>()));
    }
    u
}

/// The absolute value of `x`.
pub fn abs<T: Scalar>(x: T) -> (r: T)
    ensures
        is_abs(x, r),
        exact::<T>() ==> r == abs_of(x),
{
    let r = x.abs();
    proof {
        assert(is_abs(x, r));
        assert(is_abs(x, abs_of(x)));
    }
    r
}

/// The square root of `x`.
pub fn sqrt<T: Scalar>(x: T) -> (r: T)
    ensures
        is_sqrt(x, r),
        exact::<T>() ==> r == sqrt_of(x),
{
    let r = x.sqrt();
    proof {
        assert(is_sqrt(x, r));
        assert(is_sqrt(x, sqrt_of(x)));
    }
    r
}

/// `x` raised to the power `e`.
pub fn powf<T: Scalar>(x: T, e: T) -> (r: T)
    ensures
        is_powf(x, e, r),
        exact::<T>() ==> r == powf_of(x, e),
{
    let r = x.powf(e);
    proof {
        assert(is_powf(x, e, r));
        assert(is_powf(x, e, powf_of(x, e)));
    }
    r
}

/// The tangent of `x`.
pub fn tan<T: Scalar>(x: T) -> (r: T)
    ensures
        is_tan(x, r),
        exact::<T>() ==> r == tan_of(x),
{
    let r = x.tan();
    proof {
        assert(is_tan(x, r));
        assert(is_tan(x, tan_of(x)));
    }
    r
}

/// The number `n` as a scalar.
pub fn from_u32<T: Scalar>(n: u32) -> (r: T)
    ensures
        is_from_u32(n, r),
        exact::<T>() ==> r == from_u32_of::<T>(n),
{
    let r = T::from_u32(n);
    proof {
        assert(is_from_u32(n, r));
        assert(is_from_u32(n, from_u32_of::<T>(n)));
    }
    r
}

/// The byte nearest to `x`.
pub fn to_u8<T: Scalar>(x: T) -> (r: u8)
    ensures
        is_to_u8(x, r),
        exact::<T>() ==> r == to_u8_of(x),
{
    let r = x.to_u8();
    proof {
        assert(is_to_u8(x, r));
        assert(is_to_u8(x, to_u8_of(x)));
    }
    r
}

} // verus!
