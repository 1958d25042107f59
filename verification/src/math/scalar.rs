//! The element types that vectors and matrices compute with.

use std::ops::{Add, Div, Mul, Neg, Sub};
use vstd::prelude::*;
use vstd::std_specs::convert::FromSpec;
use vstd::std_specs::ops::{AddSpec, DivSpec, MulSpec, NegSpec, SubSpec};

verus! {

/// A numeric element type: copyable, closed under the four operations and
/// negation, and able to hold small whole numbers.
///
/// Every type with these capabilities is a `Scalar`; there is nothing to
/// implement.
pub trait Scalar: Copy + Add<Output = Self> + Sub<Output = Self> + Mul<Output = Self> + Div<
    Output = Self,
> + Neg<Output = Self> + From<i8> {

}

impl<T> Scalar for T where
    T: Copy + Add<Output = T> + Sub<Output = T> + Mul<Output = T> + Div<Output = T> + Neg<
        Output = T,
    > + From<i8>,
 {

}

/// Whether the operators of `T` return exactly what their specifications say.
///
/// This holds of the signed primitive integers wider than `i8`; see
/// `lemma_exact_integers`.  For such a type every contract pins its result,
/// and asks in return that no step of the computation overflows or divides
/// by zero.
pub open spec fn exact<T: Scalar>() -> bool {
    &&& <T as AddSpec>::obeys_add_spec()
    &&& <T as SubSpec>::obeys_sub_spec()
    &&& <T as MulSpec>::obeys_mul_spec()
    &&& <T as DivSpec>::obeys_div_spec()
    &&& <T as NegSpec>::obeys_neg_spec()
    &&& <T as FromSpec<i8>>::obeys_from_spec()
}

/// Whether no operator of `T` asks anything of its operands: every sum,
/// difference, product, quotient and negation can be computed.
///
/// This is the way of floating-point numbers, whose operations yield an
/// infinity or a not-a-number where those of an integer would overflow or
/// trap.  For such a type the contracts ask nothing of the operands and say
/// of the result only what does not depend on rounding.
pub open spec fn total<T: Scalar>() -> bool {
    &&& forall|a: T, b: T| #[trigger] a.add_req(b)
    &&& forall|a: T, b: T| #[trigger] a.sub_req(b)
    &&& forall|a: T, b: T| #[trigger] a.mul_req(b)
    &&& forall|a: T, b: T| #[trigger] a.div_req(b)
    &&& forall|a: T| #[trigger] a.neg_req()
}

/// Whether `T` can be computed with: its operators are exact or total.
pub open spec fn numeric<T: Scalar>() -> bool {
    exact::<T>() || total::<T>()
}

/// The element that stands for the whole number `n`.
pub open spec fn whole<T: Scalar>(n: i8) -> T {
    <T as FromSpec<i8>>::from_spec(n)
}

/// Whether `a0*b0 + a1*b1` can be computed.
pub open spec fn dot2_req<T: Scalar>(a0: T, b0: T, a1: T, b1: T) -> bool {
    &&& a0.mul_req(b0)
    &&& a1.mul_req(b1)
    &&& a0.mul_spec(b0).add_req(a1.mul_spec(b1))
}

/// `a0*b0 + a1*b1`.
pub open spec fn dot2_spec<T: Scalar>(a0: T, b0: T, a1: T, b1: T) -> T {
    a0.mul_spec(b0).add_spec(a1.mul_spec(b1))
}

/// Whether `a0*b0 + a1*b1 + a2*b2` can be computed, summing from the left.
pub open spec fn dot3_req<T: Scalar>(a0: T, b0: T, a1: T, b1: T, a2: T, b2: T) -> bool {
    &&& dot2_req(a0, b0, a1, b1)
    &&& a2.mul_req(b2)
    &&& dot2_spec(a0, b0, a1, b1).add_req(a2.mul_spec(b2))
}

/// `a0*b0 + a1*b1 + a2*b2`, summed from the left.
pub open spec fn dot3_spec<T: Scalar>(a0: T, b0: T, a1: T, b1: T, a2: T, b2: T) -> T {
    dot2_spec(a0, b0, a1, b1).add_spec(a2.mul_spec(b2))
}

/// Whether `a0*b0 + a1*b1 + a2*b2 + a3*b3` can be computed, summing from the
/// left.
pub open spec fn dot4_req<T: Scalar>(
    a0: T,
    b0: T,
    a1: T,
    b1: T,
    a2: T,
    b2: T,
    a3: T,
    b3: T,
) -> bool {
    &&& dot3_req(a0, b0, a1, b1, a2, b2)
    &&& a3.mul_req(b3)
    &&& dot3_spec(a0, b0, a1, b1, a2, b2).add_req(a3.mul_spec(b3))
}

/// `a0*b0 + a1*b1 + a2*b2 + a3*b3`, summed from the left.
pub open spec fn dot4_spec<T: Scalar>(
    a0: T,
    b0: T,
    a1: T,
    b1: T,
    a2: T,
    b2: T,
    a3: T,
    b3: T,
) -> T {
    dot3_spec(a0, b0, a1, b1, a2, b2).add_spec(a3.mul_spec(b3))
}

/// Whether `a0*b0 - a1*b1` can be computed.
pub open spec fn det2_req<T: Scalar>(a0: T, b0: T, a1: T, b1: T) -> bool {
    &&& a0.mul_req(b0)
    &&& a1.mul_req(b1)
    &&& a0.mul_spec(b0).sub_req(a1.mul_spec(b1))
}

/// `a0*b0 - a1*b1`.
pub open spec fn det2_spec<T: Scalar>(a0: T, b0: T, a1: T, b1: T) -> T {
    a0.mul_spec(b0).sub_spec(a1.mul_spec(b1))
}

/// Whether the determinant of the rows `a`, `b` and `c` can be computed,
/// expanding along `a`.
pub open spec fn det3_req<T: Scalar>(
    a0: T,
    a1: T,
    a2: T,
    b0: T,
    b1: T,
    b2: T,
    c0: T,
    c1: T,
    c2: T,
) -> bool {
    &&& det2_req(b1, c2, c1, b2)
    &&& det2_req(b0, c2, c0, b2)
    &&& det2_req(b0, c1, c0, b1)
    &&& det2_req(a0, det2_spec(b1, c2, c1, b2), a1, det2_spec(b0, c2, c0, b2))
    &&& a2.mul_req(det2_spec(b0, c1, c0, b1))
    &&& det2_spec(a0, det2_spec(b1, c2, c1, b2), a1, det2_spec(b0, c2, c0, b2)).add_req(
        a2.mul_spec(det2_spec(b0, c1, c0, b1)),
    )
}

/// The determinant of the rows `a`, `b` and `c`, expanded along `a`:
/// `a0*(b1*c2 - c1*b2) - a1*(b0*c2 - c0*b2) + a2*(b0*c1 - c0*b1)`.
pub open spec fn det3_spec<T: Scalar>(
    a0: T,
    a1: T,
    a2: T,
    b0: T,
    b1: T,
    b2: T,
    c0: T,
    c1: T,
    c2: T,
) -> T {
    det2_spec(a0, det2_spec(b1, c2, c1, b2), a1, det2_spec(b0, c2, c0, b2)).add_spec(
        a2.mul_spec(det2_spec(b0, c1, c0, b1)),
    )
}

/// Returns the element that stands for the whole number `n`.
pub fn whole_of<T: Scalar>(n: i8) -> (r: T)
    ensures
        exact::<T>() ==> r == whole::<T>(n),
{
    T::from(n)
}

/// Computes `a0*b0 + a1*b1`.
pub fn dot2<T: Scalar>(a0: T, b0: T, a1: T, b1: T) -> (r: T)
    requires
        numeric::<T>(),
        exact::<T>() ==> dot2_req(a0, b0, a1, b1),
    ensures
        exact::<T>() ==> r == dot2_spec(a0, b0, a1, b1),
{
    a0 * b0 + a1 * b1
}

/// Computes `a0*b0 + a1*b1 + a2*b2`, summing from the left.
pub fn dot3<T: Scalar>(a0: T, b0: T, a1: T, b1: T, a2: T, b2: T) -> (r: T)
    requires
        numeric::<T>(),
        exact::<T>() ==> dot3_req(a0, b0, a1, b1, a2, b2),
    ensures
        exact::<T>() ==> r == dot3_spec(a0, b0, a1, b1, a2, b2),
{
    a0 * b0 + a1 * b1 + a2 * b2
}

/// Computes `a0*b0 + a1*b1 + a2*b2 + a3*b3`, summing from the left.
pub fn dot4<T: Scalar>(a0: T, b0: T, a1: T, b1: T, a2: T, b2: T, a3: T, b3: T) -> (r: T)
    requires
        numeric::<T>(),
        exact::<T>() ==> dot4_req(a0, b0, a1, b1, a2, b2, a3, b3),
    ensures
        exact::<T>() ==> r == dot4_spec(a0, b0, a1, b1, a2, b2, a3, b3),
{
    a0 * b0 + a1 * b1 + a2 * b2 + a3 * b3
}

/// Computes `a0*b0 - a1*b1`.
pub fn det2<T: Scalar>(a0: T, b0: T, a1: T, b1: T) -> (r: T)
    requires
        numeric::<T>(),
        exact::<T>() ==> det2_req(a0, b0, a1, b1),
    ensures
        exact::<T>() ==> r == det2_spec(a0, b0, a1, b1),
{
    a0 * b0 - a1 * b1
}

/// Computes the determinant of the rows `a`, `b` and `c`, expanding along
/// `a`.
pub fn det3<T: Scalar>(a0: T, a1: T, a2: T, b0: T, b1: T, b2: T, c0: T, c1: T, c2: T) -> (r: T)
    requires
        numeric::<T>(),
        exact::<T>() ==> det3_req(a0, a1, a2, b0, b1, b2, c0, c1, c2),
    ensures
        exact::<T>() ==> r == det3_spec(a0, a1, a2, b0, b1, b2, c0, c1, c2),
{
    a0 * (b1 * c2 - c1 * b2) - a1 * (b0 * c2 - c0 * b2) + a2 * (b0 * c1 - c0 * b1)
}

/// The operators of the signed primitive integers wider than `i8` are exact.
pub proof fn lemma_exact_integers()
    ensures
        exact::<i16>(),
        exact::<i32>(),
        exact::<i64>(),
        exact::<i128>(),
        exact::<isize>(),
{
}

/// The operators of `i64` are exact, and its whole numbers are themselves.
pub proof fn lemma_exact_i64()
    ensures
        exact::<i64>(),
        forall|n: i8| #[trigger] whole::<i64>(n) == n,
{
}

} // verus!
