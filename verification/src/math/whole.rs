//! Element types that are ranges of the whole numbers.
//!
//! The laws of vectors and matrices are laws of the whole numbers.  They
//! are stated once, for every element type that computes as the whole
//! numbers do wherever the result is one of its elements.

use crate::math::scalar::{
    det2_req, det2_spec, det3_req, det3_spec, dot2_req, dot2_spec, dot3_req, dot3_spec, dot4_req, dot4_spec, exact, whole,
    Scalar,
};
use vstd::prelude::*;
use vstd::std_specs::ops::{AddSpec, MulSpec, NegSpec, SubSpec};

verus! {

/// An element type whose elements are whole numbers and whose operators
/// compute on them as the whole numbers do: an operation can be carried out
/// exactly when its result is an element, and then yields that element.
pub trait Whole: Scalar {
    /// The whole number that the element is.
    spec fn value(self) -> int;

    /// The operators are exact.
    proof fn lemma_exact()
        ensures
            exact::<Self>(),
    ;

    /// Different elements are different numbers.
    proof fn lemma_same_value(a: Self, b: Self)
        requires
            a.value() == b.value(),
        ensures
            a == b,
    ;

    /// The element that stands for `n` is `n`.
    proof fn lemma_whole(n: i8)
        ensures
            whole::<Self>(n).value() == n,
    ;

    /// A sum that can be computed is the sum of the numbers.
    proof fn lemma_add_value(a: Self, b: Self)
        requires
            a.add_req(b),
        ensures
            a.add_spec(b).value() == a.value() + b.value(),
    ;

    /// A sum that is the element `c` can be computed.
    proof fn lemma_add_req(a: Self, b: Self, c: Self)
        requires
            c.value() == a.value() + b.value(),
        ensures
            a.add_req(b),
    ;

    /// A difference that can be computed is the difference of the numbers.
    proof fn lemma_sub_value(a: Self, b: Self)
        requires
            a.sub_req(b),
        ensures
            a.sub_spec(b).value() == a.value() - b.value(),
    ;

    /// A difference that is the element `c` can be computed.
    proof fn lemma_sub_req(a: Self, b: Self, c: Self)
        requires
            c.value() == a.value() - b.value(),
        ensures
            a.sub_req(b),
    ;

    /// A product that can be computed is the product of the numbers.
    proof fn lemma_mul_value(a: Self, b: Self)
        requires
            a.mul_req(b),
        ensures
            a.mul_spec(b).value() == a.value() * b.value(),
    ;

    /// A product that is the element `c` can be computed.
    proof fn lemma_mul_req(a: Self, b: Self, c: Self)
        requires
            c.value() == a.value() * b.value(),
        ensures
            a.mul_req(b),
    ;

    /// A negation that can be computed is the negation of the number.
    proof fn lemma_neg_value(a: Self)
        requires
            a.neg_req(),
        ensures
            a.neg_spec().value() == -a.value(),
    ;

    /// A negation that is the element `c` can be computed.
    proof fn lemma_neg_req(a: Self, c: Self)
        requires
            c.value() == -a.value(),
        ensures
            a.neg_req(),
    ;
}

impl Whole for i16 {
    open spec fn value(self) -> int {
        self as int
    }

    proof fn lemma_exact() {
    }

    proof fn lemma_same_value(a: Self, b: Self) {
    }

    proof fn lemma_whole(n: i8) {
    }

    proof fn lemma_add_value(a: Self, b: Self) {
    }

    proof fn lemma_add_req(a: Self, b: Self, c: Self) {
    }

    proof fn lemma_sub_value(a: Self, b: Self) {
    }

    proof fn lemma_sub_req(a: Self, b: Self, c: Self) {
    }

    proof fn lemma_mul_value(a: Self, b: Self) {
    }

    proof fn lemma_mul_req(a: Self, b: Self, c: Self) {
    }

    proof fn lemma_neg_value(a: Self) {
    }

    proof fn lemma_neg_req(a: Self, c: Self) {
    }
}

impl Whole for i32 {
    open spec fn value(self) -> int {
        self as int
    }

    proof fn lemma_exact() {
    }

    proof fn lemma_same_value(a: Self, b: Self) {
    }

    proof fn lemma_whole(n: i8) {
    }

    proof fn lemma_add_value(a: Self, b: Self) {
    }

    proof fn lemma_add_req(a: Self, b: Self, c: Self) {
    }

    proof fn lemma_sub_value(a: Self, b: Self) {
    }

    proof fn lemma_sub_req(a: Self, b: Self, c: Self) {
    }

    proof fn lemma_mul_value(a: Self, b: Self) {
    }

    proof fn lemma_mul_req(a: Self, b: Self, c: Self) {
    }

    proof fn lemma_neg_value(a: Self) {
    }

    proof fn lemma_neg_req(a: Self, c: Self) {
    }
}

impl Whole for i64 {
    open spec fn value(self) -> int {
        self as int
    }

    proof fn lemma_exact() {
    }

    proof fn lemma_same_value(a: Self, b: Self) {
    }

    proof fn lemma_whole(n: i8) {
    }

    proof fn lemma_add_value(a: Self, b: Self) {
    }

    proof fn lemma_add_req(a: Self, b: Self, c: Self) {
    }

    proof fn lemma_sub_value(a: Self, b: Self) {
    }

    proof fn lemma_sub_req(a: Self, b: Self, c: Self) {
    }

    proof fn lemma_mul_value(a: Self, b: Self) {
    }

    proof fn lemma_mul_req(a: Self, b: Self, c: Self) {
    }

    proof fn lemma_neg_value(a: Self) {
    }

    proof fn lemma_neg_req(a: Self, c: Self) {
    }
}

impl Whole for i128 {
    open spec fn value(self) -> int {
        self as int
    }

    proof fn lemma_exact() {
    }

    proof fn lemma_same_value(a: Self, b: Self) {
    }

    proof fn lemma_whole(n: i8) {
    }

    proof fn lemma_add_value(a: Self, b: Self) {
    }

    proof fn lemma_add_req(a: Self, b: Self, c: Self) {
    }

    proof fn lemma_sub_value(a: Self, b: Self) {
    }

    proof fn lemma_sub_req(a: Self, b: Self, c: Self) {
    }

    proof fn lemma_mul_value(a: Self, b: Self) {
    }

    proof fn lemma_mul_req(a: Self, b: Self, c: Self) {
    }

    proof fn lemma_neg_value(a: Self) {
    }

    proof fn lemma_neg_req(a: Self, c: Self) {
    }
}

impl Whole for isize {
    open spec fn value(self) -> int {
        self as int
    }

    proof fn lemma_exact() {
    }

    proof fn lemma_same_value(a: Self, b: Self) {
    }

    proof fn lemma_whole(n: i8) {
    }

    proof fn lemma_add_value(a: Self, b: Self) {
    }

    proof fn lemma_add_req(a: Self, b: Self, c: Self) {
    }

    proof fn lemma_sub_value(a: Self, b: Self) {
    }

    proof fn lemma_sub_req(a: Self, b: Self, c: Self) {
    }

    proof fn lemma_mul_value(a: Self, b: Self) {
    }

    proof fn lemma_mul_req(a: Self, b: Self, c: Self) {
    }

    proof fn lemma_neg_value(a: Self) {
    }

    proof fn lemma_neg_req(a: Self, c: Self) {
    }
}

/// A sum of two products that can be computed is that of the numbers.
pub proof fn lemma_dot2_value<T: Whole>(a0: T, b0: T, a1: T, b1: T)
    requires
        dot2_req(a0, b0, a1, b1),
    ensures
        dot2_spec(a0, b0, a1, b1).value() == a0.value() * b0.value() + a1.value() * b1.value(),
{
    T::lemma_mul_value(a0, b0);
    T::lemma_mul_value(a1, b1);
    T::lemma_add_value(a0.mul_spec(b0), a1.mul_spec(b1));
}

/// A sum of three products that can be computed is that of the numbers.
pub proof fn lemma_dot3_value<T: Whole>(a0: T, b0: T, a1: T, b1: T, a2: T, b2: T)
    requires
        dot3_req(a0, b0, a1, b1, a2, b2),
    ensures
        dot3_spec(a0, b0, a1, b1, a2, b2).value() == a0.value() * b0.value() + a1.value()
            * b1.value() + a2.value() * b2.value(),
{
    lemma_dot2_value(a0, b0, a1, b1);
    T::lemma_mul_value(a2, b2);
    T::lemma_add_value(dot2_spec(a0, b0, a1, b1), a2.mul_spec(b2));
}

/// A sum of four products that can be computed is that of the numbers.
pub proof fn lemma_dot4_value<T: Whole>(a0: T, b0: T, a1: T, b1: T, a2: T, b2: T, a3: T, b3: T)
    requires
        dot4_req(a0, b0, a1, b1, a2, b2, a3, b3),
    ensures
        dot4_spec(a0, b0, a1, b1, a2, b2, a3, b3).value() == a0.value() * b0.value() + a1.value()
            * b1.value() + a2.value() * b2.value() + a3.value() * b3.value(),
{
    lemma_dot3_value(a0, b0, a1, b1, a2, b2);
    T::lemma_mul_value(a3, b3);
    T::lemma_add_value(dot3_spec(a0, b0, a1, b1, a2, b2), a3.mul_spec(b3));
}

/// A difference of two products that can be computed is that of the
/// numbers.
pub proof fn lemma_det2_value<T: Whole>(a0: T, b0: T, a1: T, b1: T)
    requires
        det2_req(a0, b0, a1, b1),
    ensures
        det2_spec(a0, b0, a1, b1).value() == a0.value() * b0.value() - a1.value() * b1.value(),
{
    T::lemma_mul_value(a0, b0);
    T::lemma_mul_value(a1, b1);
    T::lemma_sub_value(a0.mul_spec(b0), a1.mul_spec(b1));
}

/// A determinant of three rows that can be computed is that of the
/// numbers.
pub proof fn lemma_det3_value<T: Whole>(
    a0: T,
    a1: T,
    a2: T,
    b0: T,
    b1: T,
    b2: T,
    c0: T,
    c1: T,
    c2: T,
)
    requires
        det3_req(a0, a1, a2, b0, b1, b2, c0, c1, c2),
    ensures
        det3_spec(a0, a1, a2, b0, b1, b2, c0, c1, c2).value() == a0.value() * (b1.value()
            * c2.value() - c1.value() * b2.value()) - a1.value() * (b0.value() * c2.value()
            - c0.value() * b2.value()) + a2.value() * (b0.value() * c1.value() - c0.value()
            * b1.value()),
{
    lemma_det2_value(b1, c2, c1, b2);
    lemma_det2_value(b0, c2, c0, b2);
    lemma_det2_value(b0, c1, c0, b1);
    lemma_det2_value(a0, det2_spec(b1, c2, c1, b2), a1, det2_spec(b0, c2, c0, b2));
    T::lemma_mul_value(a2, det2_spec(b0, c1, c0, b1));
    T::lemma_add_value(
        det2_spec(a0, det2_spec(b1, c2, c1, b2), a1, det2_spec(b0, c2, c0, b2)),
        a2.mul_spec(det2_spec(b0, c1, c0, b1)),
    );
}

/// A sum of two products can be computed when both products and the sum
/// are elements, and is then the last of those elements.
pub proof fn lemma_dot2_steps<T: Whole>(a0: T, b0: T, a1: T, b1: T, p0: T, p1: T, s: T)
    requires
        p0.value() == a0.value() * b0.value(),
        p1.value() == a1.value() * b1.value(),
        s.value() == p0.value() + p1.value(),
    ensures
        dot2_req(a0, b0, a1, b1),
        dot2_spec(a0, b0, a1, b1) == s,
{
    T::lemma_mul_req(a0, b0, p0);
    T::lemma_mul_value(a0, b0);
    T::lemma_same_value(a0.mul_spec(b0), p0);
    T::lemma_mul_req(a1, b1, p1);
    T::lemma_mul_value(a1, b1);
    T::lemma_same_value(a1.mul_spec(b1), p1);
    T::lemma_add_req(p0, p1, s);
    T::lemma_add_value(p0, p1);
    T::lemma_same_value(p0.add_spec(p1), s);
}

/// A sum of four products can be computed when every product and every
/// sum on the way is an element, and is then the last of those elements.
pub proof fn lemma_dot4_steps<T: Whole>(
    a0: T,
    b0: T,
    a1: T,
    b1: T,
    a2: T,
    b2: T,
    a3: T,
    b3: T,
    p0: T,
    p1: T,
    p2: T,
    p3: T,
    s1: T,
    s2: T,
    s3: T,
)
    requires
        p0.value() == a0.value() * b0.value(),
        p1.value() == a1.value() * b1.value(),
        p2.value() == a2.value() * b2.value(),
        p3.value() == a3.value() * b3.value(),
        s1.value() == p0.value() + p1.value(),
        s2.value() == s1.value() + p2.value(),
        s3.value() == s2.value() + p3.value(),
    ensures
        dot4_req(a0, b0, a1, b1, a2, b2, a3, b3),
        dot4_spec(a0, b0, a1, b1, a2, b2, a3, b3) == s3,
{
    T::lemma_mul_req(a0, b0, p0);
    T::lemma_mul_value(a0, b0);
    T::lemma_same_value(a0.mul_spec(b0), p0);
    T::lemma_mul_req(a1, b1, p1);
    T::lemma_mul_value(a1, b1);
    T::lemma_same_value(a1.mul_spec(b1), p1);
    T::lemma_mul_req(a2, b2, p2);
    T::lemma_mul_value(a2, b2);
    T::lemma_same_value(a2.mul_spec(b2), p2);
    T::lemma_mul_req(a3, b3, p3);
    T::lemma_mul_value(a3, b3);
    T::lemma_same_value(a3.mul_spec(b3), p3);
    T::lemma_add_req(p0, p1, s1);
    T::lemma_add_value(p0, p1);
    T::lemma_same_value(p0.add_spec(p1), s1);
    T::lemma_add_req(s1, p2, s2);
    T::lemma_add_value(s1, p2);
    T::lemma_same_value(s1.add_spec(p2), s2);
    T::lemma_add_req(s2, p3, s3);
    T::lemma_add_value(s2, p3);
    T::lemma_same_value(s2.add_spec(p3), s3);
}

} // verus!
