//! A 4x4 matrix for affine transforms and projections.
//!
//! The sixteen elements are stored column by column: the element in row `r`
//! of column `c` is at index `c*4 + r`.  Columns 0 to 2 hold the linear part
//! of a transform, column 3 its translation.

use crate::math::scalar::{
    lemma_exact_i64, dot2, dot2_req, dot2_spec, dot3, dot3_req, dot3_spec, dot4, dot4_req, dot4_spec, exact,
    numeric, whole, whole_of, Scalar,
};
use crate::math::vec3::Vec3;
use crate::math::whole::{
    lemma_dot2_steps, lemma_dot2_value, lemma_dot3_value, lemma_dot4_steps, lemma_dot4_value, Whole,
};
use std::ops::{Mul, Neg};
use vstd::prelude::*;
use vstd::std_specs::ops::{AddSpec, DivSpec, MulSpec, NegSpec, SubSpec};

verus! {

/// A 4x4 matrix of one element type.
#[derive(Copy, Clone, PartialEq)]
pub struct Mat4<T> {
    data: [T; 16],
}

impl<T> View for Mat4<T> {
    type V = Seq<T>;

    /// The sixteen elements, column by column.
    closed spec fn view(&self) -> Seq<T> {
        self.data@
    }
}

/// Whether `after` has the elements of `before` everywhere but at the
/// indices in `touched`.
pub open spec fn same_outside<T>(before: Seq<T>, after: Seq<T>, touched: Set<int>) -> bool {
    &&& after.len() == before.len()
    &&& forall|i: int|
        0 <= i < before.len() && !touched.contains(i) ==> #[trigger] after[i] == before[i]
}

/// The indices of the first three rows of columns 0 to 2, which hold the
/// linear part of a transform.
pub open spec fn linear_part() -> Set<int> {
    set![0, 1, 2, 4, 5, 6, 8, 9, 10]
}

/// The elements of the identity matrix: 1 on the diagonal, 0 elsewhere.
pub open spec fn identity_seq<T: Scalar>() -> Seq<T> {
    Seq::new(
        16,
        |i: int|
            if i % 5 == 0 {
                whole::<T>(1)
            } else {
                whole::<T>(0)
            },
    )
}

/// Whether `m` has one value all along its diagonal and one value
/// everywhere else.
pub open spec fn diagonal<T>(m: Seq<T>) -> bool {
    &&& m.len() == 16
    &&& forall|i: int, j: int|
        0 <= i < 16 && 0 <= j < 16 && (i % 5 == 0) == (j % 5 == 0) ==> #[trigger] m[i]
            == #[trigger] m[j]
}

/// Whether the element at index `c*4 + r` of the product of `a` and `b` can
/// be computed.
pub open spec fn product_entry_req<T: Scalar>(a: Seq<T>, b: Seq<T>, c: int, r: int) -> bool {
    dot4_req(
        a[c * 4],
        b[r],
        a[c * 4 + 1],
        b[4 + r],
        a[c * 4 + 2],
        b[8 + r],
        a[c * 4 + 3],
        b[12 + r],
    )
}

/// The element at index `c*4 + r` of the product of `a` and `b`: the sum
/// over `k` of `a[c*4 + k] * b[k*4 + r]`.
pub open spec fn product_entry<T: Scalar>(a: Seq<T>, b: Seq<T>, c: int, r: int) -> T {
    dot4_spec(
        a[c * 4],
        b[r],
        a[c * 4 + 1],
        b[4 + r],
        a[c * 4 + 2],
        b[8 + r],
        a[c * 4 + 3],
        b[12 + r],
    )
}

/// Whether the product of `a` and `b` can be computed.
pub open spec fn product_req<T: Scalar>(a: Seq<T>, b: Seq<T>) -> bool {
    forall|c: int, r: int|
        0 <= c < 4 && 0 <= r < 4 ==> #[trigger] product_entry_req(a, b, c, r)
}

/// The elements of the product of `a` and `b`.
///
/// Column `c` of the product is `b` applied to column `c` of `a`: as
/// transforms of column vectors, the product applies `a` first and `b`
/// second.
pub open spec fn product<T: Scalar>(a: Seq<T>, b: Seq<T>) -> Seq<T> {
    Seq::new(16, |i: int| product_entry(a, b, i / 4, i % 4))
}

/// Whether the linear part of `m` can be applied to `v`.
pub open spec fn transform_req<T: Scalar>(m: Seq<T>, v: Vec3<T>) -> bool {
    &&& dot3_req(m[0], v.x, m[4], v.y, m[8], v.z)
    &&& dot3_req(m[1], v.x, m[5], v.y, m[9], v.z)
    &&& dot3_req(m[2], v.x, m[6], v.y, m[10], v.z)
}

/// The linear part of `m` applied to `v`: the first three rows of the first
/// three columns, times `v`.  The translation column and the fourth row
/// take no part.
pub open spec fn transform<T: Scalar>(m: Seq<T>, v: Vec3<T>) -> Vec3<T> {
    Vec3 {
        x: dot3_spec(m[0], v.x, m[4], v.y, m[8], v.z),
        y: dot3_spec(m[1], v.x, m[5], v.y, m[9], v.z),
        z: dot3_spec(m[2], v.x, m[6], v.y, m[10], v.z),
    }
}

/// Whether `m` can be translated by `v`.
pub open spec fn translated_req<T: Scalar>(m: Seq<T>, v: Vec3<T>) -> bool {
    &&& transform_req(m, v)
    &&& m[12].add_req(transform(m, v).x)
    &&& m[13].add_req(transform(m, v).y)
    &&& m[14].add_req(transform(m, v).z)
}

/// `m` followed by a translation by `v`: the linear part of `m` applied to
/// `v` is added to the translation column.
pub open spec fn translated<T: Scalar>(m: Seq<T>, v: Vec3<T>) -> Seq<T> {
    m.update(12, m[12].add_spec(transform(m, v).x)).update(
        13,
        m[13].add_spec(transform(m, v).y),
    ).update(14, m[14].add_spec(transform(m, v).z))
}

/// Whether the elements `t` and `u` of one row can be turned by the cosine
/// `c` and the sine `s`.
pub open spec fn turned_pair_req<T: Scalar>(t: T, u: T, c: T, s: T) -> bool {
    &&& s.neg_req()
    &&& dot2_req(t, c, u, s)
    &&& dot2_req(t, s.neg_spec(), u, c)
}

/// Whether the columns that start at the indices `p` and `q` of `m` can be
/// turned by the cosine `c` and the sine `s`.
pub open spec fn turned_req<T: Scalar>(m: Seq<T>, p: int, q: int, c: T, s: T) -> bool {
    &&& turned_pair_req(m[p], m[q], c, s)
    &&& turned_pair_req(m[p + 1], m[q + 1], c, s)
    &&& turned_pair_req(m[p + 2], m[q + 2], c, s)
}

/// `m` with the first three rows of the columns that start at the indices
/// `p` and `q` turned into each other: the first becomes `first*c +
/// second*s`, the second becomes `first*(-s) + second*c`.
pub open spec fn turned<T: Scalar>(m: Seq<T>, p: int, q: int, c: T, s: T) -> Seq<T> {
    m.update(p, dot2_spec(m[p], c, m[q], s)).update(
        q,
        dot2_spec(m[p], s.neg_spec(), m[q], c),
    ).update(p + 1, dot2_spec(m[p + 1], c, m[q + 1], s)).update(
        q + 1,
        dot2_spec(m[p + 1], s.neg_spec(), m[q + 1], c),
    ).update(p + 2, dot2_spec(m[p + 2], c, m[q + 2], s)).update(
        q + 2,
        dot2_spec(m[p + 2], s.neg_spec(), m[q + 2], c),
    )
}

/// `m` followed by the rotation about the x axis that turns y towards z,
/// with cosine `c` and sine `s`: columns 1 and 2 are turned into each other.
pub open spec fn rotated_x<T: Scalar>(m: Seq<T>, c: T, s: T) -> Seq<T> {
    turned(m, 4, 8, c, s)
}

/// `m` followed by the rotation about the y axis that turns x towards z,
/// with cosine `c` and sine `s`: columns 0 and 2 are turned into each other.
pub open spec fn rotated_y<T: Scalar>(m: Seq<T>, c: T, s: T) -> Seq<T> {
    turned(m, 0, 8, c, s)
}

/// `m` followed by the rotation about the z axis that turns x towards y,
/// with cosine `c` and sine `s`: columns 0 and 1 are turned into each other.
pub open spec fn rotated_z<T: Scalar>(m: Seq<T>, c: T, s: T) -> Seq<T> {
    turned(m, 0, 4, c, s)
}

/// Whether `m` can be rotated about z, then x, then y, by the angles whose
/// cosines and sines are the components of `cos` and `sin`.
pub open spec fn rotated_req<T: Scalar>(m: Seq<T>, cos: Vec3<T>, sin: Vec3<T>) -> bool {
    &&& turned_req(m, 0, 4, cos.z, sin.z)
    &&& turned_req(rotated_z(m, cos.z, sin.z), 4, 8, cos.x, sin.x)
    &&& turned_req(rotated_x(rotated_z(m, cos.z, sin.z), cos.x, sin.x), 0, 8, cos.y, sin.y)
}

/// `m` rotated about z, then x, then y.
pub open spec fn rotated<T: Scalar>(m: Seq<T>, cos: Vec3<T>, sin: Vec3<T>) -> Seq<T> {
    rotated_y(rotated_x(rotated_z(m, cos.z, sin.z), cos.x, sin.x), cos.y, sin.y)
}

/// Whether `m` can be scaled by `v`.
pub open spec fn scaled_req<T: Scalar>(m: Seq<T>, v: Vec3<T>) -> bool {
    &&& m[0].mul_req(v.x) && m[1].mul_req(v.x) && m[2].mul_req(v.x)
    &&& m[4].mul_req(v.y) && m[5].mul_req(v.y) && m[6].mul_req(v.y)
    &&& m[8].mul_req(v.z) && m[9].mul_req(v.z) && m[10].mul_req(v.z)
}

/// `m` followed by a scaling by `v`: the first three rows of column 0 are
/// multiplied by `v.x`, of column 1 by `v.y`, of column 2 by `v.z`.
pub open spec fn scaled<T: Scalar>(m: Seq<T>, v: Vec3<T>) -> Seq<T> {
    m.update(0, m[0].mul_spec(v.x)).update(1, m[1].mul_spec(v.x)).update(
        2,
        m[2].mul_spec(v.x),
    ).update(4, m[4].mul_spec(v.y)).update(5, m[5].mul_spec(v.y)).update(
        6,
        m[6].mul_spec(v.y),
    ).update(8, m[8].mul_spec(v.z)).update(9, m[9].mul_spec(v.z)).update(10, m[10].mul_spec(v.z))
}

/// The cosine of the z angle times the negated sine of the x angle, which
/// two elements of the rotation block share.
pub open spec fn euler_shared<T: Scalar>(cos: Vec3<T>, sin: Vec3<T>) -> T {
    cos.z.mul_spec(sin.x.neg_spec())
}

/// Whether the rotation block of the angles with the given cosines and
/// sines can be computed.
pub open spec fn euler_req<T: Scalar>(cos: Vec3<T>, sin: Vec3<T>) -> bool {
    &&& sin.x.neg_req() && sin.y.neg_req() && sin.z.neg_req()
    &&& cos.z.mul_req(sin.x.neg_spec())
    &&& sin.z.mul_req(sin.x)
    &&& dot2_req(cos.z, cos.y, sin.z.mul_spec(sin.x), sin.y)
    &&& dot2_req(sin.z, cos.y, euler_shared(cos, sin), sin.y)
    &&& cos.x.mul_req(sin.y)
    &&& sin.z.neg_spec().mul_req(cos.x)
    &&& cos.z.mul_req(cos.x)
    &&& cos.z.mul_req(sin.y.neg_spec())
    &&& sin.z.mul_spec(sin.x).mul_req(cos.y)
    &&& cos.z.mul_spec(sin.y.neg_spec()).add_req(sin.z.mul_spec(sin.x).mul_spec(cos.y))
    &&& dot2_req(sin.z, sin.y.neg_spec(), euler_shared(cos, sin), cos.y)
    &&& cos.x.mul_req(cos.y)
}

/// Column 0 of the rotation block: `cz*cy + (sz*sx)*sy`,
/// `sz*cy + (cz*(-sx))*sy`, `cx*sy`.
pub open spec fn euler_column0<T: Scalar>(cos: Vec3<T>, sin: Vec3<T>) -> Vec3<T> {
    Vec3 {
        x: dot2_spec(cos.z, cos.y, sin.z.mul_spec(sin.x), sin.y),
        y: dot2_spec(sin.z, cos.y, euler_shared(cos, sin), sin.y),
        z: cos.x.mul_spec(sin.y),
    }
}

/// Column 1 of the rotation block: `(-sz)*cx`, `cz*cx`, `sx`.
pub open spec fn euler_column1<T: Scalar>(cos: Vec3<T>, sin: Vec3<T>) -> Vec3<T> {
    Vec3 { x: sin.z.neg_spec().mul_spec(cos.x), y: cos.z.mul_spec(cos.x), z: sin.x }
}

/// Column 2 of the rotation block: `cz*(-sy) + (sz*sx)*cy`,
/// `sz*(-sy) + (cz*(-sx))*cy`, `cx*cy`.
pub open spec fn euler_column2<T: Scalar>(cos: Vec3<T>, sin: Vec3<T>) -> Vec3<T> {
    Vec3 {
        x: cos.z.mul_spec(sin.y.neg_spec()).add_spec(sin.z.mul_spec(sin.x).mul_spec(cos.y)),
        y: dot2_spec(sin.z, sin.y.neg_spec(), euler_shared(cos, sin), cos.y),
        z: cos.x.mul_spec(cos.y),
    }
}

/// `m` with the first three rows of columns 0 to 2 overwritten by `c0`,
/// `c1` and `c2`.
pub open spec fn with_block<T>(m: Seq<T>, c0: Vec3<T>, c1: Vec3<T>, c2: Vec3<T>) -> Seq<T> {
    m.update(0, c0.x).update(1, c0.y).update(2, c0.z).update(4, c1.x).update(5, c1.y).update(
        6,
        c1.z,
    ).update(8, c2.x).update(9, c2.y).update(10, c2.z)
}

/// Whether the quotient `(a + b) / (c - d)` can be computed.
pub open spec fn ratio_req<T: Scalar>(a: T, b: T, c: T, d: T) -> bool {
    &&& a.add_req(b)
    &&& c.sub_req(d)
    &&& a.add_spec(b).div_req(c.sub_spec(d))
}

/// `(a + b) / (c - d)`.
pub open spec fn ratio<T: Scalar>(a: T, b: T, c: T, d: T) -> T {
    a.add_spec(b).div_spec(c.sub_spec(d))
}

/// Whether the quotient `n / (a - b)` can be computed.
pub open spec fn over_span_req<T: Scalar>(n: T, a: T, b: T) -> bool {
    a.sub_req(b) && n.div_req(a.sub_spec(b))
}

/// `n / (a - b)`.
pub open spec fn over_span<T: Scalar>(n: T, a: T, b: T) -> T {
    n.div_spec(a.sub_spec(b))
}

/// Whether the terms of the orthographic projection of the given box can
/// be computed.
pub open spec fn orthographic_req<T: Scalar>(
    left: T,
    right: T,
    bottom: T,
    top: T,
    z_near: T,
    z_far: T,
) -> bool {
    &&& over_span_req(whole::<T>(2), right, left)
    &&& ratio_req(left, right, left, right)
    &&& over_span_req(whole::<T>(2), top, bottom)
    &&& ratio_req(top, bottom, bottom, top)
    &&& over_span_req(whole::<T>(1), z_far, z_near)
    &&& over_span_req(z_near, z_near, z_far)
}

/// `m` with the six terms of the orthographic projection of the given box
/// overwritten: `2/(right-left)`, `2/(top-bottom)` and `1/(z_far-z_near)`
/// on the diagonal, and `(left+right)/(left-right)`,
/// `(top+bottom)/(bottom-top)` and `z_near/(z_near-z_far)` in the
/// translation column.
pub open spec fn orthographic<T: Scalar>(
    m: Seq<T>,
    left: T,
    right: T,
    bottom: T,
    top: T,
    z_near: T,
    z_far: T,
) -> Seq<T> {
    m.update(0, over_span(whole::<T>(2), right, left)).update(
        12,
        ratio(left, right, left, right),
    ).update(
        5,
        over_span(whole::<T>(2), top, bottom),
    ).update(13, ratio(top, bottom, bottom, top)).update(10, over_span(whole::<T>(1), z_far, z_near)).update(
        14,
        over_span(z_near, z_near, z_far),
    )
}

/// Whether the terms of the perspective projection can be computed.
pub open spec fn perspective_req<T: Scalar>(
    tan_half_fov: T,
    aspect: T,
    z_near: T,
    z_far: T,
) -> bool {
    &&& whole::<T>(1).div_req(tan_half_fov)
    &&& whole::<T>(1).div_spec(tan_half_fov).div_req(aspect)
    &&& over_span_req(z_far, z_far, z_near)
    &&& z_near.neg_req()
    &&& z_near.neg_spec().mul_req(z_far)
    &&& over_span_req(z_near.neg_spec().mul_spec(z_far), z_far, z_near)
}

/// `m` with the four terms of the perspective projection overwritten:
/// `(1/tan_half_fov)/aspect`, `1/tan_half_fov` and `z_far/(z_far-z_near)`
/// on the diagonal, and `((-z_near)*z_far)/(z_far-z_near)` at index 14.
pub open spec fn perspective<T: Scalar>(
    m: Seq<T>,
    tan_half_fov: T,
    aspect: T,
    z_near: T,
    z_far: T,
) -> Seq<T> {
    m.update(0, whole::<T>(1).div_spec(tan_half_fov).div_spec(aspect)).update(
        5,
        whole::<T>(1).div_spec(tan_half_fov),
    ).update(10, over_span(z_far, z_far, z_near)).update(
        14,
        over_span(z_near.neg_spec().mul_spec(z_far), z_far, z_near),
    )
}

impl<T: Scalar> Mat4<T> {
    /// The matrix whose elements are the first sixteen elements of `s`.
    pub closed spec fn from_seq(s: Seq<T>) -> Self {
        Mat4 {
            data: [
                s[0],
                s[1],
                s[2],
                s[3],
                s[4],
                s[5],
                s[6],
                s[7],
                s[8],
                s[9],
                s[10],
                s[11],
                s[12],
                s[13],
                s[14],
                s[15],
            ],
        }
    }

    /// A matrix has sixteen elements.
    pub proof fn lemma_len(self)
        ensures
            self@.len() == 16,
    {
    }

    /// The elements of a matrix made of sixteen elements are those elements.
    pub proof fn lemma_from_seq(s: Seq<T>)
        requires
            s.len() == 16,
        ensures
            Self::from_seq(s)@ == s,
    {
        assert(Self::from_seq(s)@ =~= s);
    }

    /// A matrix is fixed by its elements.
    pub proof fn lemma_by_view(self, other: Self)
        requires
            self@ == other@,
        ensures
            self == other,
    {
        assert(self.data =~= other.data);
    }

    /// Makes the identity matrix.
    pub fn identity() -> (r: Self)
        ensures
            exact::<T>() ==> r@ == identity_seq::<T>(),
            diagonal(r@),
    {
        let one: T = whole_of(1i8);
        let zero: T = whole_of(0i8);
        let r = Mat4 {
            data: [
                one,
                zero,
                zero,
                zero,
                zero,
                one,
                zero,
                zero,
                zero,
                zero,
                one,
                zero,
                zero,
                zero,
                zero,
                one,
            ],
        };
        assert(exact::<T>() ==> r@ =~= identity_seq::<T>());
        r
    }

    /// Makes the identity matrix.
    pub fn new() -> (r: Self)
        ensures
            exact::<T>() ==> r@ == identity_seq::<T>(),
            diagonal(r@),
    {
        Self::identity()
    }

    /// Makes a matrix of the elements of an array, column by column.
    pub fn from_array(a: [T; 16]) -> (r: Self)
        ensures
            r@ == a@,
    {
        Mat4 { data: a }
    }

    /// Returns the elements as an array, column by column.
    pub fn as_array(&self) -> (a: [T; 16])
        ensures
            a@ == self@,
    {
        self.data
    }

    /// Follows the matrix by a translation by `v`.
    pub fn translate(&mut self, v: Vec3<T>)
        requires
            numeric::<T>(),
            exact::<T>() ==> translated_req(old(self)@, v),
        ensures
            exact::<T>() ==> final(self)@ == translated(old(self)@, v),
            same_outside(old(self)@, final(self)@, set![12, 13, 14]),
    {
        let m = self.data;
        self.data[12] = m[12] + dot3(m[0], v.x, m[4], v.y, m[8], v.z);
        self.data[13] = m[13] + dot3(m[1], v.x, m[5], v.y, m[9], v.z);
        self.data[14] = m[14] + dot3(m[2], v.x, m[6], v.y, m[10], v.z);
        assert(exact::<T>() ==> self@ =~= translated(old(self)@, v));
    }

    /// Turns the columns that start at the indices `p` and `q` into each
    /// other.
    fn turn(&mut self, p: usize, q: usize, c: T, s: T)
        requires
            numeric::<T>(),
            p + 3 <= q,
            q + 3 <= 16,
            exact::<T>() ==> turned_req(old(self)@, p as int, q as int, c, s),
        ensures
            exact::<T>() ==> final(self)@ == turned(old(self)@, p as int, q as int, c, s),
            same_outside(
                old(self)@,
                final(self)@,
                set![p as int, p + 1, p + 2, q as int, q + 1, q + 2],
            ),
    {
        let m = self.data;
        let n = s.neg();
        self.data[p] = dot2(m[p], c, m[q], s);
        self.data[q] = dot2(m[p], n, m[q], c);
        self.data[p + 1] = dot2(m[p + 1], c, m[q + 1], s);
        self.data[q + 1] = dot2(m[p + 1], n, m[q + 1], c);
        self.data[p + 2] = dot2(m[p + 2], c, m[q + 2], s);
        self.data[q + 2] = dot2(m[p + 2], n, m[q + 2], c);
        assert(exact::<T>() ==> self@ =~= turned(old(self)@, p as int, q as int, c, s));
    }

    /// Follows the matrix by a rotation about the x axis that turns y towards
    /// z, given the cosine `c` and the sine `s` of the angle.
    pub fn rotate_x(&mut self, c: T, s: T)
        requires
            numeric::<T>(),
            exact::<T>() ==> turned_req(old(self)@, 4, 8, c, s),
        ensures
            exact::<T>() ==> final(self)@ == rotated_x(old(self)@, c, s),
            same_outside(old(self)@, final(self)@, set![4, 5, 6, 8, 9, 10]),
    {
        self.turn(4, 8, c, s);
    }

    /// Follows the matrix by a rotation about the y axis that turns x towards
    /// z, given the cosine `c` and the sine `s` of the angle.
    pub fn rotate_y(&mut self, c: T, s: T)
        requires
            numeric::<T>(),
            exact::<T>() ==> turned_req(old(self)@, 0, 8, c, s),
        ensures
            exact::<T>() ==> final(self)@ == rotated_y(old(self)@, c, s),
            same_outside(old(self)@, final(self)@, set![0, 1, 2, 8, 9, 10]),
    {
        self.turn(0, 8, c, s);
    }

    /// Follows the matrix by a rotation about the z axis that turns x towards
    /// y, given the cosine `c` and the sine `s` of the angle.
    pub fn rotate_z(&mut self, c: T, s: T)
        requires
            numeric::<T>(),
            exact::<T>() ==> turned_req(old(self)@, 0, 4, c, s),
        ensures
            exact::<T>() ==> final(self)@ == rotated_z(old(self)@, c, s),
            same_outside(old(self)@, final(self)@, set![0, 1, 2, 4, 5, 6]),
    {
        self.turn(0, 4, c, s);
    }

    /// Rotates about the z axis, then the x axis, then the y axis.  The
    /// components of `cos` and `sin` are the cosines and sines of the angles
    /// about the axes they are named after.
    pub fn rotate(&mut self, cos: Vec3<T>, sin: Vec3<T>)
        requires
            numeric::<T>(),
            exact::<T>() ==> rotated_req(old(self)@, cos, sin),
        ensures
            exact::<T>() ==> final(self)@ == rotated(old(self)@, cos, sin),
            same_outside(old(self)@, final(self)@, linear_part()),
    {
        self.rotate_z(cos.z, sin.z);
        self.rotate_x(cos.x, sin.x);
        self.rotate_y(cos.y, sin.y);
    }

    /// Follows the matrix by a scaling by `v`.
    pub fn scale(&mut self, v: Vec3<T>)
        requires
            numeric::<T>(),
            exact::<T>() ==> scaled_req(old(self)@, v),
        ensures
            exact::<T>() ==> final(self)@ == scaled(old(self)@, v),
            same_outside(old(self)@, final(self)@, linear_part()),
    {
        let m = self.data;
        self.data[0] = m[0] * v.x;
        self.data[1] = m[1] * v.x;
        self.data[2] = m[2] * v.x;
        self.data[4] = m[4] * v.y;
        self.data[5] = m[5] * v.y;
        self.data[6] = m[6] * v.y;
        self.data[8] = m[8] * v.z;
        self.data[9] = m[9] * v.z;
        self.data[10] = m[10] * v.z;
        assert(exact::<T>() ==> self@ =~= scaled(old(self)@, v));
    }

    /// Overwrites the translation column with `v`.  Nothing else changes.
    pub fn set_translation(&mut self, v: Vec3<T>)
        ensures
            final(self)@ == old(self)@.update(12, v.x).update(13, v.y).update(14, v.z),
    {
        self.data[12] = v.x;
        self.data[13] = v.y;
        self.data[14] = v.z;
        assert(self@ =~= old(self)@.update(12, v.x).update(13, v.y).update(14, v.z));
    }

    /// Overwrites the first three elements of the diagonal with `v`.  Nothing
    /// else changes.
    pub fn set_scaling(&mut self, v: Vec3<T>)
        ensures
            final(self)@ == old(self)@.update(0, v.x).update(5, v.y).update(10, v.z),
    {
        self.data[0] = v.x;
        self.data[5] = v.y;
        self.data[10] = v.z;
        assert(self@ =~= old(self)@.update(0, v.x).update(5, v.y).update(10, v.z));
    }

    /// Overwrites the first three rows of columns 0 to 2 with the rotation
    /// block of three angles, about z, then x, then y.  The components of
    /// `cos` and `sin` are the cosines and sines of the angles about the
    /// axes they are named after.  Nothing else changes.
    pub fn set_rotation(&mut self, cos: Vec3<T>, sin: Vec3<T>)
        requires
            numeric::<T>(),
            exact::<T>() ==> euler_req(cos, sin),
        ensures
            exact::<T>() ==> final(self)@ == with_block(
                old(self)@,
                euler_column0(cos, sin),
                euler_column1(cos, sin),
                euler_column2(cos, sin),
            ),
            same_outside(old(self)@, final(self)@, linear_part()),
            final(self)@[6] == sin.x,
    {
        let (sx, sy, sz) = (sin.x, sin.y, sin.z);
        let (cx, cy, cz) = (cos.x, cos.y, cos.z);
        let cz_nsx = cz * sx.neg();
        self.data[0] = cz * cy + sz * sx * sy;
        self.data[4] = sz.neg() * cx;
        self.data[8] = cz * sy.neg() + sz * sx * cy;
        self.data[1] = sz * cy + cz_nsx * sy;
        self.data[5] = cz * cx;
        self.data[9] = sz * sy.neg() + cz_nsx * cy;
        self.data[2] = cx * sy;
        self.data[6] = sx;
        self.data[10] = cx * cy;
        assert(exact::<T>() ==> self@ =~= with_block(
            old(self)@,
            euler_column0(cos, sin),
            euler_column1(cos, sin),
            euler_column2(cos, sin),
        ));
    }

    /// Overwrites the six terms of the orthographic projection of the box
    /// between `left` and `right`, `bottom` and `top`, `z_near` and `z_far`.
    /// Nothing else changes.
    pub fn set_orthographic(&mut self, left: T, right: T, bottom: T, top: T, z_near: T, z_far: T)
        requires
            numeric::<T>(),
            exact::<T>() ==> orthographic_req(left, right, bottom, top, z_near, z_far),
        ensures
            exact::<T>() ==> final(self)@ == orthographic(
                old(self)@,
                left,
                right,
                bottom,
                top,
                z_near,
                z_far,
            ),
            same_outside(old(self)@, final(self)@, set![0, 5, 10, 12, 13, 14]),
    {
        let one: T = whole_of(1i8);
        let two: T = whole_of(2i8);
        let a = two / (right - left);
        let b = (left + right) / (left - right);
        let c = two / (top - bottom);
        let d = (top + bottom) / (bottom - top);
        let e = one / (z_far - z_near);
        let f = z_near / (z_near - z_far);
        self.data[0] = a;
        self.data[12] = b;
        self.data[5] = c;
        self.data[13] = d;
        self.data[10] = e;
        self.data[14] = f;
        assert(exact::<T>() ==> self@ =~= orthographic(
            old(self)@,
            left,
            right,
            bottom,
            top,
            z_near,
            z_far,
        ));
    }

    /// Overwrites the four terms of the perspective projection with the
    /// given aspect ratio and depth range, for a field of view whose half
    /// angle has the tangent `tan_half_fov`.  Nothing else changes.
    pub fn set_perspective(&mut self, tan_half_fov: T, aspect: T, z_near: T, z_far: T)
        requires
            numeric::<T>(),
            exact::<T>() ==> perspective_req(tan_half_fov, aspect, z_near, z_far),
        ensures
            exact::<T>() ==> final(self)@ == perspective(
                old(self)@,
                tan_half_fov,
                aspect,
                z_near,
                z_far,
            ),
            same_outside(old(self)@, final(self)@, set![0, 5, 10, 14]),
    {
        let one: T = whole_of(1i8);
        let b = one / tan_half_fov;
        let a = b / aspect;
        let c = z_far / (z_far - z_near);
        let d = z_near.neg() * z_far / (z_far - z_near);
        self.data[0] = a;
        self.data[5] = b;
        self.data[10] = c;
        self.data[14] = d;
        assert(exact::<T>() ==> self@ =~= perspective(
            old(self)@,
            tan_half_fov,
            aspect,
            z_near,
            z_far,
        ));
    }
}

impl<T: Scalar> vstd::std_specs::ops::MulSpecImpl<Mat4<T>> for Mat4<T> {
    open spec fn obeys_mul_spec() -> bool {
        exact::<T>()
    }

    open spec fn mul_req(self, rhs: Mat4<T>) -> bool {
        numeric::<T>() && (exact::<T>() ==> product_req(self@, rhs@))
    }

    open spec fn mul_spec(self, rhs: Mat4<T>) -> Mat4<T> {
        Mat4::from_seq(product(self@, rhs@))
    }
}

/// The product of two matrices; see `product`.
impl<T: Scalar> Mul<Mat4<T>> for Mat4<T> {
    type Output = Mat4<T>;

    fn mul(self, rhs: Mat4<T>) -> (r: Mat4<T>)
        ensures
            exact::<T>() ==> r@ == product(self@, rhs@),
    {
        let a = self.data;
        let b = rhs.data;
        proof {
            if exact::<T>() {
                assert(product_entry_req(self@, rhs@, 0, 0));
                assert(product_entry_req(self@, rhs@, 0, 1));
                assert(product_entry_req(self@, rhs@, 0, 2));
                assert(product_entry_req(self@, rhs@, 0, 3));
                assert(product_entry_req(self@, rhs@, 1, 0));
                assert(product_entry_req(self@, rhs@, 1, 1));
                assert(product_entry_req(self@, rhs@, 1, 2));
                assert(product_entry_req(self@, rhs@, 1, 3));
                assert(product_entry_req(self@, rhs@, 2, 0));
                assert(product_entry_req(self@, rhs@, 2, 1));
                assert(product_entry_req(self@, rhs@, 2, 2));
                assert(product_entry_req(self@, rhs@, 2, 3));
                assert(product_entry_req(self@, rhs@, 3, 0));
                assert(product_entry_req(self@, rhs@, 3, 1));
                assert(product_entry_req(self@, rhs@, 3, 2));
                assert(product_entry_req(self@, rhs@, 3, 3));
            }
        }
        let r = Mat4 {
            data: [
                dot4(a[0], b[0], a[1], b[4], a[2], b[8], a[3], b[12]),
                dot4(a[0], b[1], a[1], b[5], a[2], b[9], a[3], b[13]),
                dot4(a[0], b[2], a[1], b[6], a[2], b[10], a[3], b[14]),
                dot4(a[0], b[3], a[1], b[7], a[2], b[11], a[3], b[15]),
                dot4(a[4], b[0], a[5], b[4], a[6], b[8], a[7], b[12]),
                dot4(a[4], b[1], a[5], b[5], a[6], b[9], a[7], b[13]),
                dot4(a[4], b[2], a[5], b[6], a[6], b[10], a[7], b[14]),
                dot4(a[4], b[3], a[5], b[7], a[6], b[11], a[7], b[15]),
                dot4(a[8], b[0], a[9], b[4], a[10], b[8], a[11], b[12]),
                dot4(a[8], b[1], a[9], b[5], a[10], b[9], a[11], b[13]),
                dot4(a[8], b[2], a[9], b[6], a[10], b[10], a[11], b[14]),
                dot4(a[8], b[3], a[9], b[7], a[10], b[11], a[11], b[15]),
                dot4(a[12], b[0], a[13], b[4], a[14], b[8], a[15], b[12]),
                dot4(a[12], b[1], a[13], b[5], a[14], b[9], a[15], b[13]),
                dot4(a[12], b[2], a[13], b[6], a[14], b[10], a[15], b[14]),
                dot4(a[12], b[3], a[13], b[7], a[14], b[11], a[15], b[15]),
            ],
        };
        proof {
            if exact::<T>() {
                assert(r@ =~= product(self@, rhs@));
                Self::lemma_from_seq(product(self@, rhs@));
                r.lemma_by_view(Mat4::from_seq(product(self@, rhs@)));
            }
        }
        r
    }
}

impl<T: Scalar> vstd::std_specs::ops::MulSpecImpl<Vec3<T>> for Mat4<T> {
    open spec fn obeys_mul_spec() -> bool {
        exact::<T>()
    }

    open spec fn mul_req(self, rhs: Vec3<T>) -> bool {
        numeric::<T>() && (exact::<T>() ==> transform_req(self@, rhs))
    }

    open spec fn mul_spec(self, rhs: Vec3<T>) -> Vec3<T> {
        transform(self@, rhs)
    }
}

/// The linear part of a matrix applied to a vector; see `transform`.
impl<T: Scalar> Mul<Vec3<T>> for Mat4<T> {
    type Output = Vec3<T>;

    fn mul(self, rhs: Vec3<T>) -> (r: Vec3<T>)
        ensures
            exact::<T>() ==> r == transform(self@, rhs),
    {
        let m = self.data;
        Vec3 {
            x: dot3(m[0], rhs.x, m[4], rhs.y, m[8], rhs.z),
            y: dot3(m[1], rhs.x, m[5], rhs.y, m[9], rhs.z),
            z: dot3(m[2], rhs.x, m[6], rhs.y, m[10], rhs.z),
        }
    }
}

/// One element of the product with the identity, on either side, is the
/// element of the other matrix at the same place.
proof fn lemma_identity_entry<T: Whole>(m: Seq<T>, c: int, r: int)
    requires
        m.len() == 16,
        0 <= c < 4,
        0 <= r < 4,
    ensures
        product_entry_req(identity_seq::<T>(), m, c, r),
        product_entry(identity_seq::<T>(), m, c, r) == m[c * 4 + r],
        product_entry_req(m, identity_seq::<T>(), c, r),
        product_entry(m, identity_seq::<T>(), c, r) == m[c * 4 + r],
{
    let id = identity_seq::<T>();
    let one = whole::<T>(1);
    let zero = whole::<T>(0);
    T::lemma_whole(1i8);
    T::lemma_whole(0i8);
    assert(forall|i: int| 0 <= i < 16 ==> #[trigger] id[i] == (if i % 5 == 0 { one } else { zero }));
    let (y0, y1, y2, y3) = (m[r], m[4 + r], m[8 + r], m[12 + r]);
    let (x0, x1, x2, x3) = (m[c * 4], m[c * 4 + 1], m[c * 4 + 2], m[c * 4 + 3]);
    if c == 0 {
        assert(id[0] == one && id[1] == zero && id[2] == zero && id[3] == zero);
        lemma_dot4_steps(
            one, y0, zero, y1, zero, y2, zero, y3,
            y0, zero, zero, zero,
            y0, y0, y0,
        );
    } else if c == 1 {
        assert(id[4] == zero && id[5] == one && id[6] == zero && id[7] == zero);
        lemma_dot4_steps(
            zero, y0, one, y1, zero, y2, zero, y3,
            zero, y1, zero, zero,
            y1, y1, y1,
        );
    } else if c == 2 {
        assert(id[8] == zero && id[9] == zero && id[10] == one && id[11] == zero);
        lemma_dot4_steps(
            zero, y0, zero, y1, one, y2, zero, y3,
            zero, zero, y2, zero,
            zero, y2, y2,
        );
    } else {
        assert(id[12] == zero && id[13] == zero && id[14] == zero && id[15] == one);
        lemma_dot4_steps(
            zero, y0, zero, y1, zero, y2, one, y3,
            zero, zero, zero, y3,
            zero, zero, y3,
        );
    }
    if r == 0 {
        assert(id[0] == one && id[4] == zero && id[8] == zero && id[12] == zero);
        lemma_dot4_steps(
            x0, one, x1, zero, x2, zero, x3, zero,
            x0, zero, zero, zero,
            x0, x0, x0,
        );
    } else if r == 1 {
        assert(id[1] == zero && id[5] == one && id[9] == zero && id[13] == zero);
        lemma_dot4_steps(
            x0, zero, x1, one, x2, zero, x3, zero,
            zero, x1, zero, zero,
            x1, x1, x1,
        );
    } else if r == 2 {
        assert(id[2] == zero && id[6] == zero && id[10] == one && id[14] == zero);
        lemma_dot4_steps(
            x0, zero, x1, zero, x2, one, x3, zero,
            zero, zero, x2, zero,
            zero, x2, x2,
        );
    } else {
        assert(id[3] == zero && id[7] == zero && id[11] == zero && id[15] == one);
        lemma_dot4_steps(
            x0, zero, x1, zero, x2, zero, x3, one,
            zero, zero, zero, x3,
            zero, zero, x3,
        );
    }
}

/// The product of the identity with sixteen elements, on either side, can
/// always be computed and is those elements.
proof fn lemma_identity_seq<T: Whole>(m: Seq<T>)
    requires
        m.len() == 16,
    ensures
        product_req(identity_seq::<T>(), m),
        product(identity_seq::<T>(), m) == m,
        product_req(m, identity_seq::<T>()),
        product(m, identity_seq::<T>()) == m,
{
    let id = identity_seq::<T>();
    assert forall|c: int, r: int| 0 <= c < 4 && 0 <= r < 4 implies #[trigger] product_entry_req(
        id,
        m,
        c,
        r,
    ) by {
        lemma_identity_entry(m, c, r);
    }
    assert forall|c: int, r: int| 0 <= c < 4 && 0 <= r < 4 implies #[trigger] product_entry_req(
        m,
        id,
        c,
        r,
    ) by {
        lemma_identity_entry(m, c, r);
    }
    assert forall|i: int| 0 <= i < 16 implies #[trigger] product(id, m)[i] == m[i] by {
        lemma_identity_entry(m, i / 4, i % 4);
    }
    assert forall|i: int| 0 <= i < 16 implies #[trigger] product(m, id)[i] == m[i] by {
        lemma_identity_entry(m, i / 4, i % 4);
    }
    assert(product(id, m) =~= m);
    assert(product(m, id) =~= m);
}

/// Multiplying by the identity matrix, on either side, can always be done
/// and changes nothing.
pub proof fn lemma_identity_product<T: Whole>(id: Mat4<T>, m: Mat4<T>)
    requires
        id@ == identity_seq::<T>(),
    ensures
        id.mul_req(m),
        id.mul_spec(m) == m,
        m.mul_req(id),
        m.mul_spec(id) == m,
{
    T::lemma_exact();
    m.lemma_len();
    lemma_identity_seq(m@);
    Mat4::<T>::lemma_from_seq(m@);
    m.lemma_by_view(Mat4::from_seq(m@));
}

/// Whether the fourth row of `m` is 0 under the linear part, as it is in
/// every affine transform.
pub open spec fn is_affine<T: Scalar>(m: Seq<T>) -> bool {
    m[3] == whole::<T>(0) && m[7] == whole::<T>(0) && m[11] == whole::<T>(0)
}

/// The elements of the translation by `v`: the identity with `v` in the
/// translation column.
pub open spec fn translation_seq<T: Scalar>(v: Vec3<T>) -> Seq<T> {
    identity_seq::<T>().update(12, v.x).update(13, v.y).update(14, v.z)
}

/// The elements of the scaling by `v`: the identity with `v` on the
/// diagonal.
pub open spec fn scaling_seq<T: Scalar>(v: Vec3<T>) -> Seq<T> {
    identity_seq::<T>().update(0, v.x).update(5, v.y).update(10, v.z)
}

/// The elements of the matrix that turns the axes `i` and `j` into each
/// other by the cosine `c` and the sine `s`: the identity with `c`, `s` in
/// rows `i`, `j` of column `i` and `-s`, `c` in rows `i`, `j` of column `j`.
pub open spec fn turn_seq<T: Scalar>(i: int, j: int, c: T, s: T) -> Seq<T> {
    identity_seq::<T>().update(i * 5, c).update(i * 4 + j, s).update(j * 4 + i, s.neg_spec()).update(
        j * 5,
        c,
    )
}

/// One element of the product of the translation by `v` and `m`.
proof fn lemma_translation_entry<T: Whole>(m: Seq<T>, v: Vec3<T>, c: int, r: int)
    requires
        m.len() == 16,
        is_affine(m),
        translated_req(m, v),
        0 <= c < 4,
        0 <= r < 4,
    ensures
        product_entry_req(translation_seq(v), m, c, r),
        product_entry(translation_seq(v), m, c, r) == translated(m, v)[c * 4 + r],
{
    let id = identity_seq::<T>();
    let one = whole::<T>(1);
    let zero = whole::<T>(0);
    T::lemma_whole(1i8);
    T::lemma_whole(0i8);
    assert(forall|i: int| 0 <= i < 16 ==> #[trigger] id[i] == (if i % 5 == 0 { one } else { zero }));
    let (y0, y1, y2, y3) = (m[r], m[4 + r], m[8 + r], m[12 + r]);
    let t = translation_seq(v);
    let after = translated(m, v);
    if c == 0 {
        assert(t[0] == one && t[1] == zero && t[2] == zero && t[3] == zero);
        assert(after[0 + r] == m[0 + r]);
        lemma_dot4_steps(
            one, y0, zero, y1, zero, y2, zero, y3,
            y0, zero, zero, zero,
            y0, y0, y0,
        );
    } else if c == 1 {
        assert(t[4] == zero && t[5] == one && t[6] == zero && t[7] == zero);
        assert(after[4 + r] == m[4 + r]);
        lemma_dot4_steps(
            zero, y0, one, y1, zero, y2, zero, y3,
            zero, y1, zero, zero,
            y1, y1, y1,
        );
    } else if c == 2 {
        assert(t[8] == zero && t[9] == zero && t[10] == one && t[11] == zero);
        assert(after[8 + r] == m[8 + r]);
        lemma_dot4_steps(
            zero, y0, zero, y1, one, y2, zero, y3,
            zero, zero, y2, zero,
            zero, y2, y2,
        );
    } else {
        assert(t[12] == v.x && t[13] == v.y && t[14] == v.z && t[15] == one);
        if r < 3 {
            let moved = if r == 0 {
                transform(m, v).x
            } else if r == 1 {
                transform(m, v).y
            } else {
                transform(m, v).z
            };
            assert(dot3_req(y0, v.x, y1, v.y, y2, v.z));
            assert(moved == dot3_spec(y0, v.x, y1, v.y, y2, v.z));
            assert(y3.add_req(moved));
            assert(after[12 + r] == y3.add_spec(moved));
            T::lemma_mul_value(y0, v.x);
            T::lemma_mul_value(y1, v.y);
            T::lemma_mul_value(y2, v.z);
            lemma_dot2_value(y0, v.x, y1, v.y);
            lemma_dot3_value(y0, v.x, y1, v.y, y2, v.z);
            T::lemma_add_value(y3, moved);
            assert(v.x.value() * y0.value() == y0.value() * v.x.value()) by (nonlinear_arith);
            assert(v.y.value() * y1.value() == y1.value() * v.y.value()) by (nonlinear_arith);
            assert(v.z.value() * y2.value() == y2.value() * v.z.value()) by (nonlinear_arith);
            lemma_dot4_steps(
                v.x, y0, v.y, y1, v.z, y2, one, y3,
                y0.mul_spec(v.x), y1.mul_spec(v.y), y2.mul_spec(v.z), y3,
                dot2_spec(y0, v.x, y1, v.y), moved, y3.add_spec(moved),
            );
        } else {
            assert(y0 == zero && y1 == zero && y2 == zero);
            assert(after[15] == m[15]);
            assert(v.x.value() * y0.value() == 0 && v.y.value() * y1.value() == 0 && v.z.value()
                * y2.value() == 0) by (nonlinear_arith)
                requires
                    y0.value() == 0 && y1.value() == 0 && y2.value() == 0,
            ;
            lemma_dot4_steps(
                v.x, y0, v.y, y1, v.z, y2, one, y3,
                zero, zero, zero, y3,
                zero, zero, y3,
            );
        }
    }
}

/// Translating an affine matrix multiplies it by a translation: the matrix
/// that `translate` leaves is the product of the translation by `v` and the
/// matrix it found, which applies the translation first.
pub proof fn lemma_translate_is_product<T: Whole>(m: Seq<T>, v: Vec3<T>)
    requires
        m.len() == 16,
        is_affine(m),
        translated_req(m, v),
    ensures
        product_req(translation_seq(v), m),
        product(translation_seq(v), m) == translated(m, v),
{
    let t = translation_seq(v);
    assert forall|c: int, r: int| 0 <= c < 4 && 0 <= r < 4 implies #[trigger] product_entry_req(
        t,
        m,
        c,
        r,
    ) by {
        lemma_translation_entry(m, v, c, r);
    }
    assert forall|i: int| 0 <= i < 16 implies #[trigger] product(t, m)[i] == translated(m, v)[i] by {
        lemma_translation_entry(m, v, i / 4, i % 4);
    }
    assert(product(t, m) =~= translated(m, v));
}

/// One element of the product of the scaling by `v` and `m`.
proof fn lemma_scaling_entry<T: Whole>(m: Seq<T>, v: Vec3<T>, c: int, r: int)
    requires
        m.len() == 16,
        is_affine(m),
        scaled_req(m, v),
        0 <= c < 4,
        0 <= r < 4,
    ensures
        product_entry_req(scaling_seq(v), m, c, r),
        product_entry(scaling_seq(v), m, c, r) == scaled(m, v)[c * 4 + r],
{
    let id = identity_seq::<T>();
    let one = whole::<T>(1);
    let zero = whole::<T>(0);
    T::lemma_whole(1i8);
    T::lemma_whole(0i8);
    assert(forall|i: int| 0 <= i < 16 ==> #[trigger] id[i] == (if i % 5 == 0 { one } else { zero }));
    let (y0, y1, y2, y3) = (m[r], m[4 + r], m[8 + r], m[12 + r]);
    let t = scaling_seq(v);
    let after = scaled(m, v);
    if c == 0 {
        assert(t[0] == v.x && t[1] == zero && t[2] == zero && t[3] == zero);
        assert(v.x.value() * y0.value() == y0.value() * v.x.value()) by (nonlinear_arith);
        if r < 3 {
            assert(y0.mul_req(v.x));
            assert(after[0 + r] == y0.mul_spec(v.x));
            T::lemma_mul_value(y0, v.x);
            lemma_dot4_steps(
                v.x, y0, zero, y1, zero, y2, zero, y3,
                y0.mul_spec(v.x), zero, zero, zero,
                y0.mul_spec(v.x), y0.mul_spec(v.x), y0.mul_spec(v.x),
            );
        } else {
            assert(y0 == zero);
            assert(after[3] == m[3]);
            assert(v.x.value() * y0.value() == 0) by (nonlinear_arith)
                requires
                    y0.value() == 0,
            ;
            lemma_dot4_steps(
                v.x, y0, zero, y1, zero, y2, zero, y3,
                zero, zero, zero, zero,
                zero, zero, zero,
            );
        }
    } else if c == 1 {
        assert(t[4] == zero && t[5] == v.y && t[6] == zero && t[7] == zero);
        assert(v.y.value() * y1.value() == y1.value() * v.y.value()) by (nonlinear_arith);
        if r < 3 {
            assert(y1.mul_req(v.y));
            assert(after[4 + r] == y1.mul_spec(v.y));
            T::lemma_mul_value(y1, v.y);
            lemma_dot4_steps(
                zero, y0, v.y, y1, zero, y2, zero, y3,
                zero, y1.mul_spec(v.y), zero, zero,
                y1.mul_spec(v.y), y1.mul_spec(v.y), y1.mul_spec(v.y),
            );
        } else {
            assert(y1 == zero);
            assert(after[7] == m[7]);
            assert(v.y.value() * y1.value() == 0) by (nonlinear_arith)
                requires
                    y1.value() == 0,
            ;
            lemma_dot4_steps(
                zero, y0, v.y, y1, zero, y2, zero, y3,
                zero, zero, zero, zero,
                zero, zero, zero,
            );
        }
    } else if c == 2 {
        assert(t[8] == zero && t[9] == zero && t[10] == v.z && t[11] == zero);
        assert(v.z.value() * y2.value() == y2.value() * v.z.value()) by (nonlinear_arith);
        if r < 3 {
            assert(y2.mul_req(v.z));
            assert(after[8 + r] == y2.mul_spec(v.z));
            T::lemma_mul_value(y2, v.z);
            lemma_dot4_steps(
                zero, y0, zero, y1, v.z, y2, zero, y3,
                zero, zero, y2.mul_spec(v.z), zero,
                zero, y2.mul_spec(v.z), y2.mul_spec(v.z),
            );
        } else {
            assert(y2 == zero);
            assert(after[11] == m[11]);
            assert(v.z.value() * y2.value() == 0) by (nonlinear_arith)
                requires
                    y2.value() == 0,
            ;
            lemma_dot4_steps(
                zero, y0, zero, y1, v.z, y2, zero, y3,
                zero, zero, zero, zero,
                zero, zero, zero,
            );
        }
    } else {
        assert(t[12] == zero && t[13] == zero && t[14] == zero && t[15] == one);
        assert(after[12 + r] == m[12 + r]);
        lemma_dot4_steps(
            zero, y0, zero, y1, zero, y2, one, y3,
            zero, zero, zero, y3,
            zero, zero, y3,
        );
    }
}

/// Scaling an affine matrix multiplies it by a scaling: the matrix that
/// `scale` leaves is the product of the scaling by `v` and the matrix it
/// found, which applies the scaling first.
pub proof fn lemma_scale_is_product<T: Whole>(m: Seq<T>, v: Vec3<T>)
    requires
        m.len() == 16,
        is_affine(m),
        scaled_req(m, v),
    ensures
        product_req(scaling_seq(v), m),
        product(scaling_seq(v), m) == scaled(m, v),
{
    let t = scaling_seq(v);
    assert forall|c: int, r: int| 0 <= c < 4 && 0 <= r < 4 implies #[trigger] product_entry_req(
        t,
        m,
        c,
        r,
    ) by {
        lemma_scaling_entry(m, v, c, r);
    }
    assert forall|i: int| 0 <= i < 16 implies #[trigger] product(t, m)[i] == scaled(m, v)[i] by {
        lemma_scaling_entry(m, v, i / 4, i % 4);
    }
    assert(product(t, m) =~= scaled(m, v));
}

/// One element of the product of a turn and `m`.
proof fn lemma_turn_entry<T: Whole>(m: Seq<T>, i: int, j: int, c: T, s: T, col: int, r: int)
    requires
        m.len() == 16,
        is_affine(m),
        0 <= i < j < 3,
        turned_req(m, i * 4, j * 4, c, s),
        0 <= col < 4,
        0 <= r < 4,
    ensures
        product_entry_req(turn_seq(i, j, c, s), m, col, r),
        product_entry(turn_seq(i, j, c, s), m, col, r) == turned(m, i * 4, j * 4, c, s)[col * 4
            + r],
{
    let id = identity_seq::<T>();
    let one = whole::<T>(1);
    let zero = whole::<T>(0);
    T::lemma_whole(1i8);
    T::lemma_whole(0i8);
    assert(forall|i: int| 0 <= i < 16 ==> #[trigger] id[i] == (if i % 5 == 0 { one } else { zero }));
    let (y0, y1, y2, y3) = (m[r], m[4 + r], m[8 + r], m[12 + r]);
    let t = turn_seq(i, j, c, s);
    let n = s.neg_spec();
    assert(forall|k: int|
        0 <= k < 16 ==> #[trigger] t[k] == (if k == i * 5 || k == j * 5 {
            c
        } else if k == i * 4 + j {
            s
        } else if k == j * 4 + i {
            n
        } else {
            id[k]
        }));
    let a = m[i * 4 + r];
    let b = m[j * 4 + r];
    let after = turned(m, i * 4, j * 4, c, s);
    assert(c.value() * a.value() == a.value() * c.value()) by (nonlinear_arith);
    assert(s.value() * b.value() == b.value() * s.value()) by (nonlinear_arith);
    assert(n.value() * a.value() == a.value() * n.value()) by (nonlinear_arith);
    assert(c.value() * b.value() == b.value() * c.value()) by (nonlinear_arith);
    if r < 3 {
        assert(turned_pair_req(a, b, c, s));
    } else {
        assert(a == zero && b == zero);
        assert(c.value() * a.value() == 0 && s.value() * b.value() == 0 && n.value() * a.value()
            == 0 && c.value() * b.value() == 0) by (nonlinear_arith)
            requires
                a.value() == 0 && b.value() == 0,
        ;
    }
    if i == 0 && j == 1 {
        if col == 0 {
            assert(t[0] == c && t[1] == s && t[2] == zero && t[3] == zero);
            if r < 3 {
                assert(after[0 + r] == dot2_spec(a, c, b, s));
                T::lemma_mul_value(a, c);
                T::lemma_mul_value(b, s);
                lemma_dot2_value(a, c, b, s);
                lemma_dot4_steps(
                    c, y0, s, y1, zero, y2, zero, y3,
                    a.mul_spec(c), b.mul_spec(s), zero, zero,
                    dot2_spec(a, c, b, s), dot2_spec(a, c, b, s), dot2_spec(a, c, b, s),
                );
            } else {
                assert(after[3] == m[3]);
                lemma_dot4_steps(
                    c, y0, s, y1, zero, y2, zero, y3,
                    zero, zero, zero, zero,
                    zero, zero, zero,
                );
            }
        } else if col == 1 {
            assert(t[4] == n && t[5] == c && t[6] == zero && t[7] == zero);
            if r < 3 {
                assert(after[4 + r] == dot2_spec(a, n, b, c));
                T::lemma_mul_value(a, n);
                T::lemma_mul_value(b, c);
                lemma_dot2_value(a, n, b, c);
                lemma_dot4_steps(
                    n, y0, c, y1, zero, y2, zero, y3,
                    a.mul_spec(n), b.mul_spec(c), zero, zero,
                    dot2_spec(a, n, b, c), dot2_spec(a, n, b, c), dot2_spec(a, n, b, c),
                );
            } else {
                assert(after[7] == m[7]);
                lemma_dot4_steps(
                    n, y0, c, y1, zero, y2, zero, y3,
                    zero, zero, zero, zero,
                    zero, zero, zero,
                );
            }
        } else if col == 2 {
            assert(t[8] == zero && t[9] == zero && t[10] == one && t[11] == zero);
            assert(after[8 + r] == m[8 + r]);
            lemma_dot4_steps(
                zero, y0, zero, y1, one, y2, zero, y3,
                zero, zero, y2, zero,
                zero, y2, y2,
            );
        } else {
            assert(t[12] == zero && t[13] == zero && t[14] == zero && t[15] == one);
            assert(after[12 + r] == m[12 + r]);
            lemma_dot4_steps(
                zero, y0, zero, y1, zero, y2, one, y3,
                zero, zero, zero, y3,
                zero, zero, y3,
            );
        }
    } else if i == 0 && j == 2 {
        if col == 0 {
            assert(t[0] == c && t[1] == zero && t[2] == s && t[3] == zero);
            if r < 3 {
                assert(after[0 + r] == dot2_spec(a, c, b, s));
                T::lemma_mul_value(a, c);
                T::lemma_mul_value(b, s);
                lemma_dot2_value(a, c, b, s);
                lemma_dot4_steps(
                    c, y0, zero, y1, s, y2, zero, y3,
                    a.mul_spec(c), zero, b.mul_spec(s), zero,
                    a.mul_spec(c), dot2_spec(a, c, b, s), dot2_spec(a, c, b, s),
                );
            } else {
                assert(after[3] == m[3]);
                lemma_dot4_steps(
                    c, y0, zero, y1, s, y2, zero, y3,
                    zero, zero, zero, zero,
                    zero, zero, zero,
                );
            }
        } else if col == 1 {
            assert(t[4] == zero && t[5] == one && t[6] == zero && t[7] == zero);
            assert(after[4 + r] == m[4 + r]);
            lemma_dot4_steps(
                zero, y0, one, y1, zero, y2, zero, y3,
                zero, y1, zero, zero,
                y1, y1, y1,
            );
        } else if col == 2 {
            assert(t[8] == n && t[9] == zero && t[10] == c && t[11] == zero);
            if r < 3 {
                assert(after[8 + r] == dot2_spec(a, n, b, c));
                T::lemma_mul_value(a, n);
                T::lemma_mul_value(b, c);
                lemma_dot2_value(a, n, b, c);
                lemma_dot4_steps(
                    n, y0, zero, y1, c, y2, zero, y3,
                    a.mul_spec(n), zero, b.mul_spec(c), zero,
                    a.mul_spec(n), dot2_spec(a, n, b, c), dot2_spec(a, n, b, c),
                );
            } else {
                assert(after[11] == m[11]);
                lemma_dot4_steps(
                    n, y0, zero, y1, c, y2, zero, y3,
                    zero, zero, zero, zero,
                    zero, zero, zero,
                );
            }
        } else {
            assert(t[12] == zero && t[13] == zero && t[14] == zero && t[15] == one);
            assert(after[12 + r] == m[12 + r]);
            lemma_dot4_steps(
                zero, y0, zero, y1, zero, y2, one, y3,
                zero, zero, zero, y3,
                zero, zero, y3,
            );
        }
    } else if i == 1 && j == 2 {
        if col == 0 {
            assert(t[0] == one && t[1] == zero && t[2] == zero && t[3] == zero);
            assert(after[0 + r] == m[0 + r]);
            lemma_dot4_steps(
                one, y0, zero, y1, zero, y2, zero, y3,
                y0, zero, zero, zero,
                y0, y0, y0,
            );
        } else if col == 1 {
            assert(t[4] == zero && t[5] == c && t[6] == s && t[7] == zero);
            if r < 3 {
                assert(after[4 + r] == dot2_spec(a, c, b, s));
                T::lemma_mul_value(a, c);
                T::lemma_mul_value(b, s);
                lemma_dot2_value(a, c, b, s);
                lemma_dot4_steps(
                    zero, y0, c, y1, s, y2, zero, y3,
                    zero, a.mul_spec(c), b.mul_spec(s), zero,
                    a.mul_spec(c), dot2_spec(a, c, b, s), dot2_spec(a, c, b, s),
                );
            } else {
                assert(after[7] == m[7]);
                lemma_dot4_steps(
                    zero, y0, c, y1, s, y2, zero, y3,
                    zero, zero, zero, zero,
                    zero, zero, zero,
                );
            }
        } else if col == 2 {
            assert(t[8] == zero && t[9] == n && t[10] == c && t[11] == zero);
            if r < 3 {
                assert(after[8 + r] == dot2_spec(a, n, b, c));
                T::lemma_mul_value(a, n);
                T::lemma_mul_value(b, c);
                lemma_dot2_value(a, n, b, c);
                lemma_dot4_steps(
                    zero, y0, n, y1, c, y2, zero, y3,
                    zero, a.mul_spec(n), b.mul_spec(c), zero,
                    a.mul_spec(n), dot2_spec(a, n, b, c), dot2_spec(a, n, b, c),
                );
            } else {
                assert(after[11] == m[11]);
                lemma_dot4_steps(
                    zero, y0, n, y1, c, y2, zero, y3,
                    zero, zero, zero, zero,
                    zero, zero, zero,
                );
            }
        } else {
            assert(t[12] == zero && t[13] == zero && t[14] == zero && t[15] == one);
            assert(after[12 + r] == m[12 + r]);
            lemma_dot4_steps(
                zero, y0, zero, y1, zero, y2, one, y3,
                zero, zero, zero, y3,
                zero, zero, y3,
            );
        }
    }
}

/// Rotating an affine matrix multiplies it by a turn of two axes: the
/// matrix that `rotate_x`, `rotate_y` or `rotate_z` leaves is the product
/// of the turn and the matrix it found, which applies the turn first.  The
/// axes are `i = 1`, `j = 2` for x, `i = 0`, `j = 2` for y and `i = 0`,
/// `j = 1` for z.
pub proof fn lemma_rotate_is_product<T: Whole>(m: Seq<T>, i: int, j: int, c: T, s: T)
    requires
        m.len() == 16,
        is_affine(m),
        0 <= i < j < 3,
        turned_req(m, i * 4, j * 4, c, s),
    ensures
        product_req(turn_seq(i, j, c, s), m),
        product(turn_seq(i, j, c, s), m) == turned(m, i * 4, j * 4, c, s),
{
    let t = turn_seq(i, j, c, s);
    assert forall|col: int, r: int|
        0 <= col < 4 && 0 <= r < 4 implies #[trigger] product_entry_req(t, m, col, r) by {
        lemma_turn_entry(m, i, j, c, s, col, r);
    }
    assert forall|k: int| 0 <= k < 16 implies #[trigger] product(t, m)[k] == turned(
        m,
        i * 4,
        j * 4,
        c,
        s,
    )[k] by {
        lemma_turn_entry(m, i, j, c, s, k / 4, k % 4);
    }
    assert(product(t, m) =~= turned(m, i * 4, j * 4, c, s));
}

/// Four sums of four products, each times a further factor, add up to the
/// same as four factors, each times a sum of four products, when both are
/// made of the same sixteen triple products.
proof fn lemma_triple_sums(
    a0: int,
    a1: int,
    a2: int,
    a3: int,
    b: Seq<int>,
    c0: int,
    c1: int,
    c2: int,
    c3: int,
)
    requires
        b.len() == 16,
    ensures
        (a0 * b[0] + a1 * b[4] + a2 * b[8] + a3 * b[12]) * c0
            + (a0 * b[1] + a1 * b[5] + a2 * b[9] + a3 * b[13]) * c1
            + (a0 * b[2] + a1 * b[6] + a2 * b[10] + a3 * b[14]) * c2
            + (a0 * b[3] + a1 * b[7] + a2 * b[11] + a3 * b[15]) * c3
            == a0 * (b[0] * c0 + b[1] * c1 + b[2] * c2 + b[3] * c3)
            + a1 * (b[4] * c0 + b[5] * c1 + b[6] * c2 + b[7] * c3)
            + a2 * (b[8] * c0 + b[9] * c1 + b[10] * c2 + b[11] * c3)
            + a3 * (b[12] * c0 + b[13] * c1 + b[14] * c2 + b[15] * c3),
{
    assert((a0 * b[0] + a1 * b[4] + a2 * b[8] + a3 * b[12]) * c0 == (a0 * b[0]) * c0 + (a1 * b[4]) * c0 + (a2 * b[8]) * c0 + (a3 * b[12]) * c0) by (nonlinear_arith);
    assert((a0 * b[1] + a1 * b[5] + a2 * b[9] + a3 * b[13]) * c1 == (a0 * b[1]) * c1 + (a1 * b[5]) * c1 + (a2 * b[9]) * c1 + (a3 * b[13]) * c1) by (nonlinear_arith);
    assert((a0 * b[2] + a1 * b[6] + a2 * b[10] + a3 * b[14]) * c2 == (a0 * b[2]) * c2 + (a1 * b[6]) * c2 + (a2 * b[10]) * c2 + (a3 * b[14]) * c2) by (nonlinear_arith);
    assert((a0 * b[3] + a1 * b[7] + a2 * b[11] + a3 * b[15]) * c3 == (a0 * b[3]) * c3 + (a1 * b[7]) * c3 + (a2 * b[11]) * c3 + (a3 * b[15]) * c3) by (nonlinear_arith);
    assert(a0 * (b[0] * c0 + b[1] * c1 + b[2] * c2 + b[3] * c3) == a0 * (b[0] * c0) + a0 * (b[1] * c1) + a0 * (b[2] * c2) + a0 * (b[3] * c3)) by (nonlinear_arith);
    assert(a1 * (b[4] * c0 + b[5] * c1 + b[6] * c2 + b[7] * c3) == a1 * (b[4] * c0) + a1 * (b[5] * c1) + a1 * (b[6] * c2) + a1 * (b[7] * c3)) by (nonlinear_arith);
    assert(a2 * (b[8] * c0 + b[9] * c1 + b[10] * c2 + b[11] * c3) == a2 * (b[8] * c0) + a2 * (b[9] * c1) + a2 * (b[10] * c2) + a2 * (b[11] * c3)) by (nonlinear_arith);
    assert(a3 * (b[12] * c0 + b[13] * c1 + b[14] * c2 + b[15] * c3) == a3 * (b[12] * c0) + a3 * (b[13] * c1) + a3 * (b[14] * c2) + a3 * (b[15] * c3)) by (nonlinear_arith);
    assert((a0 * b[0]) * c0 == a0 * (b[0] * c0)) by (nonlinear_arith);
    assert((a0 * b[1]) * c1 == a0 * (b[1] * c1)) by (nonlinear_arith);
    assert((a0 * b[2]) * c2 == a0 * (b[2] * c2)) by (nonlinear_arith);
    assert((a0 * b[3]) * c3 == a0 * (b[3] * c3)) by (nonlinear_arith);
    assert((a1 * b[4]) * c0 == a1 * (b[4] * c0)) by (nonlinear_arith);
    assert((a1 * b[5]) * c1 == a1 * (b[5] * c1)) by (nonlinear_arith);
    assert((a1 * b[6]) * c2 == a1 * (b[6] * c2)) by (nonlinear_arith);
    assert((a1 * b[7]) * c3 == a1 * (b[7] * c3)) by (nonlinear_arith);
    assert((a2 * b[8]) * c0 == a2 * (b[8] * c0)) by (nonlinear_arith);
    assert((a2 * b[9]) * c1 == a2 * (b[9] * c1)) by (nonlinear_arith);
    assert((a2 * b[10]) * c2 == a2 * (b[10] * c2)) by (nonlinear_arith);
    assert((a2 * b[11]) * c3 == a2 * (b[11] * c3)) by (nonlinear_arith);
    assert((a3 * b[12]) * c0 == a3 * (b[12] * c0)) by (nonlinear_arith);
    assert((a3 * b[13]) * c1 == a3 * (b[13] * c1)) by (nonlinear_arith);
    assert((a3 * b[14]) * c2 == a3 * (b[14] * c2)) by (nonlinear_arith);
    assert((a3 * b[15]) * c3 == a3 * (b[15] * c3)) by (nonlinear_arith);
}

/// One element of a product of three matrices does not depend on which two
/// are multiplied first.
proof fn lemma_associative_entry<T: Whole>(a: Seq<T>, b: Seq<T>, c: Seq<T>, col: int, r: int)
    requires
        a.len() == 16,
        b.len() == 16,
        c.len() == 16,
        product_req(a, b),
        product_req(product(a, b), c),
        product_req(b, c),
        product_req(a, product(b, c)),
        0 <= col < 4,
        0 <= r < 4,
    ensures
        product_entry(product(a, b), c, col, r) == product_entry(a, product(b, c), col, r),
{
    let ab = product(a, b);
    let bc = product(b, c);
    assert(product_entry_req(a, b, col, 0) && product_entry_req(a, b, col, 1) && product_entry_req(
        a,
        b,
        col,
        2,
    ) && product_entry_req(a, b, col, 3));
    assert(product_entry_req(b, c, 0, r) && product_entry_req(b, c, 1, r) && product_entry_req(
        b,
        c,
        2,
        r,
    ) && product_entry_req(b, c, 3, r));
    assert(product_entry_req(ab, c, col, r));
    assert(product_entry_req(a, bc, col, r));
    assert(ab[col * 4] == product_entry(a, b, col, 0));
    assert(ab[col * 4 + 1] == product_entry(a, b, col, 1));
    assert(ab[col * 4 + 2] == product_entry(a, b, col, 2));
    assert(ab[col * 4 + 3] == product_entry(a, b, col, 3));
    assert(bc[r] == product_entry(b, c, 0, r));
    assert(bc[4 + r] == product_entry(b, c, 1, r));
    assert(bc[8 + r] == product_entry(b, c, 2, r));
    assert(bc[12 + r] == product_entry(b, c, 3, r));
    let (a0, a1, a2, a3) = (a[col * 4], a[col * 4 + 1], a[col * 4 + 2], a[col * 4 + 3]);
    let (c0, c1, c2, c3) = (c[r], c[4 + r], c[8 + r], c[12 + r]);
    lemma_dot4_value(a0, b[0], a1, b[4], a2, b[8], a3, b[12]);
    lemma_dot4_value(a0, b[1], a1, b[5], a2, b[9], a3, b[13]);
    lemma_dot4_value(a0, b[2], a1, b[6], a2, b[10], a3, b[14]);
    lemma_dot4_value(a0, b[3], a1, b[7], a2, b[11], a3, b[15]);
    lemma_dot4_value(b[0], c0, b[1], c1, b[2], c2, b[3], c3);
    lemma_dot4_value(b[4], c0, b[5], c1, b[6], c2, b[7], c3);
    lemma_dot4_value(b[8], c0, b[9], c1, b[10], c2, b[11], c3);
    lemma_dot4_value(b[12], c0, b[13], c1, b[14], c2, b[15], c3);
    lemma_dot4_value(ab[col * 4], c0, ab[col * 4 + 1], c1, ab[col * 4 + 2], c2, ab[col * 4 + 3], c3);
    lemma_dot4_value(a0, bc[r], a1, bc[4 + r], a2, bc[8 + r], a3, bc[12 + r]);
    lemma_triple_sums(
        a0.value(),
        a1.value(),
        a2.value(),
        a3.value(),
        Seq::new(16, |i: int| b[i].value()),
        c0.value(),
        c1.value(),
        c2.value(),
        c3.value(),
    );
    T::lemma_same_value(
        product_entry(product(a, b), c, col, r),
        product_entry(a, product(b, c), col, r),
    );
}

/// The product is associative: of three matrices it does not matter which
/// two are multiplied first.
pub proof fn lemma_product_associative<T: Whole>(a: Seq<T>, b: Seq<T>, c: Seq<T>)
    requires
        a.len() == 16,
        b.len() == 16,
        c.len() == 16,
        product_req(a, b),
        product_req(product(a, b), c),
        product_req(b, c),
        product_req(a, product(b, c)),
    ensures
        product(product(a, b), c) == product(a, product(b, c)),
{
    assert forall|i: int| 0 <= i < 16 implies #[trigger] product(product(a, b), c)[i] == product(
        a,
        product(b, c),
    )[i] by {
        lemma_associative_entry(a, b, c, i / 4, i % 4);
    }
    assert(product(product(a, b), c) =~= product(a, product(b, c)));
}

/// The product is not commutative: a quarter turn about z and a translation
/// along x give different products in the two orders.
pub proof fn lemma_product_not_commutative()
    ensures
        ({
            let turn = turn_seq::<i64>(0, 1, 0, 1);
            let shift = translation_seq(Vec3::<i64> { x: 5, y: 0, z: 0 });
            &&& product(turn, shift)[12] == 5
            &&& product(shift, turn)[12] == 0
            &&& product(turn, shift) != product(shift, turn)
        }),
{
    lemma_exact_i64();
    let id = identity_seq::<i64>();
    let turn = turn_seq::<i64>(0, 1, 0, 1);
    let shift = translation_seq(Vec3::<i64> { x: 5, y: 0, z: 0 });
    assert(forall|i: int| 0 <= i < 16 ==> #[trigger] id[i] == (if i % 5 == 0 { 1i64 } else { 0i64 }));
    assert(turn[12] == 0 && turn[13] == 0 && turn[14] == 0 && turn[15] == 1);
    assert(shift[0] == 1 && shift[4] == 0 && shift[8] == 0 && shift[12] == 5);
    assert(turn[0] == 0 && turn[4] == -1 && turn[8] == 0);
    assert(shift[13] == 0 && shift[14] == 0 && shift[15] == 1);
    assert(0i64.value() == 0 && 1i64.value() == 1 && 5i64.value() == 5 && (-1i64).value() == -1);
    lemma_dot4_steps::<i64>(0, 1, 0, 0, 0, 0, 1, 5, 0, 0, 0, 5, 0, 0, 5);
    lemma_dot4_steps::<i64>(5, 0, 0, -1i64, 0, 0, 1, 0, 0, 0, 0, 0, 0, 0, 0);
    assert(product(turn, shift)[12] == product_entry(turn, shift, 3, 0));
    assert(product(shift, turn)[12] == product_entry(shift, turn, 3, 0));
}

} // verus!
