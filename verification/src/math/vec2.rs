//! Vectors of two components.

use crate::math::axis::Axis;
use crate::math::scalar::{dot2, dot2_req, dot2_spec, exact, numeric, Scalar, whole, whole_of};
use crate::math::swizzle::{
    check_accessor, fault, name_fault, parse_accessor, select, axes_of, OutOfRange, SwizzleError,
    Swizzled,
};
use crate::math::whole::{lemma_dot2_value, Whole};
use std::ops::{Add, Div, Mul, Sub};
use vstd::prelude::*;
use vstd::std_specs::ops::{AddSpec, DivSpec, MulSpec, SubSpec};

verus! {

/// A vector of two components of one element type.
///
/// The components are ordered: `x` is at position 0, `y` is at position 1.
#[derive(Copy, Clone, PartialEq, Eq, PartialOrd, Ord, Debug)]
pub struct Vec2<T> {
    /// The component at position 0.
    pub x: T,
    /// The component at position 1.
    pub y: T,
}

impl<T> View for Vec2<T> {
    type V = Seq<T>;

    /// The components, in order.
    open spec fn view(&self) -> Seq<T> {
        seq![self.x, self.y]
    }
}

impl<T: Copy> Vec2<T> {
    /// The vector whose components are the first two elements of `s`.
    pub open spec fn from_seq(s: Seq<T>) -> Self {
        Vec2 { x: s[0], y: s[1] }
    }

    /// Makes a vector of the given components.
    pub fn from(x: T, y: T) -> (r: Self)
        ensures
            r == (Vec2 { x, y }),
    {
        Vec2 { x, y }
    }

    /// Makes a vector of the elements of an array, in order.
    pub fn from_array(a: [T; 2]) -> (r: Self)
        ensures
            r == Self::from_seq(a@),
            r@ == a@,
    {
        let r = Vec2 { x: a[0], y: a[1] };
        assert(r@ =~= a@);
        r
    }

    /// Returns the components as an array, in order.
    pub fn to_array(&self) -> (a: [T; 2])
        ensures
            a@ == self@,
    {
        let a = [self.x, self.y];
        assert(a@ =~= self@);
        a
    }

    /// Overwrites every component.
    pub fn set(&mut self, x: T, y: T)
        ensures
            *final(self) == (Vec2 { x, y }),
    {
        self.x = x;
        self.y = y;
    }

    /// Overwrites every component with the elements of an array, in order.
    pub fn set_array(&mut self, a: [T; 2])
        ensures
            *final(self) == Self::from_seq(a@),
            final(self)@ == a@,
    {
        self.x = a[0];
        self.y = a[1];
        assert(self@ =~= a@);
    }

    /// A vector made of the components of `self` is `self`: converting to
    /// an array and back changes nothing.
    pub proof fn lemma_array_round_trip(self)
        ensures
            Self::from_seq(self@) == self,
    {
    }

    /// The components of a vector made of two elements are those elements:
    /// converting from an array and back changes nothing.
    pub proof fn lemma_seq_round_trip(s: Seq<T>)
        requires
            s.len() == 2,
        ensures
            Self::from_seq(s)@ == s,
    {
        assert(Self::from_seq(s)@ =~= s);
    }

    /// A vector is fixed by its components.
    pub proof fn lemma_by_view(self, other: Self)
        requires
            self@ == other@,
        ensures
            self == other,
    {
        assert(self@[0] == other@[0] && self@[1] == other@[1]);
    }
}

impl<T> Vec2<T> {
    /// Borrows the component at position `i`.
    pub fn index(&self, i: usize) -> (r: &T)
        requires
            i < 2,
        ensures
            *r == self@[i as int],
    {
        if i == 0 {
            &self.x
        } else {
            &self.y
        }
    }

    /// Borrows the component at position `i` for writing.  Nothing but that
    /// component can change through the borrow.
    pub fn index_mut(&mut self, i: usize) -> (r: &mut T)
        requires
            i < 2,
        ensures
            *r == old(self)@[i as int],
            final(self)@ == old(self)@.update(i as int, *final(r)),
    {
        if i == 0 {
            &mut self.x
        } else {
            &mut self.y
        }
    }

    /// Borrows the component at position `i`, or reports that the vector
    /// has no such position.
    pub fn get(&self, i: usize) -> (r: Result<&T, OutOfRange>)
        ensures
            match r {
                Ok(c) => i < 2 && *c == self@[i as int],
                Err(e) => i >= 2 && e == (OutOfRange { index: i, len: 2 }),
            },
    {
        if i < 2 {
            Ok(self.index(i))
        } else {
            Err(OutOfRange { index: i, len: 2 })
        }
    }

    /// Overwrites the component at position `i`, or reports that the vector
    /// has no such position and leaves it as it is.
    pub fn put(&mut self, i: usize, value: T) -> (r: Result<(), OutOfRange>)
        ensures
            match r {
                Ok(_) => i < 2 && final(self)@ == old(self)@.update(i as int, value),
                Err(e) => i >= 2 && e == (OutOfRange { index: i, len: 2 }) && *final(self) == *old(
                    self,
                ),
            },
    {
        if i < 2 {
            let slot = self.index_mut(i);
            *slot = value;
            Ok(())
        } else {
            Err(OutOfRange { index: i, len: 2 })
        }
    }
}

impl<T: Copy> Vec2<T> {
    /// Returns the component `x`.
    pub fn x(&self) -> (r: T)
        ensures
            r == self.x,
    {
        self.x
    }

    /// Returns the component `y`.
    pub fn y(&self) -> (r: T)
        ensures
            r == self.y,
    {
        self.y
    }

    /// Returns the component that `a` names.
    pub fn component(&self, a: Axis) -> (r: T)
        requires
            a.position() < 2,
        ensures
            r == self@[a.position()],
    {
        *self.index(a.index())
    }

    /// The vector of two components that the accessor `a b` selects.
    pub open spec fn pick2(self, a: Axis, b: Axis) -> Vec2<T> {
        Vec2 { x: self@[a.position()], y: self@[b.position()] }
    }

    /// Returns the vector whose components are those that `a`, `b` name, in
    /// that order.
    pub fn swizzle2(&self, a: Axis, b: Axis) -> (r: Vec2<T>)
        requires
            a.position() < 2,
            b.position() < 2,
        ensures
            r == self.pick2(a, b),
            r@ == select(self@, seq![a, b]),
    {
        let r = Vec2 { x: self.component(a), y: self.component(b) };
        assert(r@ =~= select(self@, seq![a, b]));
        r
    }

    /// Applies an accessor: yields the components that `axes` name, in that
    /// order, as a bare component for one axis and as a vector otherwise.
    ///
    /// Fails when `axes` is empty or longer than two, or when one of its axes
    /// names a component that this vector does not have.
    pub fn swizzle(&self, axes: &[Axis]) -> (r: Result<Swizzled<T>, SwizzleError>)
        ensures
            match r {
                Ok(s) => fault(2, axes@) is None && s@ == select(self@, axes@),
                Err(e) => fault(2, axes@) == Some(e),
            },
    {
        match check_accessor(2, axes) {
            Err(e) => Err(e),
            Ok(_) => {
                let r = if axes.len() == 1 {
                    Swizzled::One(self.component(axes[0]))
                } else {
                    Swizzled::Two(self.swizzle2(axes[0], axes[1]))
                };
                assert(r@ =~= select(self@, axes@));
                Ok(r)
            },
        }
    }

    /// Applies the accessor called `name`, one axis for each of its letters.
    ///
    /// Fails when `name` holds a character that is not an axis letter, and
    /// otherwise when `swizzle` would fail on the axes that the letters
    /// stand for.
    pub fn swizzle_named(&self, name: &str) -> (r: Result<Swizzled<T>, SwizzleError>)
        ensures
            match r {
                Ok(s) => name_fault(2, name@) is None && s@ == select(self@, axes_of(name@)),
                Err(e) => name_fault(2, name@) == Some(e),
            },
    {
        match parse_accessor(name) {
            Err(e) => Err(e),
            Ok(axes) => self.swizzle(axes.as_slice()),
        }
    }

    /// The accessor that names every axis once, in order, yields the source
    /// itself.
    pub proof fn lemma_identity_swizzle(self)
        ensures
            self.pick2(Axis::X, Axis::Y) == self,
            select(self@, seq![Axis::X, Axis::Y]) == self@,
    {
        assert(select(self@, seq![Axis::X, Axis::Y]) =~= self@);
    }
}

impl<T: Copy + Add<Output = T>> vstd::std_specs::ops::AddSpecImpl<Vec2<T>> for Vec2<T> {
    open spec fn obeys_add_spec() -> bool {
        <T as AddSpec>::obeys_add_spec()
    }

    open spec fn add_req(self, rhs: Vec2<T>) -> bool {
        &&& self.x.add_req(rhs.x)
        &&& self.y.add_req(rhs.y)
    }

    open spec fn add_spec(self, rhs: Vec2<T>) -> Vec2<T> {
        Vec2 {
            x: self.x.add_spec(rhs.x),
            y: self.y.add_spec(rhs.y),
        }
    }
}

/// The sum of two vectors, component by component.
impl<T: Copy + Add<Output = T>> Add<Vec2<T>> for Vec2<T> {
    type Output = Vec2<T>;

    fn add(self, rhs: Vec2<T>) -> (r: Vec2<T>)
        ensures
            <T as AddSpec>::obeys_add_spec() ==> r == (Vec2 {
                x: self.x.add_spec(rhs.x),
                y: self.y.add_spec(rhs.y),
            }),
    {
        Vec2 { x: self.x + rhs.x, y: self.y + rhs.y }
    }
}

impl<T: Copy + Add<Output = T>> vstd::std_specs::ops::AddSpecImpl<T> for Vec2<T> {
    open spec fn obeys_add_spec() -> bool {
        <T as AddSpec>::obeys_add_spec()
    }

    open spec fn add_req(self, rhs: T) -> bool {
        &&& self.x.add_req(rhs)
        &&& self.y.add_req(rhs)
    }

    open spec fn add_spec(self, rhs: T) -> Vec2<T> {
        Vec2 {
            x: self.x.add_spec(rhs),
            y: self.y.add_spec(rhs),
        }
    }
}

/// The sum of each component and one scalar.
impl<T: Copy + Add<Output = T>> Add<T> for Vec2<T> {
    type Output = Vec2<T>;

    fn add(self, rhs: T) -> (r: Vec2<T>)
        ensures
            <T as AddSpec>::obeys_add_spec() ==> r == (Vec2 {
                x: self.x.add_spec(rhs),
                y: self.y.add_spec(rhs),
            }),
    {
        Vec2 { x: self.x + rhs, y: self.y + rhs }
    }
}

impl<T: Copy + Sub<Output = T>> vstd::std_specs::ops::SubSpecImpl<Vec2<T>> for Vec2<T> {
    open spec fn obeys_sub_spec() -> bool {
        <T as SubSpec>::obeys_sub_spec()
    }

    open spec fn sub_req(self, rhs: Vec2<T>) -> bool {
        &&& self.x.sub_req(rhs.x)
        &&& self.y.sub_req(rhs.y)
    }

    open spec fn sub_spec(self, rhs: Vec2<T>) -> Vec2<T> {
        Vec2 {
            x: self.x.sub_spec(rhs.x),
            y: self.y.sub_spec(rhs.y),
        }
    }
}

/// The difference of two vectors, component by component.
impl<T: Copy + Sub<Output = T>> Sub<Vec2<T>> for Vec2<T> {
    type Output = Vec2<T>;

    fn sub(self, rhs: Vec2<T>) -> (r: Vec2<T>)
        ensures
            <T as SubSpec>::obeys_sub_spec() ==> r == (Vec2 {
                x: self.x.sub_spec(rhs.x),
                y: self.y.sub_spec(rhs.y),
            }),
    {
        Vec2 { x: self.x - rhs.x, y: self.y - rhs.y }
    }
}

impl<T: Copy + Sub<Output = T>> vstd::std_specs::ops::SubSpecImpl<T> for Vec2<T> {
    open spec fn obeys_sub_spec() -> bool {
        <T as SubSpec>::obeys_sub_spec()
    }

    open spec fn sub_req(self, rhs: T) -> bool {
        &&& self.x.sub_req(rhs)
        &&& self.y.sub_req(rhs)
    }

    open spec fn sub_spec(self, rhs: T) -> Vec2<T> {
        Vec2 {
            x: self.x.sub_spec(rhs),
            y: self.y.sub_spec(rhs),
        }
    }
}

/// The difference of each component and one scalar.
impl<T: Copy + Sub<Output = T>> Sub<T> for Vec2<T> {
    type Output = Vec2<T>;

    fn sub(self, rhs: T) -> (r: Vec2<T>)
        ensures
            <T as SubSpec>::obeys_sub_spec() ==> r == (Vec2 {
                x: self.x.sub_spec(rhs),
                y: self.y.sub_spec(rhs),
            }),
    {
        Vec2 { x: self.x - rhs, y: self.y - rhs }
    }
}

impl<T: Copy + Mul<Output = T>> vstd::std_specs::ops::MulSpecImpl<Vec2<T>> for Vec2<T> {
    open spec fn obeys_mul_spec() -> bool {
        <T as MulSpec>::obeys_mul_spec()
    }

    open spec fn mul_req(self, rhs: Vec2<T>) -> bool {
        &&& self.x.mul_req(rhs.x)
        &&& self.y.mul_req(rhs.y)
    }

    open spec fn mul_spec(self, rhs: Vec2<T>) -> Vec2<T> {
        Vec2 {
            x: self.x.mul_spec(rhs.x),
            y: self.y.mul_spec(rhs.y),
        }
    }
}

/// The product of two vectors, component by component.
impl<T: Copy + Mul<Output = T>> Mul<Vec2<T>> for Vec2<T> {
    type Output = Vec2<T>;

    fn mul(self, rhs: Vec2<T>) -> (r: Vec2<T>)
        ensures
            <T as MulSpec>::obeys_mul_spec() ==> r == (Vec2 {
                x: self.x.mul_spec(rhs.x),
                y: self.y.mul_spec(rhs.y),
            }),
    {
        Vec2 { x: self.x * rhs.x, y: self.y * rhs.y }
    }
}

impl<T: Copy + Mul<Output = T>> vstd::std_specs::ops::MulSpecImpl<T> for Vec2<T> {
    open spec fn obeys_mul_spec() -> bool {
        <T as MulSpec>::obeys_mul_spec()
    }

    open spec fn mul_req(self, rhs: T) -> bool {
        &&& self.x.mul_req(rhs)
        &&& self.y.mul_req(rhs)
    }

    open spec fn mul_spec(self, rhs: T) -> Vec2<T> {
        Vec2 {
            x: self.x.mul_spec(rhs),
            y: self.y.mul_spec(rhs),
        }
    }
}

/// The product of each component and one scalar.
impl<T: Copy + Mul<Output = T>> Mul<T> for Vec2<T> {
    type Output = Vec2<T>;

    fn mul(self, rhs: T) -> (r: Vec2<T>)
        ensures
            <T as MulSpec>::obeys_mul_spec() ==> r == (Vec2 {
                x: self.x.mul_spec(rhs),
                y: self.y.mul_spec(rhs),
            }),
    {
        Vec2 { x: self.x * rhs, y: self.y * rhs }
    }
}

impl<T: Copy + Div<Output = T>> vstd::std_specs::ops::DivSpecImpl<Vec2<T>> for Vec2<T> {
    open spec fn obeys_div_spec() -> bool {
        <T as DivSpec>::obeys_div_spec()
    }

    open spec fn div_req(self, rhs: Vec2<T>) -> bool {
        &&& self.x.div_req(rhs.x)
        &&& self.y.div_req(rhs.y)
    }

    open spec fn div_spec(self, rhs: Vec2<T>) -> Vec2<T> {
        Vec2 {
            x: self.x.div_spec(rhs.x),
            y: self.y.div_spec(rhs.y),
        }
    }
}

/// The quotient of two vectors, component by component.
impl<T: Copy + Div<Output = T>> Div<Vec2<T>> for Vec2<T> {
    type Output = Vec2<T>;

    fn div(self, rhs: Vec2<T>) -> (r: Vec2<T>)
        ensures
            <T as DivSpec>::obeys_div_spec() ==> r == (Vec2 {
                x: self.x.div_spec(rhs.x),
                y: self.y.div_spec(rhs.y),
            }),
    {
        Vec2 { x: self.x / rhs.x, y: self.y / rhs.y }
    }
}

impl<T: Copy + Div<Output = T>> vstd::std_specs::ops::DivSpecImpl<T> for Vec2<T> {
    open spec fn obeys_div_spec() -> bool {
        <T as DivSpec>::obeys_div_spec()
    }

    open spec fn div_req(self, rhs: T) -> bool {
        &&& self.x.div_req(rhs)
        &&& self.y.div_req(rhs)
    }

    open spec fn div_spec(self, rhs: T) -> Vec2<T> {
        Vec2 {
            x: self.x.div_spec(rhs),
            y: self.y.div_spec(rhs),
        }
    }
}

/// The quotient of each component and one scalar.
impl<T: Copy + Div<Output = T>> Div<T> for Vec2<T> {
    type Output = Vec2<T>;

    fn div(self, rhs: T) -> (r: Vec2<T>)
        ensures
            <T as DivSpec>::obeys_div_spec() ==> r == (Vec2 {
                x: self.x.div_spec(rhs),
                y: self.y.div_spec(rhs),
            }),
    {
        Vec2 { x: self.x / rhs, y: self.y / rhs }
    }
}

impl<T: Copy + Add<Output = T>> Vec2<T> {
    /// Replaces each component by its sum with the same component of
    /// `rhs`.
    pub fn add_assign(&mut self, rhs: Vec2<T>)
        requires
            old(self).add_req(rhs),
        ensures
            <T as AddSpec>::obeys_add_spec() ==> *final(self) == old(self).add_spec(rhs),
    {
        self.x = self.x + rhs.x;
        self.y = self.y + rhs.y;
    }

    /// Replaces each component by its sum with one scalar.
    pub fn add_assign_scalar(&mut self, rhs: T)
        requires
            old(self).add_req(rhs),
        ensures
            <T as AddSpec>::obeys_add_spec() ==> *final(self) == old(self).add_spec(rhs),
    {
        self.x = self.x + rhs;
        self.y = self.y + rhs;
    }
}

impl<T: Copy + Sub<Output = T>> Vec2<T> {
    /// Replaces each component by its difference with the same component of
    /// `rhs`.
    pub fn sub_assign(&mut self, rhs: Vec2<T>)
        requires
            old(self).sub_req(rhs),
        ensures
            <T as SubSpec>::obeys_sub_spec() ==> *final(self) == old(self).sub_spec(rhs),
    {
        self.x = self.x - rhs.x;
        self.y = self.y - rhs.y;
    }

    /// Replaces each component by its difference with one scalar.
    pub fn sub_assign_scalar(&mut self, rhs: T)
        requires
            old(self).sub_req(rhs),
        ensures
            <T as SubSpec>::obeys_sub_spec() ==> *final(self) == old(self).sub_spec(rhs),
    {
        self.x = self.x - rhs;
        self.y = self.y - rhs;
    }
}

impl<T: Copy + Mul<Output = T>> Vec2<T> {
    /// Replaces each component by its product with the same component of
    /// `rhs`.
    pub fn mul_assign(&mut self, rhs: Vec2<T>)
        requires
            old(self).mul_req(rhs),
        ensures
            <T as MulSpec>::obeys_mul_spec() ==> *final(self) == old(self).mul_spec(rhs),
    {
        self.x = self.x * rhs.x;
        self.y = self.y * rhs.y;
    }

    /// Replaces each component by its product with one scalar.
    pub fn mul_assign_scalar(&mut self, rhs: T)
        requires
            old(self).mul_req(rhs),
        ensures
            <T as MulSpec>::obeys_mul_spec() ==> *final(self) == old(self).mul_spec(rhs),
    {
        self.x = self.x * rhs;
        self.y = self.y * rhs;
    }
}

impl<T: Copy + Div<Output = T>> Vec2<T> {
    /// Replaces each component by its quotient with the same component of
    /// `rhs`.
    pub fn div_assign(&mut self, rhs: Vec2<T>)
        requires
            old(self).div_req(rhs),
        ensures
            <T as DivSpec>::obeys_div_spec() ==> *final(self) == old(self).div_spec(rhs),
    {
        self.x = self.x / rhs.x;
        self.y = self.y / rhs.y;
    }

    /// Replaces each component by its quotient with one scalar.
    pub fn div_assign_scalar(&mut self, rhs: T)
        requires
            old(self).div_req(rhs),
        ensures
            <T as DivSpec>::obeys_div_spec() ==> *final(self) == old(self).div_spec(rhs),
    {
        self.x = self.x / rhs;
        self.y = self.y / rhs;
    }
}

impl<T: Scalar> Vec2<T> {
    /// The vector whose components stand for the given whole numbers.
    pub open spec fn of_whole(x: i8, y: i8) -> Self {
        Vec2 { x: whole(x), y: whole(y) }
    }

    /// The vector with every component at 0.
    pub fn zero() -> (r: Self)
        ensures
            exact::<T>() ==> r == Self::of_whole(0i8, 0i8),
            r.x == r.y,
    {
        let zero: T = whole_of(0i8);
        Vec2 { x: zero, y: zero }
    }

    /// The vector with every component at 1.
    pub fn one() -> (r: Self)
        ensures
            exact::<T>() ==> r == Self::of_whole(1i8, 1i8),
            r.x == r.y,
    {
        let one: T = whole_of(1i8);
        Vec2 { x: one, y: one }
    }

    /// The direction with `x` at -1 and the other axis at 0.
    pub fn left() -> (r: Self)
        ensures
            exact::<T>() ==> r == Self::of_whole(-1i8, 0i8),
    {
        let minus_one: T = whole_of(-1i8);
        let zero: T = whole_of(0i8);
        Vec2 { x: minus_one, y: zero }
    }

    /// The direction with `x` at 1 and the other axis at 0.
    pub fn right() -> (r: Self)
        ensures
            exact::<T>() ==> r == Self::of_whole(1i8, 0i8),
    {
        let one: T = whole_of(1i8);
        let zero: T = whole_of(0i8);
        Vec2 { x: one, y: zero }
    }

    /// The direction with `y` at -1 and the other axis at 0.
    pub fn down() -> (r: Self)
        ensures
            exact::<T>() ==> r == Self::of_whole(0i8, -1i8),
    {
        let zero: T = whole_of(0i8);
        let minus_one: T = whole_of(-1i8);
        Vec2 { x: zero, y: minus_one }
    }

    /// The direction with `y` at 1 and the other axis at 0.
    pub fn up() -> (r: Self)
        ensures
            exact::<T>() ==> r == Self::of_whole(0i8, 1i8),
    {
        let zero: T = whole_of(0i8);
        let one: T = whole_of(1i8);
        Vec2 { x: zero, y: one }
    }

    /// Whether the dot product with `other` can be computed.
    pub open spec fn dot_req(self, other: Self) -> bool {
        dot2_req(self.x, other.x, self.y, other.y)
    }

    /// The dot product with `other`: the sum of the products of matching
    /// components, summed from the first.
    pub open spec fn dot_spec(self, other: Self) -> T {
        dot2_spec(self.x, other.x, self.y, other.y)
    }

    /// Whether the squared distance to `b` can be computed.
    pub open spec fn distance_squared_req(self, b: Self) -> bool {
        self.sub_req(b) && self.sub_spec(b).dot_req(self.sub_spec(b))
    }

    /// Computes the dot product with `other`.
    pub fn dot(&self, other: &Self) -> (r: T)
        requires
            numeric::<T>(),
            exact::<T>() ==> self.dot_req(*other),
        ensures
            exact::<T>() ==> r == self.dot_spec(*other),
    {
        dot2(self.x, other.x, self.y, other.y)
    }

    /// Computes the square of the length: the dot product of the vector with
    /// itself.
    pub fn length_squared(&self) -> (r: T)
        requires
            numeric::<T>(),
            exact::<T>() ==> self.dot_req(*self),
        ensures
            exact::<T>() ==> r == self.dot_spec(*self),
    {
        self.dot(self)
    }

    /// Computes the square of the distance to `b`: the squared length of
    /// `self - b`.
    pub fn distance_squared(&self, b: &Self) -> (r: T)
        requires
            numeric::<T>(),
            exact::<T>() ==> self.distance_squared_req(*b),
        ensures
            exact::<T>() ==> r == self.sub_spec(*b).dot_spec(self.sub_spec(*b)),
    {
        let d = *self - *b;
        d.length_squared()
    }
}

/// The squared length, which is the dot product of a vector with itself,
/// is the sum of the squares of the components.  It is never negative, and
/// it is zero for the zero vector alone.
pub proof fn lemma_length_squared<T: Whole>(a: Vec2<T>)
    requires
        a.dot_req(a),
    ensures
        a.dot_spec(a).value() == a.x.value() * a.x.value()
            + a.y.value() * a.y.value(),
        a.dot_spec(a).value() >= 0,
        a.dot_spec(a).value() == 0 <==> a == Vec2::<T>::of_whole(0i8, 0i8),
{
    let x = a.x.value();
    let y = a.y.value();
    lemma_dot2_value(a.x, a.x, a.y, a.y);
    assert(x * x >= 0 && (x * x == 0 <==> x == 0)) by (nonlinear_arith);
    assert(y * y >= 0 && (y * y == 0 <==> y == 0)) by (nonlinear_arith);
    T::lemma_whole(0i8);
    let zero = Vec2::<T>::of_whole(0i8, 0i8);
    if x == 0 && y == 0 {
        T::lemma_same_value(a.x, zero.x);
        T::lemma_same_value(a.y, zero.y);
    }
}

} // verus!
