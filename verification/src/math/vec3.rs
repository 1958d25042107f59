//! Vectors of three components.

use crate::math::axis::Axis;
use crate::math::scalar::{det2, det2_req, det2_spec, dot3, dot3_req, dot3_spec, exact, numeric, Scalar, whole, whole_of};
use crate::math::swizzle::{
    check_accessor, fault, name_fault, parse_accessor, select, axes_of, OutOfRange, SwizzleError,
    Swizzled,
};
use crate::math::vec2::Vec2;
use crate::math::whole::{lemma_det2_value, lemma_dot3_value, Whole};
use std::ops::{Add, Div, Mul, Sub};
use vstd::prelude::*;
use vstd::std_specs::ops::{AddSpec, DivSpec, MulSpec, SubSpec};

verus! {

/// A vector of three components of one element type.
///
/// The components are ordered: `x` is at position 0, `y` is at position 1, `z` is at position 2.
#[derive(Copy, Clone, PartialEq, Eq, PartialOrd, Ord, Debug)]
pub struct Vec3<T> {
    /// The component at position 0.
    pub x: T,
    /// The component at position 1.
    pub y: T,
    /// The component at position 2.
    pub z: T,
}

impl<T> View for Vec3<T> {
    type V = Seq<T>;

    /// The components, in order.
    open spec fn view(&self) -> Seq<T> {
        seq![self.x, self.y, self.z]
    }
}

impl<T: Copy> Vec3<T> {
    /// The vector whose components are the first three elements of `s`.
    pub open spec fn from_seq(s: Seq<T>) -> Self {
        Vec3 { x: s[0], y: s[1], z: s[2] }
    }

    /// Makes a vector of the given components.
    pub fn from(x: T, y: T, z: T) -> (r: Self)
        ensures
            r == (Vec3 { x, y, z }),
    {
        Vec3 { x, y, z }
    }

    /// Makes a vector of the elements of an array, in order.
    pub fn from_array(a: [T; 3]) -> (r: Self)
        ensures
            r == Self::from_seq(a@),
            r@ == a@,
    {
        let r = Vec3 { x: a[0], y: a[1], z: a[2] };
        assert(r@ =~= a@);
        r
    }

    /// Returns the components as an array, in order.
    pub fn to_array(&self) -> (a: [T; 3])
        ensures
            a@ == self@,
    {
        let a = [self.x, self.y, self.z];
        assert(a@ =~= self@);
        a
    }

    /// Overwrites every component.
    pub fn set(&mut self, x: T, y: T, z: T)
        ensures
            *final(self) == (Vec3 { x, y, z }),
    {
        self.x = x;
        self.y = y;
        self.z = z;
    }

    /// Overwrites every component with the elements of an array, in order.
    pub fn set_array(&mut self, a: [T; 3])
        ensures
            *final(self) == Self::from_seq(a@),
            final(self)@ == a@,
    {
        self.x = a[0];
        self.y = a[1];
        self.z = a[2];
        assert(self@ =~= a@);
    }

    /// A vector made of the components of `self` is `self`: converting to
    /// an array and back changes nothing.
    pub proof fn lemma_array_round_trip(self)
        ensures
            Self::from_seq(self@) == self,
    {
    }

    /// The components of a vector made of three elements are those elements:
    /// converting from an array and back changes nothing.
    pub proof fn lemma_seq_round_trip(s: Seq<T>)
        requires
            s.len() == 3,
        ensures
            Self::from_seq(s)@ == s,
    {
        assert(Self::from_seq(s)@ =~= s);
    }

    /// A vector is fixed by its components.
    pub proof fn lemma_by_view(self, other: Self)
        requires
            self@ == other@,
        ensures
            self == other,
    {
        assert(self@[0] == other@[0] && self@[1] == other@[1] && self@[2] == other@[2]);
    }
}

impl<T> Vec3<T> {
    /// Borrows the component at position `i`.
    pub fn index(&self, i: usize) -> (r: &T)
        requires
            i < 3,
        ensures
            *r == self@[i as int],
    {
        if i == 0 {
            &self.x
        } else if i == 1 {
            &self.y
        } else {
            &self.z
        }
    }

    /// Borrows the component at position `i` for writing.  Nothing but that
    /// component can change through the borrow.
    pub fn index_mut(&mut self, i: usize) -> (r: &mut T)
        requires
            i < 3,
        ensures
            *r == old(self)@[i as int],
            final(self)@ == old(self)@.update(i as int, *final(r)),
    {
        if i == 0 {
            &mut self.x
        } else if i == 1 {
            &mut self.y
        } else {
            &mut self.z
        }
    }

    /// Borrows the component at position `i`, or reports that the vector
    /// has no such position.
    pub fn get(&self, i: usize) -> (r: Result<&T, OutOfRange>)
        ensures
            match r {
                Ok(c) => i < 3 && *c == self@[i as int],
                Err(e) => i >= 3 && e == (OutOfRange { index: i, len: 3 }),
            },
    {
        if i < 3 {
            Ok(self.index(i))
        } else {
            Err(OutOfRange { index: i, len: 3 })
        }
    }

    /// Overwrites the component at position `i`, or reports that the vector
    /// has no such position and leaves it as it is.
    pub fn put(&mut self, i: usize, value: T) -> (r: Result<(), OutOfRange>)
        ensures
            match r {
                Ok(_) => i < 3 && final(self)@ == old(self)@.update(i as int, value),
                Err(e) => i >= 3 && e == (OutOfRange { index: i, len: 3 }) && *final(self) == *old(
                    self,
                ),
            },
    {
        if i < 3 {
            let slot = self.index_mut(i);
            *slot = value;
            Ok(())
        } else {
            Err(OutOfRange { index: i, len: 3 })
        }
    }
}

impl<T: Copy> Vec3<T> {
    /// Returns the component `x`.
    pub fn x(&self) -> (r: T)
        ensures
            r == self.x,
    {
        self.x
    }

    /// Returns the component `y`.
    pub fn y(&self) -> (r: T)
        ensures
            r == self.y,
    {
        self.y
    }

    /// Returns the component `z`.
    pub fn z(&self) -> (r: T)
        ensures
            r == self.z,
    {
        self.z
    }

    /// Returns the component that `a` names.
    pub fn component(&self, a: Axis) -> (r: T)
        requires
            a.position() < 3,
        ensures
            r == self@[a.position()],
    {
        *self.index(a.index())
    }

    /// The vector of two components that the accessor `a b` selects.
    pub open spec fn pick2(self, a: Axis, b: Axis) -> Vec2<T> {
        Vec2 { x: self@[a.position()], y: self@[b.position()] }
    }

    /// The vector of three components that the accessor `a b c` selects.
    pub open spec fn pick3(self, a: Axis, b: Axis, c: Axis) -> Vec3<T> {
        Vec3 { x: self@[a.position()], y: self@[b.position()], z: self@[c.position()] }
    }

    /// Returns the vector whose components are those that `a`, `b` name, in
    /// that order.
    pub fn swizzle2(&self, a: Axis, b: Axis) -> (r: Vec2<T>)
        requires
            a.position() < 3,
            b.position() < 3,
        ensures
            r == self.pick2(a, b),
            r@ == select(self@, seq![a, b]),
    {
        let r = Vec2 { x: self.component(a), y: self.component(b) };
        assert(r@ =~= select(self@, seq![a, b]));
        r
    }

    /// Returns the vector whose components are those that `a`, `b`, `c` name, in
    /// that order.
    pub fn swizzle3(&self, a: Axis, b: Axis, c: Axis) -> (r: Vec3<T>)
        requires
            a.position() < 3,
            b.position() < 3,
            c.position() < 3,
        ensures
            r == self.pick3(a, b, c),
            r@ == select(self@, seq![a, b, c]),
    {
        let r = Vec3 { x: self.component(a), y: self.component(b), z: self.component(c) };
        assert(r@ =~= select(self@, seq![a, b, c]));
        r
    }

    /// Applies an accessor: yields the components that `axes` name, in that
    /// order, as a bare component for one axis and as a vector otherwise.
    ///
    /// Fails when `axes` is empty or longer than three, or when one of its axes
    /// names a component that this vector does not have.
    pub fn swizzle(&self, axes: &[Axis]) -> (r: Result<Swizzled<T>, SwizzleError>)
        ensures
            match r {
                Ok(s) => fault(3, axes@) is None && s@ == select(self@, axes@),
                Err(e) => fault(3, axes@) == Some(e),
            },
    {
        match check_accessor(3, axes) {
            Err(e) => Err(e),
            Ok(_) => {
                let r = if axes.len() == 1 {
                    Swizzled::One(self.component(axes[0]))
                } else if axes.len() == 2 {
                    Swizzled::Two(self.swizzle2(axes[0], axes[1]))
                } else {
                    Swizzled::Three(self.swizzle3(axes[0], axes[1], axes[2]))
                };
                assert(r@ =~= select(self@, axes@));
                Ok(r)
            },
        }
    }

    /// Applies the accessor called `name`, one axis for each of its letters.
    ///
    /// Fails when `name` holds a character that is not an axis letter, and
    /// otherwise when `swizzle` would fail on the axes that the letters
    /// stand for.
    pub fn swizzle_named(&self, name: &str) -> (r: Result<Swizzled<T>, SwizzleError>)
        ensures
            match r {
                Ok(s) => name_fault(3, name@) is None && s@ == select(self@, axes_of(name@)),
                Err(e) => name_fault(3, name@) == Some(e),
            },
    {
        match parse_accessor(name) {
            Err(e) => Err(e),
            Ok(axes) => self.swizzle(axes.as_slice()),
        }
    }

    /// The accessor that names every axis once, in order, yields the source
    /// itself.
    pub proof fn lemma_identity_swizzle(self)
        ensures
            self.pick3(Axis::X, Axis::Y, Axis::Z) == self,
            select(self@, seq![Axis::X, Axis::Y, Axis::Z]) == self@,
    {
        assert(select(self@, seq![Axis::X, Axis::Y, Axis::Z]) =~= self@);
    }
}

impl<T: Copy + Add<Output = T>> vstd::std_specs::ops::AddSpecImpl<Vec3<T>> for Vec3<T> {
    open spec fn obeys_add_spec() -> bool {
        <T as AddSpec>::obeys_add_spec()
    }

    open spec fn add_req(self, rhs: Vec3<T>) -> bool {
        &&& self.x.add_req(rhs.x)
        &&& self.y.add_req(rhs.y)
        &&& self.z.add_req(rhs.z)
    }

    open spec fn add_spec(self, rhs: Vec3<T>) -> Vec3<T> {
        Vec3 {
            x: self.x.add_spec(rhs.x),
            y: self.y.add_spec(rhs.y),
            z: self.z.add_spec(rhs.z),
        }
    }
}

/// The sum of two vectors, component by component.
impl<T: Copy + Add<Output = T>> Add<Vec3<T>> for Vec3<T> {
    type Output = Vec3<T>;

    fn add(self, rhs: Vec3<T>) -> (r: Vec3<T>)
        ensures
            <T as AddSpec>::obeys_add_spec() ==> r == (Vec3 {
                x: self.x.add_spec(rhs.x),
                y: self.y.add_spec(rhs.y),
                z: self.z.add_spec(rhs.z),
            }),
    {
        Vec3 { x: self.x + rhs.x, y: self.y + rhs.y, z: self.z + rhs.z }
    }
}

impl<T: Copy + Add<Output = T>> vstd::std_specs::ops::AddSpecImpl<T> for Vec3<T> {
    open spec fn obeys_add_spec() -> bool {
        <T as AddSpec>::obeys_add_spec()
    }

    open spec fn add_req(self, rhs: T) -> bool {
        &&& self.x.add_req(rhs)
        &&& self.y.add_req(rhs)
        &&& self.z.add_req(rhs)
    }

    open spec fn add_spec(self, rhs: T) -> Vec3<T> {
        Vec3 {
            x: self.x.add_spec(rhs),
            y: self.y.add_spec(rhs),
            z: self.z.add_spec(rhs),
        }
    }
}

/// The sum of each component and one scalar.
impl<T: Copy + Add<Output = T>> Add<T> for Vec3<T> {
    type Output = Vec3<T>;

    fn add(self, rhs: T) -> (r: Vec3<T>)
        ensures
            <T as AddSpec>::obeys_add_spec() ==> r == (Vec3 {
                x: self.x.add_spec(rhs),
                y: self.y.add_spec(rhs),
                z: self.z.add_spec(rhs),
            }),
    {
        Vec3 { x: self.x + rhs, y: self.y + rhs, z: self.z + rhs }
    }
}

impl<T: Copy + Sub<Output = T>> vstd::std_specs::ops::SubSpecImpl<Vec3<T>> for Vec3<T> {
    open spec fn obeys_sub_spec() -> bool {
        <T as SubSpec>::obeys_sub_spec()
    }

    open spec fn sub_req(self, rhs: Vec3<T>) -> bool {
        &&& self.x.sub_req(rhs.x)
        &&& self.y.sub_req(rhs.y)
        &&& self.z.sub_req(rhs.z)
    }

    open spec fn sub_spec(self, rhs: Vec3<T>) -> Vec3<T> {
        Vec3 {
            x: self.x.sub_spec(rhs.x),
            y: self.y.sub_spec(rhs.y),
            z: self.z.sub_spec(rhs.z),
        }
    }
}

/// The difference of two vectors, component by component.
impl<T: Copy + Sub<Output = T>> Sub<Vec3<T>> for Vec3<T> {
    type Output = Vec3<T>;

    fn sub(self, rhs: Vec3<T>) -> (r: Vec3<T>)
        ensures
            <T as SubSpec>::obeys_sub_spec() ==> r == (Vec3 {
                x: self.x.sub_spec(rhs.x),
                y: self.y.sub_spec(rhs.y),
                z: self.z.sub_spec(rhs.z),
            }),
    {
        Vec3 { x: self.x - rhs.x, y: self.y - rhs.y, z: self.z - rhs.z }
    }
}

impl<T: Copy + Sub<Output = T>> vstd::std_specs::ops::SubSpecImpl<T> for Vec3<T> {
    open spec fn obeys_sub_spec() -> bool {
        <T as SubSpec>::obeys_sub_spec()
    }

    open spec fn sub_req(self, rhs: T) -> bool {
        &&& self.x.sub_req(rhs)
        &&& self.y.sub_req(rhs)
        &&& self.z.sub_req(rhs)
    }

    open spec fn sub_spec(self, rhs: T) -> Vec3<T> {
        Vec3 {
            x: self.x.sub_spec(rhs),
            y: self.y.sub_spec(rhs),
            z: self.z.sub_spec(rhs),
        }
    }
}

/// The difference of each component and one scalar.
impl<T: Copy + Sub<Output = T>> Sub<T> for Vec3<T> {
    type Output = Vec3<T>;

    fn sub(self, rhs: T) -> (r: Vec3<T>)
        ensures
            <T as SubSpec>::obeys_sub_spec() ==> r == (Vec3 {
                x: self.x.sub_spec(rhs),
                y: self.y.sub_spec(rhs),
                z: self.z.sub_spec(rhs),
            }),
    {
        Vec3 { x: self.x - rhs, y: self.y - rhs, z: self.z - rhs }
    }
}

impl<T: Copy + Mul<Output = T>> vstd::std_specs::ops::MulSpecImpl<Vec3<T>> for Vec3<T> {
    open spec fn obeys_mul_spec() -> bool {
        <T as MulSpec>::obeys_mul_spec()
    }

    open spec fn mul_req(self, rhs: Vec3<T>) -> bool {
        &&& self.x.mul_req(rhs.x)
        &&& self.y.mul_req(rhs.y)
        &&& self.z.mul_req(rhs.z)
    }

    open spec fn mul_spec(self, rhs: Vec3<T>) -> Vec3<T> {
        Vec3 {
            x: self.x.mul_spec(rhs.x),
            y: self.y.mul_spec(rhs.y),
            z: self.z.mul_spec(rhs.z),
        }
    }
}

/// The product of two vectors, component by component.
impl<T: Copy + Mul<Output = T>> Mul<Vec3<T>> for Vec3<T> {
    type Output = Vec3<T>;

    fn mul(self, rhs: Vec3<T>) -> (r: Vec3<T>)
        ensures
            <T as MulSpec>::obeys_mul_spec() ==> r == (Vec3 {
                x: self.x.mul_spec(rhs.x),
                y: self.y.mul_spec(rhs.y),
                z: self.z.mul_spec(rhs.z),
            }),
    {
        Vec3 { x: self.x * rhs.x, y: self.y * rhs.y, z: self.z * rhs.z }
    }
}

impl<T: Copy + Mul<Output = T>> vstd::std_specs::ops::MulSpecImpl<T> for Vec3<T> {
    open spec fn obeys_mul_spec() -> bool {
        <T as MulSpec>::obeys_mul_spec()
    }

    open spec fn mul_req(self, rhs: T) -> bool {
        &&& self.x.mul_req(rhs)
        &&& self.y.mul_req(rhs)
        &&& self.z.mul_req(rhs)
    }

    open spec fn mul_spec(self, rhs: T) -> Vec3<T> {
        Vec3 {
            x: self.x.mul_spec(rhs),
            y: self.y.mul_spec(rhs),
            z: self.z.mul_spec(rhs),
        }
    }
}

/// The product of each component and one scalar.
impl<T: Copy + Mul<Output = T>> Mul<T> for Vec3<T> {
    type Output = Vec3<T>;

    fn mul(self, rhs: T) -> (r: Vec3<T>)
        ensures
            <T as MulSpec>::obeys_mul_spec() ==> r == (Vec3 {
                x: self.x.mul_spec(rhs),
                y: self.y.mul_spec(rhs),
                z: self.z.mul_spec(rhs),
            }),
    {
        Vec3 { x: self.x * rhs, y: self.y * rhs, z: self.z * rhs }
    }
}

impl<T: Copy + Div<Output = T>> vstd::std_specs::ops::DivSpecImpl<Vec3<T>> for Vec3<T> {
    open spec fn obeys_div_spec() -> bool {
        <T as DivSpec>::obeys_div_spec()
    }

    open spec fn div_req(self, rhs: Vec3<T>) -> bool {
        &&& self.x.div_req(rhs.x)
        &&& self.y.div_req(rhs.y)
        &&& self.z.div_req(rhs.z)
    }

    open spec fn div_spec(self, rhs: Vec3<T>) -> Vec3<T> {
        Vec3 {
            x: self.x.div_spec(rhs.x),
            y: self.y.div_spec(rhs.y),
            z: self.z.div_spec(rhs.z),
        }
    }
}

/// The quotient of two vectors, component by component.
impl<T: Copy + Div<Output = T>> Div<Vec3<T>> for Vec3<T> {
    type Output = Vec3<T>;

    fn div(self, rhs: Vec3<T>) -> (r: Vec3<T>)
        ensures
            <T as DivSpec>::obeys_div_spec() ==> r == (Vec3 {
                x: self.x.div_spec(rhs.x),
                y: self.y.div_spec(rhs.y),
                z: self.z.div_spec(rhs.z),
            }),
    {
        Vec3 { x: self.x / rhs.x, y: self.y / rhs.y, z: self.z / rhs.z }
    }
}

impl<T: Copy + Div<Output = T>> vstd::std_specs::ops::DivSpecImpl<T> for Vec3<T> {
    open spec fn obeys_div_spec() -> bool {
        <T as DivSpec>::obeys_div_spec()
    }

    open spec fn div_req(self, rhs: T) -> bool {
        &&& self.x.div_req(rhs)
        &&& self.y.div_req(rhs)
        &&& self.z.div_req(rhs)
    }

    open spec fn div_spec(self, rhs: T) -> Vec3<T> {
        Vec3 {
            x: self.x.div_spec(rhs),
            y: self.y.div_spec(rhs),
            z: self.z.div_spec(rhs),
        }
    }
}

/// The quotient of each component and one scalar.
impl<T: Copy + Div<Output = T>> Div<T> for Vec3<T> {
    type Output = Vec3<T>;

    fn div(self, rhs: T) -> (r: Vec3<T>)
        ensures
            <T as DivSpec>::obeys_div_spec() ==> r == (Vec3 {
                x: self.x.div_spec(rhs),
                y: self.y.div_spec(rhs),
                z: self.z.div_spec(rhs),
            }),
    {
        Vec3 { x: self.x / rhs, y: self.y / rhs, z: self.z / rhs }
    }
}

impl<T: Copy + Add<Output = T>> Vec3<T> {
    /// Replaces each component by its sum with the same component of
    /// `rhs`.
    pub fn add_assign(&mut self, rhs: Vec3<T>)
        requires
            old(self).add_req(rhs),
        ensures
            <T as AddSpec>::obeys_add_spec() ==> *final(self) == old(self).add_spec(rhs),
    {
        self.x = self.x + rhs.x;
        self.y = self.y + rhs.y;
        self.z = self.z + rhs.z;
    }

    /// Replaces each component by its sum with one scalar.
    pub fn add_assign_scalar(&mut self, rhs: T)
        requires
            old(self).add_req(rhs),
        ensures
            <T as AddSpec>::obeys_add_spec() ==> *final(self) == old(self).add_spec(rhs),
    {
        self.x = self.x + rhs;
        self.y = self.y + rhs;
        self.z = self.z + rhs;
    }
}

impl<T: Copy + Sub<Output = T>> Vec3<T> {
    /// Replaces each component by its difference with the same component of
    /// `rhs`.
    pub fn sub_assign(&mut self, rhs: Vec3<T>)
        requires
            old(self).sub_req(rhs),
        ensures
            <T as SubSpec>::obeys_sub_spec() ==> *final(self) == old(self).sub_spec(rhs),
    {
        self.x = self.x - rhs.x;
        self.y = self.y - rhs.y;
        self.z = self.z - rhs.z;
    }

    /// Replaces each component by its difference with one scalar.
    pub fn sub_assign_scalar(&mut self, rhs: T)
        requires
            old(self).sub_req(rhs),
        ensures
            <T as SubSpec>::obeys_sub_spec() ==> *final(self) == old(self).sub_spec(rhs),
    {
        self.x = self.x - rhs;
        self.y = self.y - rhs;
        self.z = self.z - rhs;
    }
}

impl<T: Copy + Mul<Output = T>> Vec3<T> {
    /// Replaces each component by its product with the same component of
    /// `rhs`.
    pub fn mul_assign(&mut self, rhs: Vec3<T>)
        requires
            old(self).mul_req(rhs),
        ensures
            <T as MulSpec>::obeys_mul_spec() ==> *final(self) == old(self).mul_spec(rhs),
    {
        self.x = self.x * rhs.x;
        self.y = self.y * rhs.y;
        self.z = self.z * rhs.z;
    }

    /// Replaces each component by its product with one scalar.
    pub fn mul_assign_scalar(&mut self, rhs: T)
        requires
            old(self).mul_req(rhs),
        ensures
            <T as MulSpec>::obeys_mul_spec() ==> *final(self) == old(self).mul_spec(rhs),
    {
        self.x = self.x * rhs;
        self.y = self.y * rhs;
        self.z = self.z * rhs;
    }
}

impl<T: Copy + Div<Output = T>> Vec3<T> {
    /// Replaces each component by its quotient with the same component of
    /// `rhs`.
    pub fn div_assign(&mut self, rhs: Vec3<T>)
        requires
            old(self).div_req(rhs),
        ensures
            <T as DivSpec>::obeys_div_spec() ==> *final(self) == old(self).div_spec(rhs),
    {
        self.x = self.x / rhs.x;
        self.y = self.y / rhs.y;
        self.z = self.z / rhs.z;
    }

    /// Replaces each component by its quotient with one scalar.
    pub fn div_assign_scalar(&mut self, rhs: T)
        requires
            old(self).div_req(rhs),
        ensures
            <T as DivSpec>::obeys_div_spec() ==> *final(self) == old(self).div_spec(rhs),
    {
        self.x = self.x / rhs;
        self.y = self.y / rhs;
        self.z = self.z / rhs;
    }
}

impl<T: Scalar> Vec3<T> {
    /// The vector whose components stand for the given whole numbers.
    pub open spec fn of_whole(x: i8, y: i8, z: i8) -> Self {
        Vec3 { x: whole(x), y: whole(y), z: whole(z) }
    }

    /// The vector with every component at 0.
    pub fn zero() -> (r: Self)
        ensures
            exact::<T>() ==> r == Self::of_whole(0i8, 0i8, 0i8),
            r.x == r.y && r.x == r.z,
    {
        let zero: T = whole_of(0i8);
        Vec3 { x: zero, y: zero, z: zero }
    }

    /// The vector with every component at 1.
    pub fn one() -> (r: Self)
        ensures
            exact::<T>() ==> r == Self::of_whole(1i8, 1i8, 1i8),
            r.x == r.y && r.x == r.z,
    {
        let one: T = whole_of(1i8);
        Vec3 { x: one, y: one, z: one }
    }

    /// The direction with `x` at -1 and the other two axes at 0.
    pub fn left() -> (r: Self)
        ensures
            exact::<T>() ==> r == Self::of_whole(-1i8, 0i8, 0i8),
            r.y == r.z,
    {
        let minus_one: T = whole_of(-1i8);
        let zero: T = whole_of(0i8);
        Vec3 { x: minus_one, y: zero, z: zero }
    }

    /// The direction with `x` at 1 and the other two axes at 0.
    pub fn right() -> (r: Self)
        ensures
            exact::<T>() ==> r == Self::of_whole(1i8, 0i8, 0i8),
            r.y == r.z,
    {
        let one: T = whole_of(1i8);
        let zero: T = whole_of(0i8);
        Vec3 { x: one, y: zero, z: zero }
    }

    /// The direction with `y` at -1 and the other two axes at 0.
    pub fn down() -> (r: Self)
        ensures
            exact::<T>() ==> r == Self::of_whole(0i8, -1i8, 0i8),
            r.x == r.z,
    {
        let zero: T = whole_of(0i8);
        let minus_one: T = whole_of(-1i8);
        Vec3 { x: zero, y: minus_one, z: zero }
    }

    /// The direction with `y` at 1 and the other two axes at 0.
    pub fn up() -> (r: Self)
        ensures
            exact::<T>() ==> r == Self::of_whole(0i8, 1i8, 0i8),
            r.x == r.z,
    {
        let zero: T = whole_of(0i8);
        let one: T = whole_of(1i8);
        Vec3 { x: zero, y: one, z: zero }
    }

    /// The direction with `z` at -1 and the other two axes at 0.
    pub fn backward() -> (r: Self)
        ensures
            exact::<T>() ==> r == Self::of_whole(0i8, 0i8, -1i8),
            r.x == r.y,
    {
        let zero: T = whole_of(0i8);
        let minus_one: T = whole_of(-1i8);
        Vec3 { x: zero, y: zero, z: minus_one }
    }

    /// The direction with `z` at 1 and the other two axes at 0.
    pub fn forward() -> (r: Self)
        ensures
            exact::<T>() ==> r == Self::of_whole(0i8, 0i8, 1i8),
            r.x == r.y,
    {
        let zero: T = whole_of(0i8);
        let one: T = whole_of(1i8);
        Vec3 { x: zero, y: zero, z: one }
    }

    /// Whether the dot product with `other` can be computed.
    pub open spec fn dot_req(self, other: Self) -> bool {
        dot3_req(self.x, other.x, self.y, other.y, self.z, other.z)
    }

    /// The dot product with `other`: the sum of the products of matching
    /// components, summed from the first.
    pub open spec fn dot_spec(self, other: Self) -> T {
        dot3_spec(self.x, other.x, self.y, other.y, self.z, other.z)
    }

    /// Whether the squared distance to `b` can be computed.
    pub open spec fn distance_squared_req(self, b: Self) -> bool {
        self.sub_req(b) && self.sub_spec(b).dot_req(self.sub_spec(b))
    }

    /// Computes the dot product with `other`.
    pub fn dot(&self, other: &Self) -> (r: T)
        requires
            numeric::<T>(),
            exact::<T>() ==> self.dot_req(*other),
        ensures
            exact::<T>() ==> r == self.dot_spec(*other),
    {
        dot3(self.x, other.x, self.y, other.y, self.z, other.z)
    }

    /// Computes the square of the length: the dot product of the vector with
    /// itself.
    pub fn length_squared(&self) -> (r: T)
        requires
            numeric::<T>(),
            exact::<T>() ==> self.dot_req(*self),
        ensures
            exact::<T>() ==> r == self.dot_spec(*self),
    {
        self.dot(self)
    }

    /// Computes the square of the distance to `b`: the squared length of
    /// `self - b`.
    pub fn distance_squared(&self, b: &Self) -> (r: T)
        requires
            numeric::<T>(),
            exact::<T>() ==> self.distance_squared_req(*b),
        ensures
            exact::<T>() ==> r == self.sub_spec(*b).dot_spec(self.sub_spec(*b)),
    {
        let d = *self - *b;
        d.length_squared()
    }

    /// Whether the cross product with `b` can be computed.
    pub open spec fn cross_req(self, b: Self) -> bool {
        &&& det2_req(self.y, b.z, self.z, b.y)
        &&& det2_req(self.z, b.x, self.x, b.z)
        &&& det2_req(self.x, b.y, self.y, b.x)
    }

    /// The cross product with `b`.
    pub open spec fn cross_spec(self, b: Self) -> Self {
        Vec3 {
            x: det2_spec(self.y, b.z, self.z, b.y),
            y: det2_spec(self.z, b.x, self.x, b.z),
            z: det2_spec(self.x, b.y, self.y, b.x),
        }
    }

    /// Computes the cross product with `b`.
    pub fn cross(&self, b: Self) -> (r: Self)
        requires
            numeric::<T>(),
            exact::<T>() ==> self.cross_req(b),
        ensures
            exact::<T>() ==> r == self.cross_spec(b),
    {
        Vec3 {
            x: det2(self.y, b.z, self.z, b.y),
            y: det2(self.z, b.x, self.x, b.z),
            z: det2(self.x, b.y, self.y, b.x),
        }
    }
}

/// The cross product is anticommutative: each component of `a x b` is the
/// negation of the same component of `b x a`.
pub proof fn lemma_cross_anticommutative<T: Whole>(a: Vec3<T>, b: Vec3<T>)
    requires
        a.cross_req(b),
        b.cross_req(a),
    ensures
        a.cross_spec(b).x.value() == -b.cross_spec(a).x.value(),
        a.cross_spec(b).y.value() == -b.cross_spec(a).y.value(),
        a.cross_spec(b).z.value() == -b.cross_spec(a).z.value(),
{
    let (ax, ay, az) = (a.x.value(), a.y.value(), a.z.value());
    let (bx, by, bz) = (b.x.value(), b.y.value(), b.z.value());
    lemma_det2_value(a.y, b.z, a.z, b.y);
    lemma_det2_value(a.z, b.x, a.x, b.z);
    lemma_det2_value(a.x, b.y, a.y, b.x);
    lemma_det2_value(b.y, a.z, b.z, a.y);
    lemma_det2_value(b.z, a.x, b.x, a.z);
    lemma_det2_value(b.x, a.y, b.y, a.x);
    assert(ay * bz == bz * ay && az * by == by * az) by (nonlinear_arith);
    assert(az * bx == bx * az && ax * bz == bz * ax) by (nonlinear_arith);
    assert(ax * by == by * ax && ay * bx == bx * ay) by (nonlinear_arith);
}

/// The cross product of a vector with itself is zero.
pub proof fn lemma_cross_self<T: Whole>(a: Vec3<T>)
    requires
        a.cross_req(a),
    ensures
        a.cross_spec(a) == Vec3::<T>::of_whole(0i8, 0i8, 0i8),
{
    lemma_cross_parallel(a, a);
}

/// The cross product is zero exactly when its arguments are parallel: when
/// the products of their components across pairs of axes agree.  The zero
/// vector is parallel to every vector.
pub proof fn lemma_cross_parallel<T: Whole>(a: Vec3<T>, b: Vec3<T>)
    requires
        a.cross_req(b),
    ensures
        a.cross_spec(b) == Vec3::<T>::of_whole(0i8, 0i8, 0i8) <==> {
            &&& a.y.value() * b.z.value() == a.z.value() * b.y.value()
            &&& a.z.value() * b.x.value() == a.x.value() * b.z.value()
            &&& a.x.value() * b.y.value() == a.y.value() * b.x.value()
        },
        a == Vec3::<T>::of_whole(0i8, 0i8, 0i8) ==> a.cross_spec(b) == Vec3::<T>::of_whole(
            0i8,
            0i8,
            0i8,
        ),
{
    let n = a.cross_spec(b);
    let zero = whole::<T>(0);
    T::lemma_whole(0i8);
    lemma_det2_value(a.y, b.z, a.z, b.y);
    lemma_det2_value(a.z, b.x, a.x, b.z);
    lemma_det2_value(a.x, b.y, a.y, b.x);
    if n.x.value() == 0 {
        T::lemma_same_value(n.x, zero);
    }
    if n.y.value() == 0 {
        T::lemma_same_value(n.y, zero);
    }
    if n.z.value() == 0 {
        T::lemma_same_value(n.z, zero);
    }
    if a == Vec3::<T>::of_whole(0i8, 0i8, 0i8) {
        let (bx, by, bz) = (b.x.value(), b.y.value(), b.z.value());
        let (ax, ay, az) = (a.x.value(), a.y.value(), a.z.value());
        assert(ay * bz == 0 && az * by == 0 && az * bx == 0 && ax * bz == 0 && ax * by == 0 && ay
            * bx == 0) by (nonlinear_arith)
            requires
                ax == 0 && ay == 0 && az == 0,
        ;
    }
}

/// The cross product is at right angles to both of its arguments.
pub proof fn lemma_cross_orthogonal<T: Whole>(a: Vec3<T>, b: Vec3<T>)
    requires
        a.cross_req(b),
    ensures
        ({
            let n = a.cross_spec(b);
            &&& a.x.value() * n.x.value() + a.y.value() * n.y.value() + a.z.value() * n.z.value()
                == 0
            &&& b.x.value() * n.x.value() + b.y.value() * n.y.value() + b.z.value() * n.z.value()
                == 0
        }),
{
    let (ax, ay, az) = (a.x.value(), a.y.value(), a.z.value());
    let (bx, by, bz) = (b.x.value(), b.y.value(), b.z.value());
    lemma_det2_value(a.y, b.z, a.z, b.y);
    lemma_det2_value(a.z, b.x, a.x, b.z);
    lemma_det2_value(a.x, b.y, a.y, b.x);
    assert(ax * (ay * bz - az * by) + ay * (az * bx - ax * bz) + az * (ax * by - ay * bx) == 0)
        by (nonlinear_arith);
    assert(bx * (ay * bz - az * by) + by * (az * bx - ax * bz) + bz * (ax * by - ay * bx) == 0)
        by (nonlinear_arith);
}

/// The squared length, which is the dot product of a vector with itself,
/// is the sum of the squares of the components.  It is never negative, and
/// it is zero for the zero vector alone.
pub proof fn lemma_length_squared<T: Whole>(a: Vec3<T>)
    requires
        a.dot_req(a),
    ensures
        a.dot_spec(a).value() == a.x.value() * a.x.value()
            + a.y.value() * a.y.value()
            + a.z.value() * a.z.value(),
        a.dot_spec(a).value() >= 0,
        a.dot_spec(a).value() == 0 <==> a == Vec3::<T>::of_whole(0i8, 0i8, 0i8),
{
    let x = a.x.value();
    let y = a.y.value();
    let z = a.z.value();
    lemma_dot3_value(a.x, a.x, a.y, a.y, a.z, a.z);
    assert(x * x >= 0 && (x * x == 0 <==> x == 0)) by (nonlinear_arith);
    assert(y * y >= 0 && (y * y == 0 <==> y == 0)) by (nonlinear_arith);
    assert(z * z >= 0 && (z * z == 0 <==> z == 0)) by (nonlinear_arith);
    T::lemma_whole(0i8);
    let zero = Vec3::<T>::of_whole(0i8, 0i8, 0i8);
    if x == 0 && y == 0 && z == 0 {
        T::lemma_same_value(a.x, zero.x);
        T::lemma_same_value(a.y, zero.y);
        T::lemma_same_value(a.z, zero.z);
    }
}

} // verus!
