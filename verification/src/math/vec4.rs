//! Vectors of four components.

use crate::math::axis::Axis;
use crate::math::scalar::{det3, det3_req, det3_spec, dot4, dot4_req, dot4_spec, exact, numeric, Scalar, whole, whole_of};
use crate::math::swizzle::{
    check_accessor, fault, name_fault, parse_accessor, select, axes_of, OutOfRange, SwizzleError,
    Swizzled,
};
use crate::math::vec2::Vec2;
use crate::math::vec3::Vec3;
use crate::math::whole::{lemma_det3_value, lemma_dot4_value, Whole};
use std::ops::{Add, Div, Mul, Neg, Sub};
use vstd::prelude::*;
use vstd::std_specs::ops::{AddSpec, DivSpec, MulSpec, SubSpec};
use vstd::std_specs::ops::NegSpec;

verus! {

/// A vector of four components of one element type.
///
/// The components are ordered: `x` is at position 0, `y` is at position 1, `z` is at position 2, `w` is at position 3.
#[derive(Copy, Clone, PartialEq, Eq, PartialOrd, Ord, Debug)]
pub struct Vec4<T> {
    /// The component at position 0.
    pub x: T,
    /// The component at position 1.
    pub y: T,
    /// The component at position 2.
    pub z: T,
    /// The component at position 3.
    pub w: T,
}

impl<T> View for Vec4<T> {
    type V = Seq<T>;

    /// The components, in order.
    open spec fn view(&self) -> Seq<T> {
        seq![self.x, self.y, self.z, self.w]
    }
}

impl<T: Copy> Vec4<T> {
    /// The vector whose components are the first four elements of `s`.
    pub open spec fn from_seq(s: Seq<T>) -> Self {
        Vec4 { x: s[0], y: s[1], z: s[2], w: s[3] }
    }

    /// Makes a vector of the given components.
    pub fn from(x: T, y: T, z: T, w: T) -> (r: Self)
        ensures
            r == (Vec4 { x, y, z, w }),
    {
        Vec4 { x, y, z, w }
    }

    /// Makes a vector of the elements of an array, in order.
    pub fn from_array(a: [T; 4]) -> (r: Self)
        ensures
            r == Self::from_seq(a@),
            r@ == a@,
    {
        let r = Vec4 { x: a[0], y: a[1], z: a[2], w: a[3] };
        assert(r@ =~= a@);
        r
    }

    /// Returns the components as an array, in order.
    pub fn to_array(&self) -> (a: [T; 4])
        ensures
            a@ == self@,
    {
        let a = [self.x, self.y, self.z, self.w];
        assert(a@ =~= self@);
        a
    }

    /// Overwrites every component.
    pub fn set(&mut self, x: T, y: T, z: T, w: T)
        ensures
            *final(self) == (Vec4 { x, y, z, w }),
    {
        self.x = x;
        self.y = y;
        self.z = z;
        self.w = w;
    }

    /// Overwrites every component with the elements of an array, in order.
    pub fn set_array(&mut self, a: [T; 4])
        ensures
            *final(self) == Self::from_seq(a@),
            final(self)@ == a@,
    {
        self.x = a[0];
        self.y = a[1];
        self.z = a[2];
        self.w = a[3];
        assert(self@ =~= a@);
    }

    /// A vector made of the components of `self` is `self`: converting to
    /// an array and back changes nothing.
    pub proof fn lemma_array_round_trip(self)
        ensures
            Self::from_seq(self@) == self,
    {
    }

    /// The components of a vector made of four elements are those elements:
    /// converting from an array and back changes nothing.
    pub proof fn lemma_seq_round_trip(s: Seq<T>)
        requires
            s.len() == 4,
        ensures
            Self::from_seq(s)@ == s,
    {
        assert(Self::from_seq(s)@ =~= s);
    }

    /// A vector is fixed by its components.
    pub proof fn lemma_by_view(self, other: Self)
        requires
            self@ == other@,
        ensures
            self == other,
    {
        assert(self@[0] == other@[0] && self@[1] == other@[1] && self@[2] == other@[2] && self@[3] == other@[3]);
    }
}

impl<T> Vec4<T> {
    /// Borrows the component at position `i`.
    pub fn index(&self, i: usize) -> (r: &T)
        requires
            i < 4,
        ensures
            *r == self@[i as int],
    {
        if i == 0 {
            &self.x
        } else if i == 1 {
            &self.y
        } else if i == 2 {
            &self.z
        } else {
            &self.w
        }
    }

    /// Borrows the component at position `i` for writing.  Nothing but that
    /// component can change through the borrow.
    pub fn index_mut(&mut self, i: usize) -> (r: &mut T)
        requires
            i < 4,
        ensures
            *r == old(self)@[i as int],
            final(self)@ == old(self)@.update(i as int, *final(r)),
    {
        if i == 0 {
            &mut self.x
        } else if i == 1 {
            &mut self.y
        } else if i == 2 {
            &mut self.z
        } else {
            &mut self.w
        }
    }

    /// Borrows the component at position `i`, or reports that the vector
    /// has no such position.
    pub fn get(&self, i: usize) -> (r: Result<&T, OutOfRange>)
        ensures
            match r {
                Ok(c) => i < 4 && *c == self@[i as int],
                Err(e) => i >= 4 && e == (OutOfRange { index: i, len: 4 }),
            },
    {
        if i < 4 {
            Ok(self.index(i))
        } else {
            Err(OutOfRange { index: i, len: 4 })
        }
    }

    /// Overwrites the component at position `i`, or reports that the vector
    /// has no such position and leaves it as it is.
    pub fn put(&mut self, i: usize, value: T) -> (r: Result<(), OutOfRange>)
        ensures
            match r {
                Ok(_) => i < 4 && final(self)@ == old(self)@.update(i as int, value),
                Err(e) => i >= 4 && e == (OutOfRange { index: i, len: 4 }) && *final(self) == *old(
                    self,
                ),
            },
    {
        if i < 4 {
            let slot = self.index_mut(i);
            *slot = value;
            Ok(())
        } else {
            Err(OutOfRange { index: i, len: 4 })
        }
    }
}

impl<T: Copy> Vec4<T> {
    /// Returns the component `x`.
    pub fn x(&self) -> (r: T)
        ensures
            r == self.x,
    {
        self.x
    }

    /// Returns the component `y`.
    pub fn y(&self) -> (r: T)
        ensures
            r == self.y,
    {
        self.y
    }

    /// Returns the component `z`.
    pub fn z(&self) -> (r: T)
        ensures
            r == self.z,
    {
        self.z
    }

    /// Returns the component `w`.
    pub fn w(&self) -> (r: T)
        ensures
            r == self.w,
    {
        self.w
    }

    /// Returns the component that `a` names.
    pub fn component(&self, a: Axis) -> (r: T)
        ensures
            r == self@[a.position()],
    {
        *self.index(a.index())
    }

    /// The vector of two components that the accessor `a b` selects.
    pub open spec fn pick2(self, a: Axis, b: Axis) -> Vec2<T> {
        Vec2 { x: self@[a.position()], y: self@[b.position()] }
    }

    /// The vector of three components that the accessor `a b c` selects.
    pub open spec fn pick3(self, a: Axis, b: Axis, c: Axis) -> Vec3<T> {
        Vec3 { x: self@[a.position()], y: self@[b.position()], z: self@[c.position()] }
    }

    /// The vector of four components that the accessor `a b c d` selects.
    pub open spec fn pick4(self, a: Axis, b: Axis, c: Axis, d: Axis) -> Vec4<T> {
        Vec4 { x: self@[a.position()], y: self@[b.position()], z: self@[c.position()], w: self@[d.position()] }
    }

    /// Returns the vector whose components are those that `a`, `b` name, in
    /// that order.
    pub fn swizzle2(&self, a: Axis, b: Axis) -> (r: Vec2<T>)
        ensures
            r == self.pick2(a, b),
            r@ == select(self@, seq![a, b]),
    {
        let r = Vec2 { x: self.component(a), y: self.component(b) };
        assert(r@ =~= select(self@, seq![a, b]));
        r
    }

    /// Returns the vector whose components are those that `a`, `b`, `c` name, in
    /// that order.
    pub fn swizzle3(&self, a: Axis, b: Axis, c: Axis) -> (r: Vec3<T>)
        ensures
            r == self.pick3(a, b, c),
            r@ == select(self@, seq![a, b, c]),
    {
        let r = Vec3 { x: self.component(a), y: self.component(b), z: self.component(c) };
        assert(r@ =~= select(self@, seq![a, b, c]));
        r
    }

    /// Returns the vector whose components are those that `a`, `b`, `c`, `d` name, in
    /// that order.
    pub fn swizzle4(&self, a: Axis, b: Axis, c: Axis, d: Axis) -> (r: Vec4<T>)
        ensures
            r == self.pick4(a, b, c, d),
            r@ == select(self@, seq![a, b, c, d]),
    {
        let r = Vec4 { x: self.component(a), y: self.component(b), z: self.component(c), w: self.component(d) };
        assert(r@ =~= select(self@, seq![a, b, c, d]));
        r
    }

    /// Applies an accessor: yields the components that `axes` name, in that
    /// order, as a bare component for one axis and as a vector otherwise.
    ///
    /// Fails when `axes` is empty or longer than four, or when one of its axes
    /// names a component that this vector does not have.
    pub fn swizzle(&self, axes: &[Axis]) -> (r: Result<Swizzled<T>, SwizzleError>)
        ensures
            match r {
                Ok(s) => fault(4, axes@) is None && s@ == select(self@, axes@),
                Err(e) => fault(4, axes@) == Some(e),
            },
    {
        match check_accessor(4, axes) {
            Err(e) => Err(e),
            Ok(_) => {
                let r = if axes.len() == 1 {
                    Swizzled::One(self.component(axes[0]))
                } else if axes.len() == 2 {
                    Swizzled::Two(self.swizzle2(axes[0], axes[1]))
                } else if axes.len() == 3 {
                    Swizzled::Three(self.swizzle3(axes[0], axes[1], axes[2]))
                } else {
                    Swizzled::Four(self.swizzle4(axes[0], axes[1], axes[2], axes[3]))
                };
                assert(r@ =~= select(self@, axes@));
                Ok(r)
            },
        }
    }

    /// Applies the accessor called `name`, one axis for each of its letters.
    ///
    /// Fails when `name` holds a character that is not an axis letter, and
    /// otherwise when `swizzle` would fail on the axes that the letters
    /// stand for.
    pub fn swizzle_named(&self, name: &str) -> (r: Result<Swizzled<T>, SwizzleError>)
        ensures
            match r {
                Ok(s) => name_fault(4, name@) is None && s@ == select(self@, axes_of(name@)),
                Err(e) => name_fault(4, name@) == Some(e),
            },
    {
        match parse_accessor(name) {
            Err(e) => Err(e),
            Ok(axes) => self.swizzle(axes.as_slice()),
        }
    }

    /// The accessor that names every axis once, in order, yields the source
    /// itself.
    pub proof fn lemma_identity_swizzle(self)
        ensures
            self.pick4(Axis::X, Axis::Y, Axis::Z, Axis::W) == self,
            select(self@, seq![Axis::X, Axis::Y, Axis::Z, Axis::W]) == self@,
    {
        assert(select(self@, seq![Axis::X, Axis::Y, Axis::Z, Axis::W]) =~= self@);
    }
}

impl<T: Copy + Add<Output = T>> vstd::std_specs::ops::AddSpecImpl<Vec4<T>> for Vec4<T> {
    open spec fn obeys_add_spec() -> bool {
        <T as AddSpec>::obeys_add_spec()
    }

    open spec fn add_req(self, rhs: Vec4<T>) -> bool {
        &&& self.x.add_req(rhs.x)
        &&& self.y.add_req(rhs.y)
        &&& self.z.add_req(rhs.z)
        &&& self.w.add_req(rhs.w)
    }

    open spec fn add_spec(self, rhs: Vec4<T>) -> Vec4<T> {
        Vec4 {
            x: self.x.add_spec(rhs.x),
            y: self.y.add_spec(rhs.y),
            z: self.z.add_spec(rhs.z),
            w: self.w.add_spec(rhs.w),
        }
    }
}

/// The sum of two vectors, component by component.
impl<T: Copy + Add<Output = T>> Add<Vec4<T>> for Vec4<T> {
    type Output = Vec4<T>;

    fn add(self, rhs: Vec4<T>) -> (r: Vec4<T>)
        ensures
            <T as AddSpec>::obeys_add_spec() ==> r == (Vec4 {
                x: self.x.add_spec(rhs.x),
                y: self.y.add_spec(rhs.y),
                z: self.z.add_spec(rhs.z),
                w: self.w.add_spec(rhs.w),
            }),
    {
        Vec4 { x: self.x + rhs.x, y: self.y + rhs.y, z: self.z + rhs.z, w: self.w + rhs.w }
    }
}

impl<T: Copy + Add<Output = T>> vstd::std_specs::ops::AddSpecImpl<T> for Vec4<T> {
    open spec fn obeys_add_spec() -> bool {
        <T as AddSpec>::obeys_add_spec()
    }

    open spec fn add_req(self, rhs: T) -> bool {
        &&& self.x.add_req(rhs)
        &&& self.y.add_req(rhs)
        &&& self.z.add_req(rhs)
        &&& self.w.add_req(rhs)
    }

    open spec fn add_spec(self, rhs: T) -> Vec4<T> {
        Vec4 {
            x: self.x.add_spec(rhs),
            y: self.y.add_spec(rhs),
            z: self.z.add_spec(rhs),
            w: self.w.add_spec(rhs),
        }
    }
}

/// The sum of each component and one scalar.
impl<T: Copy + Add<Output = T>> Add<T> for Vec4<T> {
    type Output = Vec4<T>;

    fn add(self, rhs: T) -> (r: Vec4<T>)
        ensures
            <T as AddSpec>::obeys_add_spec() ==> r == (Vec4 {
                x: self.x.add_spec(rhs),
                y: self.y.add_spec(rhs),
                z: self.z.add_spec(rhs),
                w: self.w.add_spec(rhs),
            }),
    {
        Vec4 { x: self.x + rhs, y: self.y + rhs, z: self.z + rhs, w: self.w + rhs }
    }
}

impl<T: Copy + Sub<Output = T>> vstd::std_specs::ops::SubSpecImpl<Vec4<T>> for Vec4<T> {
    open spec fn obeys_sub_spec() -> bool {
        <T as SubSpec>::obeys_sub_spec()
    }

    open spec fn sub_req(self, rhs: Vec4<T>) -> bool {
        &&& self.x.sub_req(rhs.x)
        &&& self.y.sub_req(rhs.y)
        &&& self.z.sub_req(rhs.z)
        &&& self.w.sub_req(rhs.w)
    }

    open spec fn sub_spec(self, rhs: Vec4<T>) -> Vec4<T> {
        Vec4 {
            x: self.x.sub_spec(rhs.x),
            y: self.y.sub_spec(rhs.y),
            z: self.z.sub_spec(rhs.z),
            w: self.w.sub_spec(rhs.w),
        }
    }
}

/// The difference of two vectors, component by component.
impl<T: Copy + Sub<Output = T>> Sub<Vec4<T>> for Vec4<T> {
    type Output = Vec4<T>;

    fn sub(self, rhs: Vec4<T>) -> (r: Vec4<T>)
        ensures
            <T as SubSpec>::obeys_sub_spec() ==> r == (Vec4 {
                x: self.x.sub_spec(rhs.x),
                y: self.y.sub_spec(rhs.y),
                z: self.z.sub_spec(rhs.z),
                w: self.w.sub_spec(rhs.w),
            }),
    {
        Vec4 { x: self.x - rhs.x, y: self.y - rhs.y, z: self.z - rhs.z, w: self.w - rhs.w }
    }
}

impl<T: Copy + Sub<Output = T>> vstd::std_specs::ops::SubSpecImpl<T> for Vec4<T> {
    open spec fn obeys_sub_spec() -> bool {
        <T as SubSpec>::obeys_sub_spec()
    }

    open spec fn sub_req(self, rhs: T) -> bool {
        &&& self.x.sub_req(rhs)
        &&& self.y.sub_req(rhs)
        &&& self.z.sub_req(rhs)
        &&& self.w.sub_req(rhs)
    }

    open spec fn sub_spec(self, rhs: T) -> Vec4<T> {
        Vec4 {
            x: self.x.sub_spec(rhs),
            y: self.y.sub_spec(rhs),
            z: self.z.sub_spec(rhs),
            w: self.w.sub_spec(rhs),
        }
    }
}

/// The difference of each component and one scalar.
impl<T: Copy + Sub<Output = T>> Sub<T> for Vec4<T> {
    type Output = Vec4<T>;

    fn sub(self, rhs: T) -> (r: Vec4<T>)
        ensures
            <T as SubSpec>::obeys_sub_spec() ==> r == (Vec4 {
                x: self.x.sub_spec(rhs),
                y: self.y.sub_spec(rhs),
                z: self.z.sub_spec(rhs),
                w: self.w.sub_spec(rhs),
            }),
    {
        Vec4 { x: self.x - rhs, y: self.y - rhs, z: self.z - rhs, w: self.w - rhs }
    }
}

impl<T: Copy + Mul<Output = T>> vstd::std_specs::ops::MulSpecImpl<Vec4<T>> for Vec4<T> {
    open spec fn obeys_mul_spec() -> bool {
        <T as MulSpec>::obeys_mul_spec()
    }

    open spec fn mul_req(self, rhs: Vec4<T>) -> bool {
        &&& self.x.mul_req(rhs.x)
        &&& self.y.mul_req(rhs.y)
        &&& self.z.mul_req(rhs.z)
        &&& self.w.mul_req(rhs.w)
    }

    open spec fn mul_spec(self, rhs: Vec4<T>) -> Vec4<T> {
        Vec4 {
            x: self.x.mul_spec(rhs.x),
            y: self.y.mul_spec(rhs.y),
            z: self.z.mul_spec(rhs.z),
            w: self.w.mul_spec(rhs.w),
        }
    }
}

/// The product of two vectors, component by component.
impl<T: Copy + Mul<Output = T>> Mul<Vec4<T>> for Vec4<T> {
    type Output = Vec4<T>;

    fn mul(self, rhs: Vec4<T>) -> (r: Vec4<T>)
        ensures
            <T as MulSpec>::obeys_mul_spec() ==> r == (Vec4 {
                x: self.x.mul_spec(rhs.x),
                y: self.y.mul_spec(rhs.y),
                z: self.z.mul_spec(rhs.z),
                w: self.w.mul_spec(rhs.w),
            }),
    {
        Vec4 { x: self.x * rhs.x, y: self.y * rhs.y, z: self.z * rhs.z, w: self.w * rhs.w }
    }
}

impl<T: Copy + Mul<Output = T>> vstd::std_specs::ops::MulSpecImpl<T> for Vec4<T> {
    open spec fn obeys_mul_spec() -> bool {
        <T as MulSpec>::obeys_mul_spec()
    }

    open spec fn mul_req(self, rhs: T) -> bool {
        &&& self.x.mul_req(rhs)
        &&& self.y.mul_req(rhs)
        &&& self.z.mul_req(rhs)
        &&& self.w.mul_req(rhs)
    }

    open spec fn mul_spec(self, rhs: T) -> Vec4<T> {
        Vec4 {
            x: self.x.mul_spec(rhs),
            y: self.y.mul_spec(rhs),
            z: self.z.mul_spec(rhs),
            w: self.w.mul_spec(rhs),
        }
    }
}

/// The product of each component and one scalar.
impl<T: Copy + Mul<Output = T>> Mul<T> for Vec4<T> {
    type Output = Vec4<T>;

    fn mul(self, rhs: T) -> (r: Vec4<T>)
        ensures
            <T as MulSpec>::obeys_mul_spec() ==> r == (Vec4 {
                x: self.x.mul_spec(rhs),
                y: self.y.mul_spec(rhs),
                z: self.z.mul_spec(rhs),
                w: self.w.mul_spec(rhs),
            }),
    {
        Vec4 { x: self.x * rhs, y: self.y * rhs, z: self.z * rhs, w: self.w * rhs }
    }
}

impl<T: Copy + Div<Output = T>> vstd::std_specs::ops::DivSpecImpl<Vec4<T>> for Vec4<T> {
    open spec fn obeys_div_spec() -> bool {
        <T as DivSpec>::obeys_div_spec()
    }

    open spec fn div_req(self, rhs: Vec4<T>) -> bool {
        &&& self.x.div_req(rhs.x)
        &&& self.y.div_req(rhs.y)
        &&& self.z.div_req(rhs.z)
        &&& self.w.div_req(rhs.w)
    }

    open spec fn div_spec(self, rhs: Vec4<T>) -> Vec4<T> {
        Vec4 {
            x: self.x.div_spec(rhs.x),
            y: self.y.div_spec(rhs.y),
            z: self.z.div_spec(rhs.z),
            w: self.w.div_spec(rhs.w),
        }
    }
}

/// The quotient of two vectors, component by component.
impl<T: Copy + Div<Output = T>> Div<Vec4<T>> for Vec4<T> {
    type Output = Vec4<T>;

    fn div(self, rhs: Vec4<T>) -> (r: Vec4<T>)
        ensures
            <T as DivSpec>::obeys_div_spec() ==> r == (Vec4 {
                x: self.x.div_spec(rhs.x),
                y: self.y.div_spec(rhs.y),
                z: self.z.div_spec(rhs.z),
                w: self.w.div_spec(rhs.w),
            }),
    {
        Vec4 { x: self.x / rhs.x, y: self.y / rhs.y, z: self.z / rhs.z, w: self.w / rhs.w }
    }
}

impl<T: Copy + Div<Output = T>> vstd::std_specs::ops::DivSpecImpl<T> for Vec4<T> {
    open spec fn obeys_div_spec() -> bool {
        <T as DivSpec>::obeys_div_spec()
    }

    open spec fn div_req(self, rhs: T) -> bool {
        &&& self.x.div_req(rhs)
        &&& self.y.div_req(rhs)
        &&& self.z.div_req(rhs)
        &&& self.w.div_req(rhs)
    }

    open spec fn div_spec(self, rhs: T) -> Vec4<T> {
        Vec4 {
            x: self.x.div_spec(rhs),
            y: self.y.div_spec(rhs),
            z: self.z.div_spec(rhs),
            w: self.w.div_spec(rhs),
        }
    }
}

/// The quotient of each component and one scalar.
impl<T: Copy + Div<Output = T>> Div<T> for Vec4<T> {
    type Output = Vec4<T>;

    fn div(self, rhs: T) -> (r: Vec4<T>)
        ensures
            <T as DivSpec>::obeys_div_spec() ==> r == (Vec4 {
                x: self.x.div_spec(rhs),
                y: self.y.div_spec(rhs),
                z: self.z.div_spec(rhs),
                w: self.w.div_spec(rhs),
            }),
    {
        Vec4 { x: self.x / rhs, y: self.y / rhs, z: self.z / rhs, w: self.w / rhs }
    }
}

impl<T: Copy + Add<Output = T>> Vec4<T> {
    /// Replaces each component by its sum with the same component of
    /// `rhs`.
    pub fn add_assign(&mut self, rhs: Vec4<T>)
        requires
            old(self).add_req(rhs),
        ensures
            <T as AddSpec>::obeys_add_spec() ==> *final(self) == old(self).add_spec(rhs),
    {
        self.x = self.x + rhs.x;
        self.y = self.y + rhs.y;
        self.z = self.z + rhs.z;
        self.w = self.w + rhs.w;
    }

    /// Replaces each component by its sum with one scalar.
    pub fn add_assign_scalar(&mut self, rhs: T)
        requires
            old(self).add_req(rhs),
        ensures
            <T as AddSpec>::obeys_add_spec() ==> *final(self) == old(self).add_spec(rhs),
    {
        self.x = self.x + rhs;
        self.y = self.y + rhs;
        self.z = self.z + rhs;
        self.w = self.w + rhs;
    }
}

impl<T: Copy + Sub<Output = T>> Vec4<T> {
    /// Replaces each component by its difference with the same component of
    /// `rhs`.
    pub fn sub_assign(&mut self, rhs: Vec4<T>)
        requires
            old(self).sub_req(rhs),
        ensures
            <T as SubSpec>::obeys_sub_spec() ==> *final(self) == old(self).sub_spec(rhs),
    {
        self.x = self.x - rhs.x;
        self.y = self.y - rhs.y;
        self.z = self.z - rhs.z;
        self.w = self.w - rhs.w;
    }

    /// Replaces each component by its difference with one scalar.
    pub fn sub_assign_scalar(&mut self, rhs: T)
        requires
            old(self).sub_req(rhs),
        ensures
            <T as SubSpec>::obeys_sub_spec() ==> *final(self) == old(self).sub_spec(rhs),
    {
        self.x = self.x - rhs;
        self.y = self.y - rhs;
        self.z = self.z - rhs;
        self.w = self.w - rhs;
    }
}

impl<T: Copy + Mul<Output = T>> Vec4<T> {
    /// Replaces each component by its product with the same component of
    /// `rhs`.
    pub fn mul_assign(&mut self, rhs: Vec4<T>)
        requires
            old(self).mul_req(rhs),
        ensures
            <T as MulSpec>::obeys_mul_spec() ==> *final(self) == old(self).mul_spec(rhs),
    {
        self.x = self.x * rhs.x;
        self.y = self.y * rhs.y;
        self.z = self.z * rhs.z;
        self.w = self.w * rhs.w;
    }

    /// Replaces each component by its product with one scalar.
    pub fn mul_assign_scalar(&mut self, rhs: T)
        requires
            old(self).mul_req(rhs),
        ensures
            <T as MulSpec>::obeys_mul_spec() ==> *final(self) == old(self).mul_spec(rhs),
    {
        self.x = self.x * rhs;
        self.y = self.y * rhs;
        self.z = self.z * rhs;
        self.w = self.w * rhs;
    }
}

impl<T: Copy + Div<Output = T>> Vec4<T> {
    /// Replaces each component by its quotient with the same component of
    /// `rhs`.
    pub fn div_assign(&mut self, rhs: Vec4<T>)
        requires
            old(self).div_req(rhs),
        ensures
            <T as DivSpec>::obeys_div_spec() ==> *final(self) == old(self).div_spec(rhs),
    {
        self.x = self.x / rhs.x;
        self.y = self.y / rhs.y;
        self.z = self.z / rhs.z;
        self.w = self.w / rhs.w;
    }

    /// Replaces each component by its quotient with one scalar.
    pub fn div_assign_scalar(&mut self, rhs: T)
        requires
            old(self).div_req(rhs),
        ensures
            <T as DivSpec>::obeys_div_spec() ==> *final(self) == old(self).div_spec(rhs),
    {
        self.x = self.x / rhs;
        self.y = self.y / rhs;
        self.z = self.z / rhs;
        self.w = self.w / rhs;
    }
}

impl<T: Scalar> Vec4<T> {
    /// The vector whose components stand for the given whole numbers.
    pub open spec fn of_whole(x: i8, y: i8, z: i8, w: i8) -> Self {
        Vec4 { x: whole(x), y: whole(y), z: whole(z), w: whole(w) }
    }

    /// The vector with `x`, `y` and `z` at 0 and `w` at 1.
    pub fn zero() -> (r: Self)
        ensures
            exact::<T>() ==> r == Self::of_whole(0i8, 0i8, 0i8, 1i8),
            r.x == r.y && r.x == r.z,
    {
        let zero: T = whole_of(0i8);
        let one: T = whole_of(1i8);
        Vec4 { x: zero, y: zero, z: zero, w: one }
    }

    /// The vector with `x`, `y` and `z` at 1 and `w` at 1.
    pub fn one() -> (r: Self)
        ensures
            exact::<T>() ==> r == Self::of_whole(1i8, 1i8, 1i8, 1i8),
            r.x == r.y && r.x == r.z && r.x == r.w,
    {
        let one: T = whole_of(1i8);
        Vec4 { x: one, y: one, z: one, w: one }
    }

    /// The direction with `x` at -1, the other two axes at 0 and `w` at 1.
    pub fn left() -> (r: Self)
        ensures
            exact::<T>() ==> r == Self::of_whole(-1i8, 0i8, 0i8, 1i8),
            r.y == r.z,
    {
        let minus_one: T = whole_of(-1i8);
        let zero: T = whole_of(0i8);
        let one: T = whole_of(1i8);
        Vec4 { x: minus_one, y: zero, z: zero, w: one }
    }

    /// The direction with `x` at 1, the other two axes at 0 and `w` at 1.
    pub fn right() -> (r: Self)
        ensures
            exact::<T>() ==> r == Self::of_whole(1i8, 0i8, 0i8, 1i8),
            r.x == r.w,
            r.y == r.z,
    {
        let one: T = whole_of(1i8);
        let zero: T = whole_of(0i8);
        Vec4 { x: one, y: zero, z: zero, w: one }
    }

    /// The direction with `y` at -1, the other two axes at 0 and `w` at 1.
    pub fn down() -> (r: Self)
        ensures
            exact::<T>() ==> r == Self::of_whole(0i8, -1i8, 0i8, 1i8),
            r.x == r.z,
    {
        let zero: T = whole_of(0i8);
        let minus_one: T = whole_of(-1i8);
        let one: T = whole_of(1i8);
        Vec4 { x: zero, y: minus_one, z: zero, w: one }
    }

    /// The direction with `y` at 1, the other two axes at 0 and `w` at 1.
    pub fn up() -> (r: Self)
        ensures
            exact::<T>() ==> r == Self::of_whole(0i8, 1i8, 0i8, 1i8),
            r.x == r.z,
            r.y == r.w,
    {
        let zero: T = whole_of(0i8);
        let one: T = whole_of(1i8);
        Vec4 { x: zero, y: one, z: zero, w: one }
    }

    /// The direction with `z` at -1, the other two axes at 0 and `w` at 1.
    pub fn backward() -> (r: Self)
        ensures
            exact::<T>() ==> r == Self::of_whole(0i8, 0i8, -1i8, 1i8),
            r.x == r.y,
    {
        let zero: T = whole_of(0i8);
        let minus_one: T = whole_of(-1i8);
        let one: T = whole_of(1i8);
        Vec4 { x: zero, y: zero, z: minus_one, w: one }
    }

    /// The direction with `z` at 1, the other two axes at 0 and `w` at 1.
    pub fn forward() -> (r: Self)
        ensures
            exact::<T>() ==> r == Self::of_whole(0i8, 0i8, 1i8, 1i8),
            r.x == r.y,
            r.z == r.w,
    {
        let zero: T = whole_of(0i8);
        let one: T = whole_of(1i8);
        Vec4 { x: zero, y: zero, z: one, w: one }
    }

    /// Whether the dot product with `other` can be computed.
    pub open spec fn dot_req(self, other: Self) -> bool {
        dot4_req(self.x, other.x, self.y, other.y, self.z, other.z, self.w, other.w)
    }

    /// The dot product with `other`: the sum of the products of matching
    /// components, summed from the first.
    pub open spec fn dot_spec(self, other: Self) -> T {
        dot4_spec(self.x, other.x, self.y, other.y, self.z, other.z, self.w, other.w)
    }

    /// Whether the squared distance to `b` can be computed.
    pub open spec fn distance_squared_req(self, b: Self) -> bool {
        self.sub_req(b) && self.sub_spec(b).dot_req(self.sub_spec(b))
    }

    /// Computes the dot product with `other`.
    pub fn dot(&self, other: &Self) -> (r: T)
        requires
            numeric::<T>(),
            exact::<T>() ==> self.dot_req(*other),
        ensures
            exact::<T>() ==> r == self.dot_spec(*other),
    {
        dot4(self.x, other.x, self.y, other.y, self.z, other.z, self.w, other.w)
    }

    /// Computes the square of the length: the dot product of the vector with
    /// itself.
    pub fn length_squared(&self) -> (r: T)
        requires
            numeric::<T>(),
            exact::<T>() ==> self.dot_req(*self),
        ensures
            exact::<T>() ==> r == self.dot_spec(*self),
    {
        self.dot(self)
    }

    /// Computes the square of the distance to `b`: the squared length of
    /// `self - b`.
    pub fn distance_squared(&self, b: &Self) -> (r: T)
        requires
            numeric::<T>(),
            exact::<T>() ==> self.distance_squared_req(*b),
        ensures
            exact::<T>() ==> r == self.sub_spec(*b).dot_spec(self.sub_spec(*b)),
    {
        let d = *self - *b;
        d.length_squared()
    }

    /// Whether the cross product with `b` and `c` can be computed.
    pub open spec fn cross_req(self, b: Self, c: Self) -> bool {
        &&& det3_req(self.y, self.z, self.w, b.y, b.z, b.w, c.y, c.z, c.w)
        &&& det3_req(self.x, self.z, self.w, b.x, b.z, b.w, c.x, c.z, c.w)
        &&& det3_req(self.x, self.y, self.w, b.x, b.y, b.w, c.x, c.y, c.w)
        &&& det3_req(self.x, self.y, self.z, b.x, b.y, b.z, c.x, c.y, c.z)
        &&& det3_spec(self.x, self.z, self.w, b.x, b.z, b.w, c.x, c.z, c.w).neg_req()
        &&& det3_spec(self.x, self.y, self.z, b.x, b.y, b.z, c.x, c.y, c.z).neg_req()
    }

    /// The cross product with `b` and `c`: each component is the determinant
    /// of the other three components of `self`, `b` and `c`, with
    /// alternating sign.
    pub open spec fn cross_spec(self, b: Self, c: Self) -> Self {
        Vec4 {
            x: det3_spec(self.y, self.z, self.w, b.y, b.z, b.w, c.y, c.z, c.w),
            y: det3_spec(self.x, self.z, self.w, b.x, b.z, b.w, c.x, c.z, c.w).neg_spec(),
            z: det3_spec(self.x, self.y, self.w, b.x, b.y, b.w, c.x, c.y, c.w),
            w: det3_spec(self.x, self.y, self.z, b.x, b.y, b.z, c.x, c.y, c.z).neg_spec(),
        }
    }

    /// Computes the cross product with `b` and `c`.
    pub fn cross(&self, b: Self, c: Self) -> (r: Self)
        requires
            numeric::<T>(),
            exact::<T>() ==> self.cross_req(b, c),
        ensures
            exact::<T>() ==> r == self.cross_spec(b, c),
    {
        Vec4 {
            x: det3(self.y, self.z, self.w, b.y, b.z, b.w, c.y, c.z, c.w),
            y: det3(self.x, self.z, self.w, b.x, b.z, b.w, c.x, c.z, c.w).neg(),
            z: det3(self.x, self.y, self.w, b.x, b.y, b.w, c.x, c.y, c.w),
            w: det3(self.x, self.y, self.z, b.x, b.y, b.z, c.x, c.y, c.z).neg(),
        }
    }
}

/// The squared length, which is the dot product of a vector with itself,
/// is the sum of the squares of the components.  It is never negative, and
/// it is zero for the zero vector alone.
pub proof fn lemma_length_squared<T: Whole>(a: Vec4<T>)
    requires
        a.dot_req(a),
    ensures
        a.dot_spec(a).value() == a.x.value() * a.x.value()
            + a.y.value() * a.y.value()
            + a.z.value() * a.z.value()
            + a.w.value() * a.w.value(),
        a.dot_spec(a).value() >= 0,
        a.dot_spec(a).value() == 0 <==> a == Vec4::<T>::of_whole(0i8, 0i8, 0i8, 0i8),
{
    let x = a.x.value();
    let y = a.y.value();
    let z = a.z.value();
    let w = a.w.value();
    lemma_dot4_value(a.x, a.x, a.y, a.y, a.z, a.z, a.w, a.w);
    assert(x * x >= 0 && (x * x == 0 <==> x == 0)) by (nonlinear_arith);
    assert(y * y >= 0 && (y * y == 0 <==> y == 0)) by (nonlinear_arith);
    assert(z * z >= 0 && (z * z == 0 <==> z == 0)) by (nonlinear_arith);
    assert(w * w >= 0 && (w * w == 0 <==> w == 0)) by (nonlinear_arith);
    T::lemma_whole(0i8);
    let zero = Vec4::<T>::of_whole(0i8, 0i8, 0i8, 0i8);
    if x == 0 && y == 0 && z == 0 && w == 0 {
        T::lemma_same_value(a.x, zero.x);
        T::lemma_same_value(a.y, zero.y);
        T::lemma_same_value(a.z, zero.z);
        T::lemma_same_value(a.w, zero.w);
    }
}

/// A determinant of three rows vanishes when its first row is also its
/// second.
proof fn lemma_det_first_twice(p: int, q: int, r: int, s: int, t: int, u: int)
    ensures
        p * (q * u - t * r) - q * (p * u - s * r) + r * (p * t - s * q) == 0,
{
    assert(p * (q * u - t * r) == p * (q * u) - p * (t * r)) by (nonlinear_arith);
    assert(q * (p * u - s * r) == q * (p * u) - q * (s * r)) by (nonlinear_arith);
    assert(r * (p * t - s * q) == r * (p * t) - r * (s * q)) by (nonlinear_arith);
    assert(p * (q * u) == q * (p * u)) by (nonlinear_arith);
    assert(p * (t * r) == r * (p * t)) by (nonlinear_arith);
    assert(q * (s * r) == r * (s * q)) by (nonlinear_arith);
}

/// A determinant of three rows vanishes when its first row is also its
/// third.
proof fn lemma_det_first_last(p: int, q: int, r: int, s: int, t: int, u: int)
    ensures
        s * (q * u - t * r) - t * (p * u - s * r) + u * (p * t - s * q) == 0,
{
    assert(s * (q * u - t * r) == s * (q * u) - s * (t * r)) by (nonlinear_arith);
    assert(t * (p * u - s * r) == t * (p * u) - t * (s * r)) by (nonlinear_arith);
    assert(u * (p * t - s * q) == u * (p * t) - u * (s * q)) by (nonlinear_arith);
    assert(s * (q * u) == u * (s * q)) by (nonlinear_arith);
    assert(s * (t * r) == t * (s * r)) by (nonlinear_arith);
    assert(t * (p * u) == u * (p * t)) by (nonlinear_arith);
}

/// The dot product of `v` with the cross product built from `a` and the six
/// minors of the other two arguments, grouped by the components of `a`.
proof fn lemma_dot_regrouped(
    v: Vec4<int>,
    a: Vec4<int>,
    zw: int,
    yw: int,
    yz: int,
    xw: int,
    xz: int,
    xy: int,
)
    ensures
        v.x * (a.y * zw - a.z * yw + a.w * yz)
            + v.y * (-(a.x * zw - a.z * xw + a.w * xz))
            + v.z * (a.x * yw - a.y * xw + a.w * xy)
            + v.w * (-(a.x * yz - a.y * xz + a.z * xy))
            == a.y * (v.x * zw - v.z * xw + v.w * xz)
            + a.w * (v.x * yz - v.y * xz + v.z * xy)
            - a.x * (v.y * zw - v.z * yw + v.w * yz)
            - a.z * (v.x * yw - v.y * xw + v.w * xy),
{
    let (vx, vy, vz, vw) = (v.x, v.y, v.z, v.w);
    let (ax, ay, az, aw) = (a.x, a.y, a.z, a.w);
    assert(vx * (ay * zw - az * yw + aw * yz) == vx * (ay * zw) - vx * (az * yw) + vx * (aw * yz))
        by (nonlinear_arith);
    assert(vy * (-(ax * zw - az * xw + aw * xz)) == vy * (az * xw) - vy * (ax * zw) - vy * (aw
        * xz)) by (nonlinear_arith);
    assert(vz * (ax * yw - ay * xw + aw * xy) == vz * (ax * yw) - vz * (ay * xw) + vz * (aw * xy))
        by (nonlinear_arith);
    assert(vw * (-(ax * yz - ay * xz + az * xy)) == vw * (ay * xz) - vw * (ax * yz) - vw * (az
        * xy)) by (nonlinear_arith);
    assert(ay * (vx * zw - vz * xw + vw * xz) == ay * (vx * zw) - ay * (vz * xw) + ay * (vw * xz))
        by (nonlinear_arith);
    assert(aw * (vx * yz - vy * xz + vz * xy) == aw * (vx * yz) - aw * (vy * xz) + aw * (vz * xy))
        by (nonlinear_arith);
    assert(ax * (vy * zw - vz * yw + vw * yz) == ax * (vy * zw) - ax * (vz * yw) + ax * (vw * yz))
        by (nonlinear_arith);
    assert(az * (vx * yw - vy * xw + vw * xy) == az * (vx * yw) - az * (vy * xw) + az * (vw * xy))
        by (nonlinear_arith);
    assert(vx * (ay * zw) == ay * (vx * zw)) by (nonlinear_arith);
    assert(vx * (az * yw) == az * (vx * yw)) by (nonlinear_arith);
    assert(vx * (aw * yz) == aw * (vx * yz)) by (nonlinear_arith);
    assert(vy * (az * xw) == az * (vy * xw)) by (nonlinear_arith);
    assert(vy * (ax * zw) == ax * (vy * zw)) by (nonlinear_arith);
    assert(vy * (aw * xz) == aw * (vy * xz)) by (nonlinear_arith);
    assert(vz * (ax * yw) == ax * (vz * yw)) by (nonlinear_arith);
    assert(vz * (ay * xw) == ay * (vz * xw)) by (nonlinear_arith);
    assert(vz * (aw * xy) == aw * (vz * xy)) by (nonlinear_arith);
    assert(vw * (ay * xz) == ay * (vw * xz)) by (nonlinear_arith);
    assert(vw * (ax * yz) == ax * (vw * yz)) by (nonlinear_arith);
    assert(vw * (az * xy) == az * (vw * xy)) by (nonlinear_arith);
}

/// The dot product of `a` with the cross product built from `a` itself and
/// the six minors of the other two arguments vanishes.
proof fn lemma_dot_own(a: Vec4<int>, zw: int, yw: int, yz: int, xw: int, xz: int, xy: int)
    ensures
        a.x * (a.y * zw - a.z * yw + a.w * yz)
            + a.y * (-(a.x * zw - a.z * xw + a.w * xz))
            + a.z * (a.x * yw - a.y * xw + a.w * xy)
            + a.w * (-(a.x * yz - a.y * xz + a.z * xy))
            == 0,
{
    let (ax, ay, az, aw) = (a.x, a.y, a.z, a.w);
    assert(ax * (ay * zw - az * yw + aw * yz) == ax * (ay * zw) - ax * (az * yw) + ax * (aw * yz))
        by (nonlinear_arith);
    assert(ay * (-(ax * zw - az * xw + aw * xz)) == ay * (az * xw) - ay * (ax * zw) - ay * (aw
        * xz)) by (nonlinear_arith);
    assert(az * (ax * yw - ay * xw + aw * xy) == az * (ax * yw) - az * (ay * xw) + az * (aw * xy))
        by (nonlinear_arith);
    assert(aw * (-(ax * yz - ay * xz + az * xy)) == aw * (ay * xz) - aw * (ax * yz) - aw * (az
        * xy)) by (nonlinear_arith);
    assert(ax * (ay * zw) == ay * (ax * zw)) by (nonlinear_arith);
    assert(ax * (az * yw) == az * (ax * yw)) by (nonlinear_arith);
    assert(ax * (aw * yz) == aw * (ax * yz)) by (nonlinear_arith);
    assert(ay * (az * xw) == az * (ay * xw)) by (nonlinear_arith);
    assert(ay * (aw * xz) == aw * (ay * xz)) by (nonlinear_arith);
    assert(az * (aw * xy) == aw * (az * xy)) by (nonlinear_arith);
}

/// A sum of four products vanishes when the second factor of each does.
proof fn lemma_zero_brackets(ax: int, ay: int, az: int, aw: int, d1: int, d2: int, d3: int, d4: int)
    requires
        d1 == 0,
        d2 == 0,
        d3 == 0,
        d4 == 0,
    ensures
        ay * d2 + aw * d4 - ax * d1 - az * d3 == 0,
{
    assert(ay * d2 == 0 && aw * d4 == 0 && ax * d1 == 0 && az * d3 == 0) by (nonlinear_arith)
        requires
            d1 == 0,
            d2 == 0,
            d3 == 0,
            d4 == 0,
    ;
}

/// The cross product is at right angles to each of its three arguments.
pub proof fn lemma_cross_orthogonal<T: Whole>(a: Vec4<T>, b: Vec4<T>, c: Vec4<T>)
    requires
        a.cross_req(b, c),
    ensures
        ({
            let n = a.cross_spec(b, c);
            &&& a.x.value() * n.x.value() + a.y.value() * n.y.value() + a.z.value() * n.z.value()
                + a.w.value() * n.w.value() == 0
            &&& b.x.value() * n.x.value() + b.y.value() * n.y.value() + b.z.value() * n.z.value()
                + b.w.value() * n.w.value() == 0
            &&& c.x.value() * n.x.value() + c.y.value() * n.y.value() + c.z.value() * n.z.value()
                + c.w.value() * n.w.value() == 0
        }),
{
    let ai = Vec4::<int> { x: a.x.value(), y: a.y.value(), z: a.z.value(), w: a.w.value() };
    let bi = Vec4::<int> { x: b.x.value(), y: b.y.value(), z: b.z.value(), w: b.w.value() };
    let ci = Vec4::<int> { x: c.x.value(), y: c.y.value(), z: c.z.value(), w: c.w.value() };
    let zw = bi.z * ci.w - ci.z * bi.w;
    let yw = bi.y * ci.w - ci.y * bi.w;
    let yz = bi.y * ci.z - ci.y * bi.z;
    let xw = bi.x * ci.w - ci.x * bi.w;
    let xz = bi.x * ci.z - ci.x * bi.z;
    let xy = bi.x * ci.y - ci.x * bi.y;
    let n = a.cross_spec(b, c);
    lemma_det3_value(a.y, a.z, a.w, b.y, b.z, b.w, c.y, c.z, c.w);
    lemma_det3_value(a.x, a.z, a.w, b.x, b.z, b.w, c.x, c.z, c.w);
    lemma_det3_value(a.x, a.y, a.w, b.x, b.y, b.w, c.x, c.y, c.w);
    lemma_det3_value(a.x, a.y, a.z, b.x, b.y, b.z, c.x, c.y, c.z);
    T::lemma_neg_value(det3_spec(a.x, a.z, a.w, b.x, b.z, b.w, c.x, c.z, c.w));
    T::lemma_neg_value(det3_spec(a.x, a.y, a.z, b.x, b.y, b.z, c.x, c.y, c.z));
    assert(n.x.value() == ai.y * zw - ai.z * yw + ai.w * yz);
    assert(n.y.value() == -(ai.x * zw - ai.z * xw + ai.w * xz));
    assert(n.z.value() == ai.x * yw - ai.y * xw + ai.w * xy);
    assert(n.w.value() == -(ai.x * yz - ai.y * xz + ai.z * xy));
    lemma_dot_own(ai, zw, yw, yz, xw, xz, xy);
    lemma_dot_regrouped(bi, ai, zw, yw, yz, xw, xz, xy);
    lemma_dot_regrouped(ci, ai, zw, yw, yz, xw, xz, xy);
    lemma_det_first_twice(bi.x, bi.z, bi.w, ci.x, ci.z, ci.w);
    lemma_det_first_twice(bi.x, bi.y, bi.z, ci.x, ci.y, ci.z);
    lemma_det_first_twice(bi.y, bi.z, bi.w, ci.y, ci.z, ci.w);
    lemma_det_first_twice(bi.x, bi.y, bi.w, ci.x, ci.y, ci.w);
    lemma_det_first_last(bi.x, bi.z, bi.w, ci.x, ci.z, ci.w);
    lemma_det_first_last(bi.x, bi.y, bi.z, ci.x, ci.y, ci.z);
    lemma_det_first_last(bi.y, bi.z, bi.w, ci.y, ci.z, ci.w);
    lemma_det_first_last(bi.x, bi.y, bi.w, ci.x, ci.y, ci.w);
    lemma_zero_brackets(
        ai.x,
        ai.y,
        ai.z,
        ai.w,
        bi.y * zw - bi.z * yw + bi.w * yz,
        bi.x * zw - bi.z * xw + bi.w * xz,
        bi.x * yw - bi.y * xw + bi.w * xy,
        bi.x * yz - bi.y * xz + bi.z * xy,
    );
    lemma_zero_brackets(
        ai.x,
        ai.y,
        ai.z,
        ai.w,
        ci.y * zw - ci.z * yw + ci.w * yz,
        ci.x * zw - ci.z * xw + ci.w * xz,
        ci.x * yw - ci.y * xw + ci.w * xy,
        ci.x * yz - ci.y * xz + ci.z * xy,
    );
}

} // verus!
