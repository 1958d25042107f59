//! Angles that know their unit.

use std::ops::Mul;
use vstd::prelude::*;
use vstd::std_specs::ops::MulSpec;

verus! {

/// An angle in radians or in degrees.
#[derive(Debug, Copy, Clone, PartialEq)]
pub enum Angle<T> {
    /// An angle in radians.
    Radians(T),
    /// An angle in degrees.
    Degrees(T),
}

/// Makes an angle of `angle` radians.
pub fn rad<T>(angle: T) -> (r: Angle<T>)
    ensures
        r == Angle::Radians(angle),
{
    Angle::Radians(angle)
}

/// Makes an angle of `angle` degrees.
pub fn deg<T>(angle: T) -> (r: Angle<T>)
    ensures
        r == Angle::Degrees(angle),
{
    Angle::Degrees(angle)
}

impl<T: Copy + Mul<Output = T>> Angle<T> {
    /// Whether the angle can be converted to radians, one degree being
    /// `radians_per_degree` radians.
    pub open spec fn to_radians_req(self, radians_per_degree: T) -> bool {
        match self {
            Angle::Radians(_) => true,
            Angle::Degrees(a) => a.mul_req(radians_per_degree),
        }
    }

    /// The angle in radians, one degree being `radians_per_degree` radians.
    pub open spec fn to_radians_spec(self, radians_per_degree: T) -> Self {
        match self {
            Angle::Radians(a) => Angle::Radians(a),
            Angle::Degrees(a) => Angle::Radians(a.mul_spec(radians_per_degree)),
        }
    }

    /// Whether the angle can be converted to degrees, one radian being
    /// `degrees_per_radian` degrees.
    pub open spec fn to_degrees_req(self, degrees_per_radian: T) -> bool {
        match self {
            Angle::Radians(a) => a.mul_req(degrees_per_radian),
            Angle::Degrees(_) => true,
        }
    }

    /// The angle in degrees, one radian being `degrees_per_radian` degrees.
    pub open spec fn to_degrees_spec(self, degrees_per_radian: T) -> Self {
        match self {
            Angle::Radians(a) => Angle::Degrees(a.mul_spec(degrees_per_radian)),
            Angle::Degrees(a) => Angle::Degrees(a),
        }
    }

    /// Returns the angle in radians: itself if it is in radians, and
    /// otherwise its degrees times `radians_per_degree`.
    pub fn to_radians(&self, radians_per_degree: T) -> (r: Self)
        requires
            self.to_radians_req(radians_per_degree),
        ensures
            r is Radians,
            *self is Radians ==> r == *self,
            <T as MulSpec>::obeys_mul_spec() ==> r == self.to_radians_spec(radians_per_degree),
    {
        match *self {
            Angle::Radians(a) => Angle::Radians(a),
            Angle::Degrees(a) => Angle::Radians(a * radians_per_degree),
        }
    }

    /// Returns the angle in degrees: itself if it is in degrees, and
    /// otherwise its radians times `degrees_per_radian`.
    pub fn to_degrees(&self, degrees_per_radian: T) -> (r: Self)
        requires
            self.to_degrees_req(degrees_per_radian),
        ensures
            r is Degrees,
            *self is Degrees ==> r == *self,
            <T as MulSpec>::obeys_mul_spec() ==> r == self.to_degrees_spec(degrees_per_radian),
    {
        match *self {
            Angle::Radians(a) => Angle::Degrees(a * degrees_per_radian),
            Angle::Degrees(a) => Angle::Degrees(a),
        }
    }

    /// Converts the angle to radians in place; see `to_radians`.
    pub fn becomes_radians(&mut self, radians_per_degree: T)
        requires
            old(self).to_radians_req(radians_per_degree),
        ensures
            *final(self) is Radians,
            *old(self) is Radians ==> *final(self) == *old(self),
            <T as MulSpec>::obeys_mul_spec() ==> *final(self) == old(self).to_radians_spec(
                radians_per_degree,
            ),
    {
        *self = self.to_radians(radians_per_degree);
    }

    /// Converts the angle to degrees in place; see `to_degrees`.
    pub fn becomes_degrees(&mut self, degrees_per_radian: T)
        requires
            old(self).to_degrees_req(degrees_per_radian),
        ensures
            *final(self) is Degrees,
            *old(self) is Degrees ==> *final(self) == *old(self),
            <T as MulSpec>::obeys_mul_spec() ==> *final(self) == old(self).to_degrees_spec(
                degrees_per_radian,
            ),
    {
        *self = self.to_degrees(degrees_per_radian);
    }
}

} // verus!
