//! The axis letters that name the components of a vector.

use vstd::prelude::*;

verus! {

/// One of the four axis letters, in component order.
#[derive(Copy, Clone, PartialEq, Eq, Debug)]
pub enum Axis {
    /// `x`, the component at position 0.
    X,
    /// `y`, the component at position 1.
    Y,
    /// `z`, the component at position 2.
    Z,
    /// `w`, the component at position 3.
    W,
}

impl Axis {
    /// The position of the component that this axis names.
    pub open spec fn position(self) -> int {
        match self {
            Axis::X => 0,
            Axis::Y => 1,
            Axis::Z => 2,
            Axis::W => 3,
        }
    }

    /// The axis that names the component at position `i`, for `i` below 4.
    pub open spec fn at(i: int) -> Axis {
        if i == 0 {
            Axis::X
        } else if i == 1 {
            Axis::Y
        } else if i == 2 {
            Axis::Z
        } else {
            Axis::W
        }
    }

    /// The letter that this axis is written with.
    pub open spec fn letter_spec(self) -> char {
        match self {
            Axis::X => 'x',
            Axis::Y => 'y',
            Axis::Z => 'z',
            Axis::W => 'w',
        }
    }

    /// The axis written with the letter `c`, if there is one.
    pub open spec fn of_letter(c: char) -> Option<Axis> {
        if c == 'x' {
            Some(Axis::X)
        } else if c == 'y' {
            Some(Axis::Y)
        } else if c == 'z' {
            Some(Axis::Z)
        } else if c == 'w' {
            Some(Axis::W)
        } else {
            None
        }
    }

    /// Returns the position of the component that this axis names.
    pub fn index(self) -> (i: usize)
        ensures
            i == self.position(),
    {
        match self {
            Axis::X => 0,
            Axis::Y => 1,
            Axis::Z => 2,
            Axis::W => 3,
        }
    }

    /// Returns the axis that names position `i`, or `None` when `i` is 4 or
    /// more.
    pub fn from_index(i: usize) -> (r: Option<Axis>)
        ensures
            r == (if i < 4 {
                Some(Axis::at(i as int))
            } else {
                None
            }),
    {
        if i == 0 {
            Some(Axis::X)
        } else if i == 1 {
            Some(Axis::Y)
        } else if i == 2 {
            Some(Axis::Z)
        } else if i == 3 {
            Some(Axis::W)
        } else {
            None
        }
    }

    /// Returns the letter that this axis is written with.
    pub fn letter(self) -> (c: char)
        ensures
            c == self.letter_spec(),
    {
        match self {
            Axis::X => 'x',
            Axis::Y => 'y',
            Axis::Z => 'z',
            Axis::W => 'w',
        }
    }

    /// Returns the axis written with the letter `c`, or `None` when `c` is
    /// not an axis letter.
    pub fn from_letter(c: char) -> (r: Option<Axis>)
        ensures
            r == Axis::of_letter(c),
    {
        if c == 'x' {
            Some(Axis::X)
        } else if c == 'y' {
            Some(Axis::Y)
        } else if c == 'z' {
            Some(Axis::Z)
        } else if c == 'w' {
            Some(Axis::W)
        } else {
            None
        }
    }

    /// Positions and axes correspond one to one.
    pub proof fn lemma_position_round_trip(self)
        ensures
            0 <= self.position() < 4,
            Axis::at(self.position()) == self,
    {
    }

    /// Every position below 4 is the position of the axis that names it.
    pub proof fn lemma_at_round_trip(i: int)
        requires
            0 <= i < 4,
        ensures
            Axis::at(i).position() == i,
    {
    }

    /// Letters and axes correspond one to one.
    pub proof fn lemma_letter_round_trip(self)
        ensures
            Axis::of_letter(self.letter_spec()) == Some(self),
    {
    }

    /// A letter that names an axis is the letter that the axis is written
    /// with.
    pub proof fn lemma_of_letter_is_letter(c: char)
        requires
            Axis::of_letter(c) is Some,
        ensures
            Axis::of_letter(c).unwrap().letter_spec() == c,
    {
    }
}

} // verus!
