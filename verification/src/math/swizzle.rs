//! Swizzles: vectors built from a choice of another vector's components.
//!
//! An accessor is a tuple of axes.  Applied to a source vector it yields one
//! component for each axis of the tuple, in the tuple's order; an axis may
//! occur more than once.  The tuple is at most as long as the source, and
//! each of its axes names a component that the source has.

use crate::math::axis::Axis;
use crate::math::vec2::Vec2;
use crate::math::vec3::Vec3;
use crate::math::vec4::Vec4;
use vstd::prelude::*;

verus! {

/// A position that a vector does not have.
#[derive(Copy, Clone, PartialEq, Eq, Debug)]
pub struct OutOfRange {
    /// The position that was asked for.
    pub index: usize,
    /// The number of components of the vector.
    pub len: usize,
}

/// Why an accessor cannot be applied to a vector.
#[derive(Copy, Clone, PartialEq, Eq, Debug)]
pub enum SwizzleError {
    /// The name holds a character that is not an axis letter.
    Letter,
    /// The accessor is empty, or longer than the source vector.
    Length,
    /// An axis names a component that the source vector does not have.
    OutOfRange,
}

/// What a swizzle yields: a bare component for an accessor of one axis, and
/// otherwise the vector with as many components as the accessor has axes.
#[derive(Copy, Clone, PartialEq, Debug)]
pub enum Swizzled<T> {
    /// The result of an accessor of one axis.
    One(T),
    /// The result of an accessor of two axes.
    Two(Vec2<T>),
    /// The result of an accessor of three axes.
    Three(Vec3<T>),
    /// The result of an accessor of four axes.
    Four(Vec4<T>),
}

impl<T> View for Swizzled<T> {
    type V = Seq<T>;

    /// The components, in order.
    open spec fn view(&self) -> Seq<T> {
        match *self {
            Swizzled::One(c) => seq![c],
            Swizzled::Two(v) => v@,
            Swizzled::Three(v) => v@,
            Swizzled::Four(v) => v@,
        }
    }
}

impl<T> Swizzled<T> {
    /// The number of components: 1 for a bare component, and otherwise the
    /// number of components of the vector.
    pub open spec fn arity(self) -> int {
        match self {
            Swizzled::One(_) => 1,
            Swizzled::Two(_) => 2,
            Swizzled::Three(_) => 3,
            Swizzled::Four(_) => 4,
        }
    }

    /// The view has one element for each component.
    pub proof fn lemma_len(self)
        ensures
            self@.len() == self.arity(),
    {
    }
}

/// Whether every axis of `axes` names a component of a vector of `arity`
/// components.
pub open spec fn in_range(arity: int, axes: Seq<Axis>) -> bool {
    forall|i: int| 0 <= i < axes.len() ==> (#[trigger] axes[i]).position() < arity
}

/// Whether `axes` is an accessor of a vector of `arity` components.
pub open spec fn is_accessor(arity: int, axes: Seq<Axis>) -> bool {
    1 <= axes.len() <= arity && in_range(arity, axes)
}

/// The error that stops `axes` from being applied to a vector of `arity`
/// components, if any.  A wrong length is reported before a wrong axis.
pub open spec fn fault(arity: int, axes: Seq<Axis>) -> Option<SwizzleError> {
    if !(1 <= axes.len() <= arity) {
        Some(SwizzleError::Length)
    } else if !in_range(arity, axes) {
        Some(SwizzleError::OutOfRange)
    } else {
        None
    }
}

/// The components of `source` that `axes` selects, in the order of `axes`.
pub open spec fn select<T>(source: Seq<T>, axes: Seq<Axis>) -> Seq<T> {
    Seq::new(axes.len(), |i: int| source[axes[i].position()])
}

/// Whether every character of `name` is an axis letter.
pub open spec fn is_name(name: Seq<char>) -> bool {
    forall|i: int| 0 <= i < name.len() ==> Axis::of_letter(#[trigger] name[i]) is Some
}

/// The axes that the letters of `name` stand for.
pub open spec fn axes_of(name: Seq<char>) -> Seq<Axis> {
    Seq::new(name.len(), |i: int| Axis::of_letter(name[i]).unwrap())
}

/// The letters that `axes` is written with.
pub open spec fn name_of(axes: Seq<Axis>) -> Seq<char> {
    Seq::new(axes.len(), |i: int| axes[i].letter_spec())
}

/// The error that stops the accessor called `name` from being applied to a
/// vector of `arity` components, if any.  A character that is no axis letter
/// is reported before anything else.
pub open spec fn name_fault(arity: int, name: Seq<char>) -> Option<SwizzleError> {
    if !is_name(name) {
        Some(SwizzleError::Letter)
    } else {
        fault(arity, axes_of(name))
    }
}

/// Checks that `axes` is an accessor of a vector of `arity` components.
pub fn check_accessor(arity: usize, axes: &[Axis]) -> (r: Result<(), SwizzleError>)
    ensures
        match r {
            Ok(_) => fault(arity as int, axes@) is None,
            Err(e) => fault(arity as int, axes@) == Some(e),
        },
{
    let n = axes.len();
    if n < 1 || n > arity {
        return Err(SwizzleError::Length);
    }
    let mut i: usize = 0;
    while i < n
        invariant
            n == axes@.len(),
            1 <= n <= arity,
            i <= n,
            forall|j: int| 0 <= j < i ==> (#[trigger] axes@[j]).position() < arity,
        decreases n - i,
    {
        if axes[i].index() >= arity {
            assert(!(axes@[i as int].position() < arity));
            return Err(SwizzleError::OutOfRange);
        }
        i += 1;
    }
    Ok(())
}

/// Reads an accessor from its name, one axis for each letter.
pub fn parse_accessor(name: &str) -> (r: Result<Vec<Axis>, SwizzleError>)
    ensures
        match r {
            Ok(axes) => is_name(name@) && axes@ == axes_of(name@),
            Err(e) => e == SwizzleError::Letter && !is_name(name@),
        },
{
    let n = name.unicode_len();
    let mut axes: Vec<Axis> = Vec::new();
    let mut i: usize = 0;
    while i < n
        invariant
            n == name@.len(),
            i <= n,
            axes@.len() == i,
            forall|j: int| 0 <= j < i ==> Axis::of_letter(#[trigger] name@[j]) == Some(axes@[j]),
        decreases n - i,
    {
        match Axis::from_letter(name.get_char(i)) {
            Some(a) => axes.push(a),
            None => {
                return Err(SwizzleError::Letter);
            },
        }
        i += 1;
    }
    assert(axes@ =~= axes_of(name@));
    Ok(axes)
}

/// Writes the name of an accessor, one letter for each axis.
pub fn accessor_name(axes: &[Axis]) -> (r: String)
    ensures
        r@ == name_of(axes@),
{
    let n = axes.len();
    let mut name = String::new();
    let mut i: usize = 0;
    while i < n
        invariant
            n == axes@.len(),
            i <= n,
            name@ == name_of(axes@.take(i as int)),
        decreases n - i,
    {
        let letter = match axes[i] {
            Axis::X => "x",
            Axis::Y => "y",
            Axis::Z => "z",
            Axis::W => "w",
        };
        proof {
            reveal_strlit("x");
            reveal_strlit("y");
            reveal_strlit("z");
            reveal_strlit("w");
            assert(letter@ =~= seq![axes@[i as int].letter_spec()]);
            assert(name_of(axes@.take(i + 1)) =~= name_of(axes@.take(i as int)) + letter@);
        }
        name.append(letter);
        i += 1;
    }
    assert(axes@.take(n as int) =~= axes@);
    name
}

/// Nothing stops an accessor from being applied, and something stops
/// everything else.
pub proof fn lemma_fault_free(arity: int, axes: Seq<Axis>)
    ensures
        fault(arity, axes) is None <==> is_accessor(arity, axes),
{
}

/// A name that is read back yields the axes it was written from.
pub proof fn lemma_name_round_trip(axes: Seq<Axis>)
    ensures
        is_name(name_of(axes)),
        axes_of(name_of(axes)) == axes,
{
    assert forall|i: int| 0 <= i < axes.len() implies Axis::of_letter(
        #[trigger] name_of(axes)[i],
    ) == Some(axes[i]) by {
        axes[i].lemma_letter_round_trip();
    }
    assert(axes_of(name_of(axes)) =~= axes);
}

/// Different accessors have different names.
pub proof fn lemma_names_distinct(a: Seq<Axis>, b: Seq<Axis>)
    requires
        name_of(a) == name_of(b),
    ensures
        a == b,
{
    lemma_name_round_trip(a);
    lemma_name_round_trip(b);
}

/// Axes that are read from a name are written with that name again.
pub proof fn lemma_axes_round_trip(name: Seq<char>)
    requires
        is_name(name),
    ensures
        name_of(axes_of(name)) == name,
{
    assert forall|i: int| 0 <= i < name.len() implies name_of(axes_of(name))[i] == name[i] by {
        Axis::lemma_of_letter_is_letter(name[i]);
    }
    assert(name_of(axes_of(name)) =~= name);
}

/// What a swizzle yields is fixed by its components: two results with the
/// same components are the same result.
pub proof fn lemma_swizzled_by_view<T: Copy>(a: Swizzled<T>, b: Swizzled<T>)
    requires
        a@ == b@,
    ensures
        a == b,
{
    a.lemma_len();
    b.lemma_len();
    match a {
        Swizzled::One(c) => {
            assert(b is One);
            assert(a@[0] == c);
            assert(b@[0] == b->One_0);
        },
        Swizzled::Two(v) => {
            assert(b is Two);
            v.lemma_by_view(b->Two_0);
        },
        Swizzled::Three(v) => {
            assert(b is Three);
            v.lemma_by_view(b->Three_0);
        },
        Swizzled::Four(v) => {
            assert(b is Four);
            v.lemma_by_view(b->Four_0);
        },
    }
}

} // verus!
