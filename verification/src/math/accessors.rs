//! The systematic enumeration of accessors.
//!
//! Over an alphabet of `arity` axes the accessors of `len` axes are numbered
//! from 0: the number of an accessor, its rank, reads its axes as the digits
//! of a number in base `arity`, the first axis being the most significant.
//! Counting through the ranks therefore yields every accessor exactly once,
//! in the order of nested loops over the alphabet with the first axis
//! outermost.

use crate::math::axis::Axis;
use crate::math::swizzle::{in_range, is_accessor};
use vstd::arithmetic::div_mod::{
    lemma_div_pos_is_pos, lemma_fundamental_div_mod, lemma_fundamental_div_mod_converse,
    lemma_mod_bound, lemma_multiply_divide_lt,
};
use vstd::prelude::*;

verus! {

/// The number of accessors of `len` axes over `arity` axes: `arity` to the
/// power `len`.
pub open spec fn count(arity: int, len: nat) -> int
    decreases len,
{
    if len == 0 {
        1
    } else {
        arity * count(arity, (len - 1) as nat)
    }
}

/// The number of accessors of 1 to `len` axes over `arity` axes.
pub open spec fn count_up_to(arity: int, len: nat) -> int
    decreases len,
{
    if len == 0 {
        0
    } else {
        count_up_to(arity, (len - 1) as nat) + count(arity, len)
    }
}

/// Where the accessor of `len` axes with the given rank stands in the list
/// of all accessors: after every accessor of fewer axes.
pub open spec fn slot(arity: int, len: nat, rank: int) -> int {
    count_up_to(arity, (len - 1) as nat) + rank
}

/// The accessor of `len` axes with the given rank.
pub open spec fn accessor_at(arity: int, len: nat, rank: int) -> Seq<Axis>
    decreases len,
{
    if len == 0 {
        Seq::empty()
    } else {
        accessor_at(arity, (len - 1) as nat, rank / arity).push(Axis::at(rank % arity))
    }
}

/// The rank of an accessor.
pub open spec fn rank_of(arity: int, axes: Seq<Axis>) -> int
    decreases axes.len(),
{
    if axes.len() == 0 {
        0
    } else {
        rank_of(arity, axes.drop_last()) * arity + axes.last().position()
    }
}

/// There is at least one accessor of each length, and no more than 256 of up
/// to four axes over up to four axes.
pub proof fn lemma_count_bounds(arity: int, len: nat)
    requires
        1 <= arity <= 4,
        len <= 4,
    ensures
        1 <= count(arity, len) <= 256,
        len >= 1 ==> count(arity, len) == arity * count(arity, (len - 1) as nat),
    decreases len,
{
    reveal_with_fuel(count, 5);
    assert(count(arity, 0) == 1);
    assert(count(arity, 1) == arity);
    assert(count(arity, 2) == arity * arity);
    assert(count(arity, 3) == arity * (arity * arity));
    assert(count(arity, 4) == arity * (arity * (arity * arity)));
    assert(1 <= arity * arity <= 16) by (nonlinear_arith)
        requires
            1 <= arity <= 4,
    ;
    assert(1 <= arity * (arity * arity) <= 64) by (nonlinear_arith)
        requires
            1 <= arity <= 4,
    ;
    assert(1 <= arity * (arity * (arity * arity)) <= 256) by (nonlinear_arith)
        requires
            1 <= arity <= 4,
    ;
}

/// A vector of two components has 6 accessors, one of three has 39 and one
/// of four has 340.
pub proof fn lemma_count_totals()
    ensures
        count_up_to(2, 2) == 6,
        count_up_to(3, 3) == 39,
        count_up_to(4, 4) == 340,
{
    reveal_with_fuel(count, 5);
    reveal_with_fuel(count_up_to, 5);
}

/// Every rank yields an accessor: as many axes as asked for, each of them
/// in the alphabet.
pub proof fn lemma_accessor_at_is_accessor(arity: int, len: nat, rank: int)
    requires
        1 <= arity <= 4,
        0 <= rank,
    ensures
        accessor_at(arity, len, rank).len() == len,
        in_range(arity, accessor_at(arity, len, rank)),
        1 <= len <= arity ==> is_accessor(arity, accessor_at(arity, len, rank)),
    decreases len,
{
    if len > 0 {
        lemma_div_pos_is_pos(rank, arity);
        lemma_mod_bound(rank, arity);
        lemma_accessor_at_is_accessor(arity, (len - 1) as nat, rank / arity);
        let head = accessor_at(arity, (len - 1) as nat, rank / arity);
        let digit = rank % arity;
        Axis::lemma_at_round_trip(digit);
        assert forall|i: int| 0 <= i < len implies (#[trigger] accessor_at(
            arity,
            len,
            rank,
        )[i]).position() < arity by {
            if i < len - 1 {
                assert(accessor_at(arity, len, rank)[i] == head[i]);
            }
        }
    }
}

/// No accessor is listed twice: the rank of the accessor with a given rank
/// is that rank, so different ranks yield different accessors.
pub proof fn lemma_rank_round_trip(arity: int, len: nat, rank: int)
    requires
        1 <= arity <= 4,
        0 <= rank < count(arity, len),
    ensures
        rank_of(arity, accessor_at(arity, len, rank)) == rank,
    decreases len,
{
    if len > 0 {
        let head = accessor_at(arity, (len - 1) as nat, rank / arity);
        let digit = rank % arity;
        lemma_div_pos_is_pos(rank, arity);
        lemma_mod_bound(rank, arity);
        lemma_multiply_divide_lt(rank, arity, count(arity, (len - 1) as nat));
        lemma_rank_round_trip(arity, (len - 1) as nat, rank / arity);
        Axis::lemma_at_round_trip(digit);
        let whole = accessor_at(arity, len, rank);
        assert(whole.drop_last() =~= head);
        assert(whole.last() == Axis::at(digit));
        lemma_fundamental_div_mod(rank, arity);
        assert((rank / arity) * arity == arity * (rank / arity)) by (nonlinear_arith);
    }
}

/// No accessor is left out: the rank of an accessor is below the number of
/// accessors of its length, and the accessor with that rank is the accessor
/// itself.
pub proof fn lemma_accessor_round_trip(arity: int, axes: Seq<Axis>)
    requires
        1 <= arity <= 4,
        in_range(arity, axes),
    ensures
        0 <= rank_of(arity, axes) < count(arity, axes.len()),
        accessor_at(arity, axes.len(), rank_of(arity, axes)) == axes,
    decreases axes.len(),
{
    if axes.len() > 0 {
        let head = axes.drop_last();
        let digit = axes.last().position();
        let len = axes.len();
        axes.last().lemma_position_round_trip();
        assert(axes[len - 1].position() < arity);
        assert(in_range(arity, head)) by {
            assert forall|i: int| 0 <= i < head.len() implies (#[trigger] head[i]).position()
                < arity by {
                assert(head[i] == axes[i]);
            }
        }
        lemma_accessor_round_trip(arity, head);
        let high = rank_of(arity, head);
        let below = count(arity, (len - 1) as nat);
        let rank = rank_of(arity, axes);
        assert(rank == high * arity + digit);
        assert(0 <= high * arity + digit < arity * below) by (nonlinear_arith)
            requires
                0 <= high < below,
                0 <= digit < arity,
        ;
        lemma_fundamental_div_mod_converse(rank, arity, high, digit);
        assert(accessor_at(arity, len, rank) =~= axes);
    }
}

/// Returns the number of accessors of `len` axes over `arity` axes.
pub fn accessor_count(arity: usize, len: usize) -> (n: usize)
    requires
        1 <= arity <= 4,
        len <= 4,
    ensures
        n == count(arity as int, len as nat),
{
    let mut n: usize = 1;
    let mut k: usize = 0;
    while k < len
        invariant
            1 <= arity <= 4,
            k <= len <= 4,
            n == count(arity as int, k as nat),
        decreases len - k,
    {
        proof {
            lemma_count_bounds(arity as int, k as nat);
            lemma_count_bounds(arity as int, (k + 1) as nat);
        }
        n = arity * n;
        k += 1;
    }
    n
}

/// Returns the accessor of `len` axes with the given rank.
pub fn accessor(arity: usize, len: usize, rank: usize) -> (axes: Vec<Axis>)
    requires
        1 <= arity <= 4,
    ensures
        axes@ == accessor_at(arity as int, len as nat, rank as int),
    decreases len,
{
    if len == 0 {
        Vec::new()
    } else {
        let mut axes = accessor(arity, len - 1, rank / arity);
        let digit = rank % arity;
        match Axis::from_index(digit) {
            Some(a) => axes.push(a),
            None => {},
        }
        axes
    }
}

/// Lists every accessor of `len` axes over `arity` axes, by rank.
///
/// The list is exhaustive, since each accessor stands at its rank, and it
/// holds no accessor twice.
pub fn accessors(arity: usize, len: usize) -> (list: Vec<Vec<Axis>>)
    requires
        1 <= arity <= 4,
        len <= 4,
    ensures
        list@.len() == count(arity as int, len as nat),
        forall|i: int|
            0 <= i < list@.len() ==> (#[trigger] list@[i])@ == accessor_at(
                arity as int,
                len as nat,
                i,
            ),
        forall|axes: Seq<Axis>|
            axes.len() == len && in_range(arity as int, axes) ==> {
                &&& 0 <= #[trigger] rank_of(arity as int, axes) < list@.len()
                &&& list@[rank_of(arity as int, axes)]@ == axes
            },
        forall|i: int, j: int|
            0 <= i < j < list@.len() ==> (#[trigger] list@[i])@ != (#[trigger] list@[j])@,
{
    let n = accessor_count(arity, len);
    let mut list: Vec<Vec<Axis>> = Vec::new();
    let mut rank: usize = 0;
    while rank < n
        invariant
            1 <= arity <= 4,
            rank <= n,
            n == count(arity as int, len as nat),
            list@.len() == rank,
            forall|i: int|
                0 <= i < rank ==> (#[trigger] list@[i])@ == accessor_at(
                    arity as int,
                    len as nat,
                    i,
                ),
        decreases n - rank,
    {
        list.push(accessor(arity, len, rank));
        rank += 1;
    }
    proof {
        assert forall|axes: Seq<Axis>|
            axes.len() == len && in_range(arity as int, axes) implies {
            &&& 0 <= #[trigger] rank_of(arity as int, axes) < list@.len()
            &&& list@[rank_of(arity as int, axes)]@ == axes
        } by {
            lemma_accessor_round_trip(arity as int, axes);
        }
        assert forall|i: int, j: int| 0 <= i < j < list@.len() implies (#[trigger] list@[i])@ != (
        #[trigger] list@[j])@ by {
            lemma_rank_round_trip(arity as int, len as nat, i);
            lemma_rank_round_trip(arity as int, len as nat, j);
        }
    }
    list
}

/// Lists every accessor of a vector of `arity` components: those of one
/// axis by rank, then those of two axes by rank, and so on up to `arity`
/// axes.
pub fn all_accessors(arity: usize) -> (list: Vec<Vec<Axis>>)
    requires
        1 <= arity <= 4,
    ensures
        list@.len() == count_up_to(arity as int, arity as nat),
        forall|len: nat, rank: int|
            1 <= len <= arity && 0 <= rank < count(arity as int, len) ==> {
                &&& 0 <= #[trigger] slot(arity as int, len, rank) < list@.len()
                &&& list@[slot(arity as int, len, rank)]@ == accessor_at(arity as int, len, rank)
            },
{
    let mut list: Vec<Vec<Axis>> = Vec::new();
    let mut len: usize = 1;
    while len <= arity
        invariant
            1 <= arity <= 4,
            1 <= len <= arity + 1,
            list@.len() == count_up_to(arity as int, (len - 1) as nat),
            forall|l: nat, rank: int|
                1 <= l < len && 0 <= rank < count(arity as int, l) ==> {
                    &&& 0 <= #[trigger] slot(arity as int, l, rank) < list@.len()
                    &&& list@[slot(arity as int, l, rank)]@ == accessor_at(arity as int, l, rank)
                },
        decreases arity + 1 - len,
    {
        let mut part = accessors(arity, len);
        let ghost before = list@;
        let ghost added = part@;
        list.append(&mut part);
        proof {
            assert(list@ =~= before + added);
            assert forall|l: nat, rank: int|
                1 <= l < len + 1 && 0 <= rank < count(arity as int, l) implies {
                &&& 0 <= #[trigger] slot(arity as int, l, rank) < list@.len()
                &&& list@[slot(arity as int, l, rank)]@ == accessor_at(arity as int, l, rank)
            } by {
                let at = slot(arity as int, l, rank);
                if l < len {
                    assert(list@[at] == before[at]);
                } else {
                    assert(list@[at] == added[rank]);
                }
            }
        }
        len += 1;
    }
    list
}

} // verus!
