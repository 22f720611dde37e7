//! Support for convergence experiments: a population whose names encode the
//! true rank of each player, and the exact part of the rank error that a
//! ranking of that population shows.

use vstd::prelude::*;
use crate::random::shuffle;

verus! {

/// The ranks `0, 1, .., count - 1` in ascending order.
pub open spec fn ascending(count: nat) -> Seq<u32> {
    Seq::new(count, |i: int| i as u32)
}

/// Whether a byte is an ASCII decimal digit.
pub open spec fn is_digit(byte: u8) -> bool {
    48 <= byte <= 57
}

/// The number that a run of decimal digits writes.
pub open spec fn decimal_value(digits: Seq<u8>) -> nat
    decreases digits.len(),
{
    if digits.len() == 0 {
        0
    } else {
        decimal_value(digits.drop_last()) * 10 + (digits.last() - 48) as nat
    }
}

/// Whether a name is made of decimal digits and nothing else.
pub open spec fn is_decimal(name: Seq<u8>) -> bool {
    name.len() > 0 && forall|i: int| 0 <= i < name.len() ==> is_digit(#[trigger] name[i])
}

/// The true rank that a name encodes: the name read as a decimal number, if
/// it is one and fits. Names that encode no rank belong to no experiment.
pub open spec fn rank_of(name: Seq<u8>) -> Option<u32> {
    if is_decimal(name) && decimal_value(name) <= u32::MAX {
        Some(decimal_value(name) as u32)
    } else {
        None
    }
}

/// The ranks encoded by the names that encode one, in the order of the names.
pub open spec fn ranks_of(names: Seq<Vec<u8>>) -> Seq<u32>
    decreases names.len(),
{
    if names.len() == 0 {
        Seq::empty()
    } else {
        match rank_of(names.last()@) {
            Some(rank) => ranks_of(names.drop_last()).push(rank),
            None => ranks_of(names.drop_last()),
        }
    }
}

/// The squared distance between a true rank and the position at which the
/// player was observed.
pub open spec fn rank_gap(rank: u32, position: int) -> int {
    (rank - position) * (rank - position)
}

/// The sum of the squared distances over the first `upto` observed positions.
pub open spec fn squared_error(ranks: Seq<u32>, upto: int) -> int
    decreases upto,
{
    if upto <= 0 {
        0
    } else {
        squared_error(ranks, upto - 1) + rank_gap(ranks[upto - 1], upto - 1)
    }
}

/// The squared error never shrinks as more positions are counted.
pub proof fn lemma_squared_error_grows(ranks: Seq<u32>, shorter: int, longer: int)
    requires
        0 <= shorter <= longer,
    ensures
        0 <= squared_error(ranks, shorter) <= squared_error(ranks, longer),
    decreases longer,
{
    if longer > 0 {
        assert(rank_gap(ranks[longer - 1], longer - 1) >= 0) by (nonlinear_arith);
        if shorter < longer {
            lemma_squared_error_grows(ranks, shorter, longer - 1);
        } else {
            lemma_squared_error_grows(ranks, shorter - 1, longer - 1);
        }
    }
}

/// A run of digits is worth at least as much as any of its beginnings.
proof fn lemma_decimal_value_grows(digits: Seq<u8>, shorter: int)
    requires
        0 <= shorter <= digits.len(),
    ensures
        decimal_value(digits.take(shorter)) <= decimal_value(digits),
    decreases digits.len(),
{
    if shorter < digits.len() {
        lemma_decimal_value_grows(digits.drop_last(), shorter);
        assert(digits.drop_last().take(shorter) == digits.take(shorter));
    } else {
        assert(digits.take(shorter) == digits);
    }
}

/// Reads the true rank that a name encodes.
pub fn parse_rank(name: &[u8]) -> (rank: Option<u32>)
    ensures
        rank == rank_of(name@),
{
    if name.len() == 0 {
        return None;
    }
    let mut value: u64 = 0;
    let mut i: usize = 0;
    while i < name.len()
        invariant
            i <= name.len(),
            is_decimal(name@.take(i as int)) || i == 0,
            value == decimal_value(name@.take(i as int)),
            value <= u32::MAX,
        decreases name.len() - i,
    {
        let byte = name[i];
        if byte < 48 || byte > 57 {
            return None;
        }
        proof {
            assert(name@.take(i + 1).drop_last() == name@.take(i as int));
            assert(name@.take(i + 1).last() == byte);
            assert forall|k: int| 0 <= k < i + 1 implies is_digit(#[trigger] name@.take(i + 1)[k]) by {
                if k < i {
                    assert(name@.take(i as int)[k] == name@[k]);
                }
            }
        }
        value = value * 10 + (byte - 48) as u64;
        if value > 0xFFFF_FFFF {
            proof {
                lemma_decimal_value_grows(name@, i + 1);
            }
            return None;
        }
        i = i + 1;
    }
    proof {
        assert(name@.take(name@.len() as int) == name@);
    }
    Some(value as u32)
}

/// Reads the ranks of the names that encode one, skipping the others.
pub fn ranks_of_names(names: &Vec<Vec<u8>>) -> (ranks: Vec<u32>)
    ensures
        ranks@ == ranks_of(names@),
{
    let mut ranks: Vec<u32> = Vec::new();
    let mut i: usize = 0;
    while i < names.len()
        invariant
            i <= names.len(),
            ranks@ == ranks_of(names@.take(i as int)),
        decreases names.len() - i,
    {
        proof {
            assert(names@.take(i + 1).drop_last() == names@.take(i as int));
            assert(names@.take(i + 1).last() == names@[i as int]);
        }
        match parse_rank(names[i].as_slice()) {
            Some(rank) => {
                ranks.push(rank);
            },
            None => {},
        }
        i = i + 1;
    }
    proof {
        assert(names@.take(names@.len() as int) == names@);
    }
    ranks
}

/// The names of a synthetic population of `count` players: every rank from
/// `0` to `count - 1` exactly once, in random order, so that the order in
/// which players are created tells nothing about their rank.
pub fn shuffled_ranks(count: u32) -> (ranks: Vec<u32>)
    ensures
        ranks@.to_multiset() == ascending(count as nat).to_multiset(),
        ranks@.len() == count,
{
    let mut ranks: Vec<u32> = Vec::new();
    let mut next: u32 = 0;
    while next < count
        invariant
            next <= count,
            ranks@ == ascending(next as nat),
        decreases count - next,
    {
        ranks.push(next);
        next = next + 1;
    }
    let ghost ordered = ranks@;
    shuffle(&mut ranks);
    proof {
        ordered.to_multiset_ensures();
        ranks@.to_multiset_ensures();
    }
    ranks
}

/// The sum of squared rank errors of a ranking: `ranks[i]` is the true rank
/// of the player observed at position `i`. The mean square rank error is the
/// square root of this sum divided by the number of players. `None` when the
/// sum does not fit the result type.
pub fn squared_rank_error(ranks: &Vec<u32>) -> (total: Option<u128>)
    ensures
        total is Some <==> squared_error(ranks@, ranks@.len() as int) <= u128::MAX,
        total matches Some(sum) ==> sum == squared_error(ranks@, ranks@.len() as int),
{
    let mut sum: u128 = 0;
    let mut i: usize = 0;
    while i < ranks.len()
        invariant
            i <= ranks.len(),
            sum == squared_error(ranks@, i as int),
        decreases ranks.len() - i,
    {
        let rank: u128 = ranks[i] as u128;
        let position: u128 = i as u128;
        let distance: u128 = if rank >= position {
            rank - position
        } else {
            position - rank
        };
        proof {
            assert(distance <= 0xFFFF_FFFF_FFFF_FFFF);
            assert(distance * distance <= 0xFFFF_FFFF_FFFF_FFFF * 0xFFFF_FFFF_FFFF_FFFF)
                by (nonlinear_arith)
                requires
                    0 <= distance <= 0xFFFF_FFFF_FFFF_FFFF,
            ;
            assert(distance * distance == rank_gap(ranks@[i as int], i as int))
                by (nonlinear_arith)
                requires
                    distance == ranks@[i as int] - i || distance == i - ranks@[i as int],
            ;
        }
        let gap: u128 = distance * distance;
        match sum.checked_add(gap) {
            Some(more) => {
                sum = more;
            },
            None => {
                proof {
                    lemma_squared_error_grows(ranks@, i + 1, ranks@.len() as int);
                }
                return None;
            },
        }
        i = i + 1;
    }
    Some(sum)
}

} // verus!
