//! Sums over the positions of a market.

use crate::market::UserBet;
use vstd::prelude::*;

verus! {

/// The sum of `term` over all `positions`.
pub open spec fn sum_of(positions: Seq<UserBet>, term: spec_fn(UserBet) -> nat) -> nat
    decreases positions.len(),
{
    if positions.len() == 0 {
        0
    } else {
        sum_of(positions.drop_last(), term) + term(positions.last())
    }
}

/// A new position adds its term to the sum.
pub proof fn lemma_sum_push(positions: Seq<UserBet>, added: UserBet, term: spec_fn(UserBet) -> nat)
    ensures
        sum_of(positions.push(added), term) == sum_of(positions, term) + term(added),
{
    assert(positions.push(added).drop_last() =~= positions);
}

/// A changed position changes the sum by the difference of its terms.
pub proof fn lemma_sum_update(
    positions: Seq<UserBet>,
    place: int,
    changed: UserBet,
    term: spec_fn(UserBet) -> nat,
)
    requires
        0 <= place < positions.len(),
    ensures
        sum_of(positions.update(place, changed), term) + term(positions[place]) == sum_of(
            positions,
            term,
        ) + term(changed),
    decreases positions.len(),
{
    let after = positions.update(place, changed);
    if place == positions.len() - 1 {
        assert(after.drop_last() =~= positions.drop_last());
    } else {
        lemma_sum_update(positions.drop_last(), place, changed, term);
        assert(after.drop_last() =~= positions.drop_last().update(place, changed));
    }
}

/// Where a term is zero on every position, the sum is zero.
pub proof fn lemma_sum_of_nothing(positions: Seq<UserBet>, term: spec_fn(UserBet) -> nat)
    requires
        forall|i: int| 0 <= i < positions.len() ==> term(#[trigger] positions[i]) == 0,
    ensures
        sum_of(positions, term) == 0,
    decreases positions.len(),
{
    if positions.len() > 0 {
        let front = positions.drop_last();
        assert forall|i: int| 0 <= i < front.len() implies term(#[trigger] front[i]) == 0 by {
            assert(front[i] == positions[i]);
        }
        lemma_sum_of_nothing(front, term);
        assert(positions.last() == positions[positions.len() - 1]);
    }
}

/// Where one term is at most another on every position, so are the sums;
/// and what the smaller term falls short of the larger at any one position,
/// the smaller sum falls short of the larger at least.
pub proof fn lemma_sum_below(
    positions: Seq<UserBet>,
    smaller: spec_fn(UserBet) -> nat,
    larger: spec_fn(UserBet) -> nat,
    place: int,
)
    requires
        0 <= place < positions.len(),
        forall|i: int|
            0 <= i < positions.len() ==> smaller(#[trigger] positions[i]) <= larger(positions[i]),
    ensures
        sum_of(positions, smaller) + larger(positions[place]) - smaller(positions[place])
            <= sum_of(positions, larger),
    decreases positions.len(),
{
    let front = positions.drop_last();
    assert forall|i: int| 0 <= i < front.len() implies smaller(#[trigger] front[i]) <= larger(
        front[i],
    ) by {
        assert(front[i] == positions[i]);
    }
    assert(positions.last() == positions[positions.len() - 1]);
    if place == positions.len() - 1 {
        lemma_sum_at_most(front, smaller, larger);
    } else {
        assert(front[place] == positions[place]);
        lemma_sum_below(front, smaller, larger, place);
    }
}

/// Where one term is at most another on every position, so are the sums.
pub proof fn lemma_sum_at_most(
    positions: Seq<UserBet>,
    smaller: spec_fn(UserBet) -> nat,
    larger: spec_fn(UserBet) -> nat,
)
    requires
        forall|i: int|
            0 <= i < positions.len() ==> smaller(#[trigger] positions[i]) <= larger(positions[i]),
    ensures
        sum_of(positions, smaller) <= sum_of(positions, larger),
    decreases positions.len(),
{
    if positions.len() > 0 {
        let front = positions.drop_last();
        assert forall|i: int| 0 <= i < front.len() implies smaller(#[trigger] front[i]) <= larger(
            front[i],
        ) by {
            assert(front[i] == positions[i]);
        }
        lemma_sum_at_most(front, smaller, larger);
        assert(positions.last() == positions[positions.len() - 1]);
    }
}

} // verus!
