//! Partner selection: the strategy interface, and the tournament that both
//! strategies of this crate decide by.

use crate::math::Cost;
use crate::random::RandomSource;
use vstd::prelude::*;

verus! {

/// Whether every draw is an index into a population of `size` genomes.
pub open spec fn in_range(draws: Seq<usize>, size: nat) -> bool {
    forall|j: int| 0 <= j < draws.len() ==> #[trigger] draws[j] < size
}

/// Whether the draw at `place` wins the tournament among `draws`: no draw is
/// cheaper, and every earlier draw is dearer.
pub open spec fn wins(costs: Seq<Cost>, draws: Seq<usize>, place: int) -> bool {
    &&& 0 <= place < draws.len()
    &&& forall|j: int|
        0 <= j < draws.len() ==> costs[draws[place] as int] <= costs[#[trigger] draws[j] as int]
    &&& forall|j: int|
        0 <= j < place ==> costs[draws[place] as int] < costs[#[trigger] draws[j] as int]
}

/// The index that wins the tournament among `draws`: the drawn index of the
/// lowest cost, and among equals the one drawn first.
pub open spec fn winner(costs: Seq<Cost>, draws: Seq<usize>) -> usize
    recommends
        draws.len() > 0,
{
    draws[choose|place: int| wins(costs, draws, place)]
}

/// Whether every draw is a result of `below(size)`, in some state of a
/// source.
pub open spec fn all_drawn_below<R: RandomSource>(draws: Seq<usize>, size: usize) -> bool {
    forall|j: int|
        0 <= j < draws.len() ==> crate::random::drawn_below::<R>(size, #[trigger] draws[j])
}

/// Whether `partner` comes out of a tournament of `rounds` draws from the
/// whole population: each draw a result of `below` with the size of the
/// population, and the partner the winner among the draws.
pub open spec fn drawn<R: RandomSource>(costs: Seq<Cost>, rounds: nat, partner: usize) -> bool {
    exists|draws: Seq<usize>|
        draws.len() == rounds && in_range(draws, costs.len()) && all_drawn_below::<R>(
            draws,
            costs.len() as usize,
        ) && partner == #[trigger] winner(costs, draws)
}

/// A tournament has one winning place.
pub proof fn lemma_one_winner(costs: Seq<Cost>, draws: Seq<usize>, first: int, second: int)
    requires
        wins(costs, draws, first),
        wins(costs, draws, second),
    ensures
        first == second,
{
    if first < second {
        assert(costs[draws[second] as int] < costs[draws[first] as int]);
        assert(costs[draws[first] as int] <= costs[draws[second] as int]);
    } else if second < first {
        assert(costs[draws[first] as int] < costs[draws[second] as int]);
        assert(costs[draws[second] as int] <= costs[draws[first] as int]);
    }
}

/// The draw at a winning place is the winner.
pub proof fn lemma_winner_at(costs: Seq<Cost>, draws: Seq<usize>, place: int)
    requires
        wins(costs, draws, place),
    ensures
        winner(costs, draws) == draws[place],
{
    let chosen = choose|place: int| wins(costs, draws, place);
    lemma_one_winner(costs, draws, place, chosen);
}

/// Where every genome costs the same, the first draw wins: a partner is then
/// as evenly spread over the population as a single draw is.
pub proof fn lemma_level_costs_first_draw_wins(costs: Seq<Cost>, draws: Seq<usize>)
    requires
        draws.len() > 0,
        in_range(draws, costs.len()),
        forall|i: int, j: int| 0 <= i < costs.len() && 0 <= j < costs.len() ==> costs[i] == costs[j],
    ensures
        winner(costs, draws) == draws[0],
{
    assert(wins(costs, draws, 0)) by {
        assert(draws[0] < costs.len());
        assert forall|j: int| 0 <= j < draws.len() implies costs[draws[0] as int]
            <= costs[#[trigger] draws[j] as int] by {
            assert(draws[j] < costs.len());
        }
    }
    lemma_winner_at(costs, draws, 0);
}

/// Where costs rise strictly with the index, the least index drawn wins: the
/// lower an index, the more tournaments it wins.
pub proof fn lemma_rising_costs_least_draw_wins(costs: Seq<Cost>, draws: Seq<usize>)
    requires
        draws.len() > 0,
        in_range(draws, costs.len()),
        forall|i: int, j: int| 0 <= i < j < costs.len() ==> costs[i] < costs[j],
    ensures
        exists|place: int| 0 <= place < draws.len() && draws[place] == winner(costs, draws),
        forall|j: int| 0 <= j < draws.len() ==> winner(costs, draws) <= #[trigger] draws[j],
{
    lemma_some_draw_wins(costs, draws);
    let place = choose|place: int| wins(costs, draws, place);
    assert(draws[place] < costs.len());
    assert forall|j: int| 0 <= j < draws.len() implies draws[place] <= #[trigger] draws[j] by {
        assert(draws[j] < costs.len());
        assert(costs[draws[place] as int] <= costs[draws[j] as int]);
    }
}

/// A tournament of at least one draw has a winner.
pub proof fn lemma_some_draw_wins(costs: Seq<Cost>, draws: Seq<usize>)
    requires
        draws.len() > 0,
    ensures
        exists|place: int| wins(costs, draws, place),
    decreases draws.len(),
{
    if draws.len() == 1 {
        assert(wins(costs, draws, 0));
    } else {
        let front = draws.drop_last();
        let last = draws.len() - 1;
        lemma_some_draw_wins(costs, front);
        let ahead = choose|place: int| wins(costs, front, place);
        assert(front[ahead] == draws[ahead]);
        if costs[draws[last] as int] < costs[draws[ahead] as int] {
            assert(wins(costs, draws, last)) by {
                assert forall|j: int| 0 <= j < draws.len() implies costs[draws[last] as int]
                    <= costs[#[trigger] draws[j] as int] by {
                    if j < last {
                        assert(front[j] == draws[j]);
                    }
                }
                assert forall|j: int| 0 <= j < last implies costs[draws[last] as int]
                    < costs[#[trigger] draws[j] as int] by {
                    assert(front[j] == draws[j]);
                }
            }
        } else {
            assert(wins(costs, draws, ahead)) by {
                assert forall|j: int| 0 <= j < draws.len() implies costs[draws[ahead] as int]
                    <= costs[#[trigger] draws[j] as int] by {
                    if j < last {
                        assert(front[j] == draws[j]);
                    }
                }
                assert forall|j: int| 0 <= j < ahead implies costs[draws[ahead] as int]
                    < costs[#[trigger] draws[j] as int] by {
                    assert(front[j] == draws[j]);
                }
            }
        }
    }
}

/// Decide a tournament: of the drawn indices, the one of the lowest cost, and
/// among equals the one drawn first.
pub fn tournament(costs: &[Cost], draws: &[usize]) -> (partner: usize)
    requires
        draws.len() > 0,
        in_range(draws@, costs.len() as nat),
    ensures
        partner == winner(costs@, draws@),
        exists|place: int| wins(costs@, draws@, place) && draws[place] == partner,
        partner < costs.len(),
{
    let mut place: usize = 0;
    let mut partner: usize = draws[0];
    let mut next: usize = 1;
    while next < draws.len()
        invariant
            1 <= next <= draws.len(),
            place < next,
            partner == draws[place as int],
            partner < costs.len(),
            in_range(draws@, costs.len() as nat),
            forall|j: int|
                0 <= j < next ==> costs[partner as int] <= costs[#[trigger] draws[j] as int],
            forall|j: int|
                0 <= j < place ==> costs[partner as int] < costs[#[trigger] draws[j] as int],
        decreases draws.len() - next,
    {
        let challenger = draws[next];
        if costs[challenger] < costs[partner] {
            partner = challenger;
            place = next;
        }
        next += 1;
    }
    proof {
        assert(wins(costs@, draws@, place as int));
        lemma_winner_at(costs@, draws@, place as int);
    }
    partner
}

/// A strategy that chooses, for every slot of the population, the index of a
/// cross over partner.
pub trait Selector<G> {
    /// Select cross over partners, writing the indices of selected partners into `partner_indices`.
    ///
    /// # Arguments
    ///
    /// * `population` - The previous generation of genomes.
    /// * `costs` - The cost associated with each item in `population`.
    /// * `random` - The stream of randomness that the draws come from.
    /// * `partner_indices` - The selected partners, as indices into `population`.
    ///
    /// The three arrays are aligned by index. Each slot gets one partner,
    /// which is an index into the population.
    fn select<R: RandomSource>(
        &mut self,
        population: &[G],
        costs: &[Cost],
        random: &mut R,
        partner_indices: &mut [usize],
    )
        requires
            population.len() == costs.len(),
            old(partner_indices).len() == costs.len(),
        ensures
            final(partner_indices).len() == costs.len(),
            in_range(final(partner_indices)@, costs.len() as nat),
    ;
}

/// A boxed selector is a selector.
impl<G, T: Selector<G>> Selector<G> for Box<T> {
    fn select<R: RandomSource>(
        &mut self,
        population: &[G],
        costs: &[Cost],
        random: &mut R,
        partner_indices: &mut [usize],
    ) {
        (**self).select(population, costs, random, partner_indices)
    }
}

} // verus!
