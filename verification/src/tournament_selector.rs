//! Tournament selection: the partner of a slot is the best of a few genomes
//! drawn from the whole population.

use crate::failure::Failure;
use crate::failure::Rule;
use crate::math::Cost;
use crate::random::RandomSource;
use crate::selector::Selector;
use core::marker::PhantomData;
use vstd::prelude::*;

verus! {

/// A population crossover selector that lets the whole population compete.
/// For each genome in the population, select the best partner from N randomly
/// chosen candidates. The more candidates, the stronger the pull toward the
/// best genome of the population.
#[derive(Debug, PartialEq)]
pub struct TournamentSelector<G> {
    cross_over_candidates: usize,
    _phantom_data: PhantomData<G>,
}

impl<G> View for TournamentSelector<G> {
    type V = nat;

    closed spec fn view(&self) -> nat {
        self.cross_over_candidates as nat
    }
}

impl<G> TournamentSelector<G> {
    #[verifier::type_invariant]
    pub open spec fn valid(&self) -> bool {
        self@ >= 1
    }

    /// Create new Tournament Population Selector.
    ///
    /// # Arguments
    ///
    /// * `cross_over_candidates` - The number of candidate genomes that will be compared when
    ///                             deciding which genome to use when new genomes are generated
    ///                             during cross over. At least 1.
    pub fn new(cross_over_candidates: usize) -> (made: Result<Self, Failure>)
        ensures
            match made {
                Ok(selector) => cross_over_candidates >= 1 && selector@ == cross_over_candidates,
                Err(failure) => cross_over_candidates < 1 && failure@ == Rule::CrossOverCandidates,
            },
    {
        if cross_over_candidates < 1 {
            return Err(Failure::cross_over_candidates());
        }
        Ok(Self { cross_over_candidates, _phantom_data: PhantomData })
    }

    /// The number of candidate genomes that will be compared when deciding which genome to
    /// use when new genomes are generated during cross over.
    pub fn cross_over_candidates(&self) -> (candidates: usize)
        ensures
            candidates == self@,
            candidates >= 1,
    {
        proof {
            use_type_invariant(self);
        }
        self.cross_over_candidates
    }
}

impl<G> Clone for TournamentSelector<G> {
    fn clone(&self) -> (copy: Self)
        ensures
            copy@ == self@,
    {
        proof {
            use_type_invariant(self);
        }
        Self { cross_over_candidates: self.cross_over_candidates, _phantom_data: PhantomData }
    }
}

impl<G> Default for TournamentSelector<G> {
    fn default() -> (selector: Self)
        ensures
            selector@ == 8,
    {
        Self { cross_over_candidates: 8, _phantom_data: PhantomData }
    }
}

impl<G> Selector<G> for TournamentSelector<G> {
    /// Every slot gets the winner of a tournament of its own, among as many
    /// draws from the whole population as the selector has candidates.
    fn select<R: RandomSource>(
        &mut self,
        population: &[G],
        costs: &[Cost],
        random: &mut R,
        partner_indices: &mut [usize],
    )
        ensures
            final(self)@ == old(self)@,
            forall|slot: int|
                0 <= slot < costs.len() ==> crate::selector::drawn::<R>(
                    costs@,
                    old(self)@,
                    #[trigger] final(partner_indices)[slot],
                ),
    {
        let size = costs.len();
        let rounds = self.cross_over_candidates();
        let mut draws: Vec<usize> = Vec::new();
        let mut slot: usize = 0;
        while slot < size
            invariant
                slot <= size,
                size == costs.len(),
                partner_indices.len() == size,
                rounds >= 1,
                forall|i: int| 0 <= i < slot ==> #[trigger] partner_indices[i] < size,
                forall|i: int|
                    0 <= i < slot ==> crate::selector::drawn::<R>(
                        costs@,
                        rounds as nat,
                        #[trigger] partner_indices[i],
                    ),
            decreases size - slot,
        {
            draws.clear();
            let mut round: usize = 0;
            while round < rounds
                invariant
                    round <= rounds,
                    size > 0,
                    draws.len() == round,
                    crate::selector::in_range(draws@, size as nat),
                    crate::selector::all_drawn_below::<R>(draws@, size),
                decreases rounds - round,
            {
                let draw = random.below(size);
                assert(crate::random::drawn_below::<R>(size, draw));
                draws.push(draw);
                round += 1;
            }
            let partner = crate::selector::tournament(costs, &draws);
            partner_indices[slot] = partner;
            slot += 1;
        }
    }
}

} // verus!
