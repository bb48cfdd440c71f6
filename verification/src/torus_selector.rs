//! Torus selection: the partner of a slot is the best of a few genomes drawn
//! from its neighbourhood on a ring.

use crate::failure::Failure;
use crate::failure::Rule;
use crate::math::Cost;
use crate::random::RandomSource;
use crate::selector::Selector;
use core::marker::PhantomData;
use vstd::prelude::*;

verus! {

/// The settings of a torus selector as the contracts see them.
pub struct Neighbourhood {
    pub cross_over_candidates: nat,
    pub radius: nat,
}

/// The longest offset that a selector of the given radius draws: the radius,
/// or the largest offset that the machine can hold where the radius is
/// larger.
pub open spec fn reach(radius: nat) -> int {
    if radius > isize::MAX {
        isize::MAX as int
    } else {
        radius as int
    }
}

/// The places that the offsets lead to from a slot, on a ring of `size`
/// places.
pub open spec fn places(slot: int, offsets: Seq<isize>, size: int) -> Seq<usize> {
    Seq::new(offsets.len(), |j: int| crate::ring::position(slot, offsets[j] as int, size) as usize)
}

/// Whether every offset is a result of `between` with the reach of the
/// radius in both directions, in some state of a source.
pub open spec fn all_drawn_within<R: RandomSource>(offsets: Seq<isize>, radius: nat) -> bool {
    forall|j: int|
        0 <= j < offsets.len() ==> -reach(radius) <= #[trigger] offsets[j] <= reach(radius)
            && crate::random::drawn_between::<R>(
            (-reach(radius)) as isize,
            reach(radius) as isize,
            offsets[j],
        )
}

/// Whether `partner` comes out of a tournament of `rounds` draws from the
/// neighbourhood of `slot`: each draw an offset of at most the radius, in
/// either direction, and the partner the winner among the places that the
/// offsets lead to.
pub open spec fn drawn_nearby<R: RandomSource>(
    costs: Seq<Cost>,
    slot: int,
    radius: nat,
    rounds: nat,
    partner: usize,
) -> bool {
    exists|offsets: Seq<isize>|
        offsets.len() == rounds && all_drawn_within::<R>(offsets, radius) && partner
            == #[trigger] crate::selector::winner(costs, places(slot, offsets, costs.len() as int))
}

/// A diversity preserving population crossover selector.
/// Treats every genome in the population as having an (arbitrary) location on a 1 dimensional
/// torus.
/// For each genome in the population, select the best partner from N randomly chosen candidates
/// within a certain distance in both directions on the torus.
#[derive(Debug, PartialEq)]
pub struct TorusSelector<G> {
    cross_over_candidates: usize,
    radius: usize,
    _phantom_data: PhantomData<G>,
}

impl<G> View for TorusSelector<G> {
    type V = Neighbourhood;

    closed spec fn view(&self) -> Neighbourhood {
        Neighbourhood {
            cross_over_candidates: self.cross_over_candidates as nat,
            radius: self.radius as nat,
        }
    }
}

impl<G> TorusSelector<G> {
    #[verifier::type_invariant]
    pub open spec fn valid(&self) -> bool {
        self@.cross_over_candidates >= 1 && self@.radius >= 1
    }

    /// Create new population selector.
    ///
    /// # Arguments
    ///
    /// * `cross_over_candidates` - The number of candidate genomes that will be compared when
    ///                             deciding which genome to use when new genomes are generated
    ///                             during cross over. At least 1.
    /// * `radius` - The number of positions to search for candidates, in each direction.
    ///              At least 1.
    pub fn new(cross_over_candidates: usize, radius: usize) -> (made: Result<Self, Failure>)
        ensures
            match made {
                Ok(selector) => cross_over_candidates >= 1 && radius >= 1 && selector@ == (
                Neighbourhood {
                    cross_over_candidates: cross_over_candidates as nat,
                    radius: radius as nat,
                }),
                Err(failure) => if cross_over_candidates < 1 {
                    failure@ == Rule::CrossOverCandidates
                } else {
                    radius < 1 && failure@ == Rule::CrossOverSetting
                },
            },
    {
        if cross_over_candidates < 1 {
            return Err(Failure::cross_over_candidates());
        }
        if radius < 1 {
            return Err(Failure::cross_over_setting());
        }
        Ok(Self { cross_over_candidates, radius, _phantom_data: PhantomData })
    }

    /// The number of candidate genomes that will be compared when deciding which genome to
    /// use when new genomes are generated during cross over.
    pub fn cross_over_candidates(&self) -> (candidates: usize)
        ensures
            candidates == self@.cross_over_candidates,
            candidates >= 1,
    {
        proof {
            use_type_invariant(self);
        }
        self.cross_over_candidates
    }

    /// The number of positions to search for candidates, in each direction.
    pub fn radius(&self) -> (radius: usize)
        ensures
            radius == self@.radius,
            radius >= 1,
    {
        proof {
            use_type_invariant(self);
        }
        self.radius
    }
}

impl<G> Clone for TorusSelector<G> {
    fn clone(&self) -> (copy: Self)
        ensures
            copy@ == self@,
    {
        proof {
            use_type_invariant(self);
        }
        Self {
            cross_over_candidates: self.cross_over_candidates,
            radius: self.radius,
            _phantom_data: PhantomData,
        }
    }
}

impl<G> Default for TorusSelector<G> {
    fn default() -> (selector: Self)
        ensures
            selector@ == (Neighbourhood { cross_over_candidates: 8, radius: 64 }),
    {
        Self { cross_over_candidates: 8, radius: 64, _phantom_data: PhantomData }
    }
}

impl<G> Selector<G> for TorusSelector<G> {
    /// Every slot gets the winner of a tournament of its own, among as many
    /// draws from its neighbourhood as the selector has candidates. No
    /// partner is further from its slot than the radius, the shorter way
    /// round the ring.
    fn select<R: RandomSource>(
        &mut self,
        population: &[G],
        costs: &[Cost],
        random: &mut R,
        partner_indices: &mut [usize],
    )
        ensures
            final(self)@ == old(self)@,
            forall|slot: int|
                0 <= slot < costs.len() ==> drawn_nearby::<R>(
                    costs@,
                    slot,
                    old(self)@.radius,
                    old(self)@.cross_over_candidates,
                    #[trigger] final(partner_indices)[slot],
                ),
            forall|slot: int|
                0 <= slot < costs.len() ==> crate::ring::distance(
                    slot,
                    #[trigger] final(partner_indices)[slot] as int,
                    costs.len() as int,
                ) <= old(self)@.radius,
    {
        let size = costs.len();
        let rounds = self.cross_over_candidates();
        let radius = self.radius();
        let furthest: isize = if radius > isize::MAX as usize {
            isize::MAX
        } else {
            radius as isize
        };
        let mut draws: Vec<usize> = Vec::new();
        let mut slot: usize = 0;
        while slot < size
            invariant
                slot <= size,
                size == costs.len(),
                partner_indices.len() == size,
                rounds >= 1,
                radius >= 1,
                furthest == reach(radius as nat),
                forall|i: int| 0 <= i < slot ==> #[trigger] partner_indices[i] < size,
                forall|i: int|
                    0 <= i < slot ==> drawn_nearby::<R>(
                        costs@,
                        i,
                        radius as nat,
                        rounds as nat,
                        #[trigger] partner_indices[i],
                    ),
                forall|i: int|
                    0 <= i < slot ==> crate::ring::distance(
                        i,
                        #[trigger] partner_indices[i] as int,
                        size as int,
                    ) <= radius,
            decreases size - slot,
        {
            draws.clear();
            let ghost mut offsets: Seq<isize> = Seq::empty();
            let mut round: usize = 0;
            while round < rounds
                invariant
                    round <= rounds,
                    slot < size,
                    1 <= furthest <= radius,
                    furthest == reach(radius as nat),
                    draws.len() == round,
                    offsets.len() == round,
                    crate::selector::in_range(draws@, size as nat),
                    draws@ =~= places(slot as int, offsets, size as int),
                    all_drawn_within::<R>(offsets, radius as nat),
                    forall|j: int|
                        0 <= j < round ==> crate::ring::distance(
                            slot as int,
                            #[trigger] draws[j] as int,
                            size as int,
                        ) <= radius,
                decreases rounds - round,
            {
                let nearest: isize = -furthest;
                let offset = random.between(nearest, furthest);
                assert(crate::random::drawn_between::<R>(nearest, furthest, offset));
                let place = crate::ring::neighbour(slot, offset, size);
                draws.push(place);
                proof {
                    offsets = offsets.push(offset);
                }
                round += 1;
            }
            let partner = crate::selector::tournament(costs, &draws);
            partner_indices[slot] = partner;
            slot += 1;
        }
    }
}

} // verus!
