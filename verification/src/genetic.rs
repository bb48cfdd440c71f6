//! The genetic operations that a caller supplies for its genome.

use crate::math::Cost;
use vstd::prelude::*;

verus! {

/// Define the genetic operations on a chromosome `G`.
///
/// The engine never looks into a genome: it creates, scores, combines and
/// perturbs genomes through these operations alone.
pub trait Genetic<G> {
    /// Create a new, randomly initialized genome.
    fn initialize(&mut self) -> (genome: G);

    /// Evaluate the cost of the genome argument, with regards to a specific problem of interest.
    /// Lower is better. The cost depends on the genome and on the fixed data
    /// of the problem alone. The engine may evaluate several genomes at
    /// once, on several threads.
    fn evaluate(&self, genome: &G) -> (cost: Cost);

    /// Return a genome that is the random combination of the two supplied as arguments.
    fn crossover(&mut self, lhs: &G, rhs: &G) -> (child: G);

    /// Return a randomly mutated copy of a genome.
    fn mutate(&mut self, genome: &G) -> (mutant: G);
}

/// Boxed operations are operations: so a caller can choose them at run time,
/// and hand them over behind a pointer. Each operation is that of the
/// operations in the box: a call of theirs gives its result, and takes them
/// from what the box held before to what it holds after.
impl<G, T: Genetic<G> + ?Sized> Genetic<G> for Box<T> {
    fn initialize(&mut self) -> (genome: G)
        ensures
            exists|inner: &mut T|
                &*inner == &**old(self) && &*final(inner) == &**final(self) && call_ensures(
                    T::initialize,
                    (inner,),
                    genome,
                ),
    {
        let inner: &mut T = &mut **self;
        inner.initialize()
    }

    fn evaluate(&self, genome: &G) -> (cost: Cost)
        ensures
            call_ensures(T::evaluate, (&**self, genome), cost),
    {
        (**self).evaluate(genome)
    }

    fn crossover(&mut self, lhs: &G, rhs: &G) -> (child: G)
        ensures
            exists|inner: &mut T|
                &*inner == &**old(self) && &*final(inner) == &**final(self) && call_ensures(
                    T::crossover,
                    (inner, lhs, rhs),
                    child,
                ),
    {
        let inner: &mut T = &mut **self;
        inner.crossover(lhs, rhs)
    }

    fn mutate(&mut self, genome: &G) -> (mutant: G)
        ensures
            exists|inner: &mut T|
                &*inner == &**old(self) && &*final(inner) == &**final(self) && call_ensures(
                    T::mutate,
                    (inner, genome),
                    mutant,
                ),
    {
        let inner: &mut T = &mut **self;
        inner.mutate(genome)
    }
}

/// Whether `costs` are costs of the population, genome by genome: each one a
/// result of `evaluate` on the genome at its place.
pub open spec fn assessed<G, Ops: Genetic<G>>(
    genetic: &Ops,
    population: Seq<G>,
    costs: Seq<Cost>,
) -> bool {
    &&& costs.len() == population.len()
    &&& forall|i: int|
        0 <= i < population.len() ==> call_ensures(
            Ops::evaluate,
            (genetic, &population[i]),
            #[trigger] costs[i],
        )
}

} // verus!
