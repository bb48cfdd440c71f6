//! The generational search loop and the phases it is made of.

use crate::concurrency::ConcurrencySettings;
use crate::failure::Failure;
use crate::genetic::Genetic;
use crate::math::Cost;
use crate::progress::Progress;
use crate::progress::ProgressSnapshot;
use crate::random::RandomSource;
use crate::reason::Reason;
use crate::selector::Selector;
use crate::settings::Parameters;
use crate::settings::SearchSettings;
use crate::settings::CERTAINTY;
use crate::success::Success;
use rayon::iter::IntoParallelRefIterator;
use rayon::iter::ParallelIterator;
use std::time::Duration;
use std::time::Instant;
use vstd::prelude::*;

verus! {

/// `rayon::current_num_threads`: the number of threads in the pool that
/// spread work runs on. Nothing is promised of the number.
#[verifier::external_body]
fn worker_threads() -> usize {
    rayon::current_num_threads()
}

/// rayon's `par_iter`, `map` and `collect` into a vector: every genome is
/// evaluated once, on the threads of the pool, and the costs are gathered in
/// the order of the genomes. Each cost is what `Genetic::evaluate` returned
/// for the genome at its place.
#[verifier::external_body]
fn assess_spread<G: Sync, Ops: Genetic<G> + Sync>(genetic: &Ops, population: &Vec<G>) -> (costs:
    Vec<Cost>)
    ensures
        crate::genetic::assessed(genetic, population@, costs@),
{
    population.par_iter().map(|genome| genetic.evaluate(genome)).collect()
}

/// The reason for which a search ends after an epoch, if it ends there.
///
/// The checks have a fixed order, and the first that holds decides: the epoch
/// limit is reached; the best cost is at or below the target; the time limit
/// has passed.
pub open spec fn verdict(
    parameters: Parameters,
    epoch: nat,
    best_cost: int,
    elapsed: Duration,
) -> Option<Reason> {
    if epoch == parameters.epoch_limit {
        Some(Reason::Epoch(epoch as usize))
    } else if best_cost <= parameters.cost_target {
        Some(Reason::CostTargetReached(best_cost as Cost))
    } else if crate::clock::nanoseconds(elapsed) >= crate::clock::nanoseconds(
        parameters.time_limit,
    ) {
        Some(Reason::TimeOut(elapsed))
    } else {
        None
    }
}

/// Whether `copy` is a copy of a genome that was evaluated at `cost`.
pub open spec fn evaluated<G: Clone, Ops: Genetic<G>>(
    operations: Ops,
    genome: G,
    cost: Cost,
    copy: G,
) -> bool {
    &&& cloned(genome, copy)
    &&& call_ensures(Ops::evaluate, (&operations, &genome), cost)
}

/// Whether the figures of a record are those of the cost array `costs`: the
/// mean and the worst cost are its mean and its highest cost, and no cost in
/// it is below the best cost.
pub open spec fn summed_up<G>(costs: Seq<Cost>, success: Success<G>) -> bool {
    &&& costs.len() > 0
    &&& success.mean_cost == crate::math::average(costs)
    &&& crate::math::highest(costs, success.worst_cost)
    &&& forall|i: int| 0 <= i < costs.len() ==> success.best_cost <= #[trigger] costs[i]
}

/// Whether an observer answered `proceed` to the snapshot of the last epoch
/// of a search: its number, the time it ended at, and the best cost and the
/// best genome of the run.
pub open spec fn reported<G, Obs: Progress<G>>(success: Success<G>, proceed: bool) -> bool {
    exists|watcher: &mut Obs|
        call_ensures(
            Obs::report,
            (
                watcher,
                ProgressSnapshot {
                    epoch: success.epoch,
                    elapsed: success.elapsed,
                    best_cost: success.best_cost,
                    best_genome: &success.best_genome,
                },
            ),
            proceed,
        )
}

/// What holds of the record of every search: of one that ran under
/// `parameters`, with an observer or without.
///
/// The search ran at least one epoch and no more than the limit. It was
/// stopped if and only if there was an observer and it answered the snapshot
/// of the last epoch with a stop; otherwise the reason is the verdict on the
/// last epoch. The mean and the worst cost are those of a generation of as
/// many genomes as the population size. The best genome is a copy of a
/// genome that was evaluated at the best cost, and no genome of the last
/// generation costs less: so the best cost is no higher than the mean, which
/// is no higher than the worst.
pub open spec fn concluded<G: Clone, Ops: Genetic<G>, Obs: Progress<G>>(
    parameters: Parameters,
    observed: bool,
    success: Success<G>,
) -> bool {
    &&& 1 <= success.epoch <= parameters.epoch_limit
    &&& observed ==> reported::<G, Obs>(success, success.reason != Reason::StopRequested)
    &&& if success.reason == Reason::StopRequested {
        observed
    } else {
        verdict(parameters, success.epoch as nat, success.best_cost as int, success.elapsed)
            == Some(success.reason)
    }
    &&& exists|costs: Seq<Cost>|
        costs.len() == parameters.population_size && #[trigger] summed_up(costs, success)
    &&& exists|operations: Ops, genome: G| #[trigger]
        evaluated(operations, genome, success.best_cost, success.best_genome)
    &&& success.best_cost <= success.mean_cost <= success.worst_cost
}

/// Whether `genome` is a result of `initialize`, in some state of the
/// operations.
pub open spec fn initialized<G, Ops: Genetic<G>>(genome: G) -> bool {
    exists|operations: &mut Ops| call_ensures(Ops::initialize, (operations,), genome)
}

/// Create the first generation: `size` genomes, each from `initialize`.
pub fn populate<G, Ops: Genetic<G>>(genetic: &mut Ops, size: usize) -> (population: Vec<G>)
    ensures
        population.len() == size,
        forall|i: int| 0 <= i < size ==> initialized::<G, Ops>(#[trigger] population[i]),
{
    let mut population: Vec<G> = Vec::new();
    let mut made: usize = 0;
    while made < size
        invariant
            made <= size,
            population.len() == made,
            forall|i: int| 0 <= i < made ==> initialized::<G, Ops>(#[trigger] population[i]),
        decreases size - made,
    {
        let genome = genetic.initialize();
        assert(initialized::<G, Ops>(genome));
        population.push(genome);
        made += 1;
    }
    population
}

/// Compute the cost of every genome of the population, on the calling thread
/// or, where `spread` is set, on the threads of the machine. Either way the
/// costs are those of the genomes, in their order.
pub fn assess<G: Sync, Ops: Genetic<G> + Sync>(
    genetic: &Ops,
    population: &Vec<G>,
    spread: bool,
) -> (costs: Vec<Cost>)
    ensures
        crate::genetic::assessed(genetic, population@, costs@),
{
    if spread {
        return assess_spread(genetic, population);
    }
    let mut costs: Vec<Cost> = Vec::new();
    let mut i: usize = 0;
    while i < population.len()
        invariant
            i <= population.len(),
            costs.len() == i,
            forall|k: int|
                0 <= k < i ==> call_ensures(
                    Ops::evaluate,
                    (genetic, &population[k]),
                    #[trigger] costs[k],
                ),
        decreases population.len() - i,
    {
        let cost = genetic.evaluate(&population[i]);
        costs.push(cost);
        i += 1;
    }
    costs
}

/// Carry the best of the run over one more generation: where the lowest cost
/// of the generation is below the best cost so far, it becomes the best cost,
/// and a copy of the first genome that has it becomes the best genome. A cost
/// that only equals the best so far changes nothing.
pub fn keep_best<G: Clone>(
    best_cost: &mut Cost,
    best_genome: &mut G,
    population: &Vec<G>,
    costs: &Vec<Cost>,
)
    requires
        population.len() == costs.len(),
    ensures
        *final(best_cost) <= *old(best_cost),
        forall|i: int| 0 <= i < costs.len() ==> *final(best_cost) <= #[trigger] costs[i],
        if *final(best_cost) < *old(best_cost) {
            exists|place: int| #[trigger]
                crate::math::first_lowest(costs@, place) && *final(best_cost) == costs[place]
                    && cloned(population[place], *final(best_genome))
        } else {
            *final(best_genome) == *old(best_genome)
        },
{
    match crate::math::lowest(costs) {
        Some(index) => {
            if costs[index] < *best_cost {
                *best_cost = costs[index];
                *best_genome = population[index].clone();
            }
        },
        None => {},
    }
}

/// Decide whether the search ends after an epoch, and for which reason.
pub fn decide(settings: &SearchSettings, epoch: usize, best_cost: Cost, elapsed: Duration) -> (reason:
    Option<Reason>)
    ensures
        reason == verdict(settings@, epoch as nat, best_cost as int, elapsed),
{
    if epoch == settings.epoch_limit() {
        Some(Reason::Epoch(epoch))
    } else if best_cost <= settings.cost_target() {
        Some(Reason::CostTargetReached(best_cost))
    } else if elapsed.as_nanos() >= settings.time_limit().as_nanos() {
        Some(Reason::TimeOut(elapsed))
    } else {
        None
    }
}

/// The numerator with which mutation is drawn, over a denominator of
/// certainty: the probability, held to the range from never to certainty.
pub open spec fn parts(probability: int) -> int {
    if probability >= CERTAINTY {
        CERTAINTY as int
    } else if probability < 0 {
        0
    } else {
        probability
    }
}

/// Draw whether a child is mutated, for a probability in parts per million:
/// one draw of a ratio, with the probability over certainty. So it is never
/// at zero or below, always at certainty or above, and by the draw in
/// between.
pub fn mutation_due<Rnd: RandomSource>(random: &mut Rnd, probability: i64) -> (due: bool)
    ensures
        crate::random::drawn_ratio::<Rnd>(
            parts(probability as int) as u32,
            CERTAINTY as u32,
            due,
        ),
        probability <= 0 ==> !due,
        probability >= CERTAINTY ==> due,
{
    let numerator: i64 = if probability >= CERTAINTY {
        CERTAINTY
    } else if probability < 0 {
        0
    } else {
        probability
    };
    let due = random.ratio(numerator as u32, CERTAINTY as u32);
    assert(crate::random::drawn_ratio::<Rnd>(numerator as u32, CERTAINTY as u32, due));
    due
}

/// Whether `child` is a result of `crossover` on the two genomes in this
/// order, in some state of the operations.
pub open spec fn crossed<G, Ops: Genetic<G>>(lhs: G, rhs: G, child: G) -> bool {
    exists|operations: &mut Ops| call_ensures(Ops::crossover, (operations, &lhs, &rhs), child)
}

/// Whether `mutant` is a result of `mutate` on the genome, in some state of
/// the operations.
pub open spec fn mutated<G, Ops: Genetic<G>>(genome: G, mutant: G) -> bool {
    exists|operations: &mut Ops| call_ensures(Ops::mutate, (operations, &genome), mutant)
}

/// Whether `child` is bred from the genome of a slot and its partner by the
/// draws `first` and `due` and the cross `cross`.
///
/// The cross combines the two, the genome of the slot first where `first` is
/// set and the partner first where not. The child is a mutant of the cross
/// where `due` is set, and the cross itself where not.
pub open spec fn bred_by<G, Ops: Genetic<G>, Rnd: RandomSource>(
    genome: G,
    partner: G,
    mutation_probability: int,
    child: G,
    first: bool,
    cross: G,
    due: bool,
) -> bool {
    &&& crate::random::drawn_ratio::<Rnd>(1, 2, first)
    &&& if first {
        crossed::<G, Ops>(genome, partner, cross)
    } else {
        crossed::<G, Ops>(partner, genome, cross)
    }
    &&& crate::random::drawn_ratio::<Rnd>(
        parts(mutation_probability) as u32,
        CERTAINTY as u32,
        due,
    )
    &&& if due {
        mutated::<G, Ops>(cross, child)
    } else {
        child == cross
    }
}

/// Whether `child` is bred from the genome of a slot and its partner: the
/// order of the two in the cross is drawn with even chances, and whether the
/// cross is mutated is drawn with the mutation probability.
pub open spec fn bred<G, Ops: Genetic<G>, Rnd: RandomSource>(
    genome: G,
    partner: G,
    mutation_probability: int,
    child: G,
) -> bool {
    exists|first: bool, cross: G, due: bool| #[trigger]
        bred_by::<G, Ops, Rnd>(genome, partner, mutation_probability, child, first, cross, due)
}

/// Breed the next generation: one child for every slot, appended to
/// `offspring` in the order of the slots.
///
/// The child of a slot combines the genome of the slot and its partner, in
/// one order or the other with the same chance, and is mutated with the given
/// probability. The next generation has as many genomes as this one.
pub fn reproduce<G, Ops: Genetic<G>, Rnd: RandomSource>(
    genetic: &mut Ops,
    population: &Vec<G>,
    partner_indices: &Vec<usize>,
    random: &mut Rnd,
    mutation_probability: i64,
    offspring: &mut Vec<G>,
)
    requires
        partner_indices.len() == population.len(),
        crate::selector::in_range(partner_indices@, population.len() as nat),
    ensures
        final(offspring).len() == old(offspring).len() + population.len(),
        final(offspring)@.take(old(offspring).len() as int) == old(offspring)@,
        forall|slot: int|
            0 <= slot < population.len() ==> bred::<G, Ops, Rnd>(
                population[slot],
                population[partner_indices[slot] as int],
                mutation_probability as int,
                #[trigger] final(offspring)[old(offspring).len() + slot],
            ),
{
    let ghost before = offspring@;
    let mut slot: usize = 0;
    while slot < population.len()
        invariant
            slot <= population.len(),
            partner_indices.len() == population.len(),
            crate::selector::in_range(partner_indices@, population.len() as nat),
            offspring.len() == before.len() + slot,
            offspring@.take(before.len() as int) == before,
            forall|done: int|
                0 <= done < slot ==> bred::<G, Ops, Rnd>(
                    population[done],
                    population[partner_indices[done] as int],
                    mutation_probability as int,
                    #[trigger] offspring[before.len() + done],
                ),
        decreases population.len() - slot,
    {
        let lhs = &population[slot];
        let rhs = &population[partner_indices[slot]];
        let first = random.ratio(1, 2);
        assert(crate::random::drawn_ratio::<Rnd>(1, 2, first));
        let cross = if first {
            let cross = genetic.crossover(lhs, rhs);
            assert(crossed::<G, Ops>(*lhs, *rhs, cross));
            cross
        } else {
            let cross = genetic.crossover(rhs, lhs);
            assert(crossed::<G, Ops>(*rhs, *lhs, cross));
            cross
        };
        let ghost crossing = cross;
        let due = mutation_due(random, mutation_probability);
        let child = if due {
            let mutant = genetic.mutate(&cross);
            assert(mutated::<G, Ops>(cross, mutant));
            mutant
        } else {
            cross
        };
        assert(bred_by::<G, Ops, Rnd>(
            *lhs,
            *rhs,
            mutation_probability as int,
            child,
            first,
            crossing,
            due,
        ));
        let ghost grown = offspring@;
        offspring.push(child);
        assert(offspring@.take(before.len() as int) =~= grown.take(before.len() as int));
        assert forall|done: int| 0 <= done < slot + 1 implies bred::<G, Ops, Rnd>(
            population[done],
            population[partner_indices[done] as int],
            mutation_probability as int,
            #[trigger] offspring[before.len() + done],
        ) by {
            if done < slot {
                assert(offspring[before.len() + done] == grown[before.len() + done]);
            }
        }
        slot += 1;
    }
}

/// Replace a generation by the next: select a partner for every slot, breed
/// one child for every slot, and put the children in the place of their
/// parents. `spare` is the buffer that the children are bred into; it comes
/// back empty, so that it serves again.
///
/// The next generation has as many genomes as this one, and so a population
/// keeps its size from epoch to epoch. The child in a slot is bred from the
/// genome that was in the slot and from the partner that the selector chose
/// for it.
pub fn advance<G, Ops: Genetic<G>, Sel: Selector<G>, Rnd: RandomSource>(
    genetic: &mut Ops,
    selector: &mut Sel,
    random: &mut Rnd,
    population: &mut Vec<G>,
    spare: &mut Vec<G>,
    partner_indices: &mut Vec<usize>,
    costs: &Vec<Cost>,
    mutation_probability: i64,
)
    requires
        old(population).len() == costs.len(),
        old(partner_indices).len() == costs.len(),
        old(spare).len() == 0,
    ensures
        final(population).len() == old(population).len(),
        final(partner_indices).len() == old(population).len(),
        final(spare).len() == 0,
        crate::selector::in_range(final(partner_indices)@, old(population).len() as nat),
        forall|slot: int|
            0 <= slot < old(population).len() ==> bred::<G, Ops, Rnd>(
                old(population)[slot],
                old(population)[final(partner_indices)[slot] as int],
                mutation_probability as int,
                #[trigger] final(population)[slot],
            ),
{
    selector.select(population, costs, random, partner_indices);
    reproduce(genetic, population, partner_indices, random, mutation_probability, spare);
    assert forall|slot: int| 0 <= slot < population.len() implies bred::<G, Ops, Rnd>(
        population[slot],
        population[partner_indices[slot] as int],
        mutation_probability as int,
        #[trigger] spare[slot],
    ) by {
        assert(spare[0 + slot] == spare[slot]);
    }
    std::mem::swap(population, spare);
    spare.clear();
}

/// Search for a solution using a genetic algorithm.
/// This is the main entry point for the crate.
///
/// # Arguments
///
/// * `genetic` - Define the genetic operations on a chromosome `G`.
/// * `selector` - Define the algorithm used to select genome partners for cross over.
/// * `progress` - Define the progress reporting callback, if any.
/// * `random` - The stream of randomness for selection and reproduction.
/// * `settings` - Configuration of genetic algorithm search.
///
/// Each epoch evaluates the population, reports to the observer, checks the
/// limits, and otherwise selects partners and breeds the next generation,
/// which has the size of this one. The call returns when the search has
/// ended; it never fails.
pub fn search<G, Ops, Sel, Obs, Rnd>(
    genetic: Ops,
    selector: Sel,
    progress: Option<Obs>,
    random: Rnd,
    settings: &SearchSettings,
) -> (outcome: Result<Success<G>, Failure>) where
    G: Clone + Send + Sync,
    Ops: Genetic<G> + Sync,
    Sel: Selector<G>,
    Obs: Progress<G>,
    Rnd: RandomSource,

    ensures
        outcome matches Ok(success) && concluded::<G, Ops, Obs>(
            settings@,
            progress is Some,
            success,
        ),
{
    let mut genetic = genetic;
    let mut selector = selector;
    let mut observer = progress;
    let mut random = random;

    let start_time = Instant::now();
    let size = settings.population_size();
    let limit = settings.epoch_limit();
    let spread = match settings.concurrency() {
        ConcurrencySettings::SingleThreaded => false,
        policy => policy.is_spread(size, worker_threads()),
    };

    let mut population: Vec<G> = populate(&mut genetic, size);
    let mut replacement: Vec<G> = Vec::new();
    let mut partner_indices: Vec<usize> = Vec::new();
    while partner_indices.len() < size
        invariant
            partner_indices.len() <= size,
        decreases size - partner_indices.len(),
    {
        partner_indices.push(0);
    }

    let mut epoch: usize = 0;
    let mut best_cost: Cost = Cost::MAX;
    let mut best_genome: G = population[0].clone();

    loop
        invariant
            size >= 1,
            size == settings@.population_size,
            limit == settings@.epoch_limit,
            epoch < limit,
            population.len() == size,
            replacement.len() == 0,
            partner_indices.len() == size,
            (observer is Some) == (progress is Some),
            epoch == 0 ==> best_cost == Cost::MAX && cloned(population[0], best_genome),
            epoch > 0 ==> exists|operations: Ops, genome: G| #[trigger]
                evaluated(operations, genome, best_cost, best_genome),
        decreases limit - epoch,
    {
        epoch += 1;

        let costs = assess(&genetic, &population, spread);
        let ghost cost_before = best_cost;
        keep_best(&mut best_cost, &mut best_genome, &population, &costs);
        proof {
            if best_cost < cost_before {
                let place = choose|place: int| #[trigger]
                    crate::math::first_lowest(costs@, place) && best_cost == costs[place]
                        && cloned(population[place], best_genome);
                assert(evaluated(genetic, population[place], best_cost, best_genome));
            } else if epoch == 1 {
                assert(costs[0] == best_cost);
                assert(evaluated(genetic, population[0], best_cost, best_genome));
            }
        }

        let elapsed = start_time.elapsed();

        let proceed = match &mut observer {
            Some(watcher) => {
                let snapshot = ProgressSnapshot::new(epoch, elapsed, best_cost, &best_genome);
                let proceed = watcher.report(snapshot);
                assert(exists|watcher: &mut Obs|
                    call_ensures(Obs::report, (watcher, snapshot), proceed));
                proceed
            },
            None => true,
        };
        let reason = if proceed {
            decide(settings, epoch, best_cost, elapsed)
        } else {
            Some(Reason::StopRequested)
        };
        match reason {
            Some(reason) => {
                let worst_cost = match crate::math::largest(&costs) {
                    Some(cost) => cost,
                    None => best_cost,
                };
                let mean_cost = match crate::math::mean(&costs) {
                    Some(cost) => cost,
                    None => best_cost,
                };
                let success = Success::new(
                    reason,
                    epoch,
                    elapsed,
                    best_cost,
                    mean_cost,
                    worst_cost,
                    best_genome,
                );
                proof {
                    crate::math::lemma_average_between(
                        costs@,
                        best_cost as int,
                        worst_cost as int,
                    );
                    assert(summed_up(costs@, success));
                    let (operations, genome) = choose|operations: Ops, genome: G| #[trigger]
                        evaluated(operations, genome, best_cost, best_genome);
                    assert(evaluated(operations, genome, success.best_cost, success.best_genome));
                }
                return Ok(success);
            },
            None => {},
        }

        advance(
            &mut genetic,
            &mut selector,
            &mut random,
            &mut population,
            &mut replacement,
            &mut partner_indices,
            &costs,
            settings.mutation_probability(),
        );
    }
}

} // verus!
