//! A search in one call: the parameters given one by one, the partners picked
//! by tournament.

use crate::failure::Failure;
use crate::genetic::Genetic;
use crate::math::Cost;
use crate::progress::Progress;
use crate::random::RandomSource;
use crate::settings::Parameters;
use crate::settings::Settings;
use crate::settings::TournamentParameters;
use crate::success::Success;
use crate::tournament_selector::TournamentSelector;
use std::time::Duration;
use vstd::prelude::*;

verus! {

/// Run a genetic algorithm search.
///
/// The parameters are validated first, and the first rule that they break is
/// the failure: the number of cross over candidates, the epoch limit, the
/// mutation rate, the population size, the time limit, in this order. No
/// genome is created before they are found valid. Valid parameters start a
/// search with tournament selection on the calling thread, which never
/// fails.
pub fn solve<G, Ops, Obs, Rnd>(
    genetic: Ops,
    progress: Option<Obs>,
    random: Rnd,
    cost_target: Cost,
    cross_over_candidates: usize,
    epoch_limit: usize,
    mutation_rate: i64,
    population_size: usize,
    time_limit: Duration,
) -> (outcome: Result<Success<G>, Failure>) where
    G: Clone + Send + Sync,
    Ops: Genetic<G> + Sync,
    Obs: Progress<G>,
    Rnd: RandomSource,

    ensures
        ({
            let asked = TournamentParameters {
                cross_over_candidates: cross_over_candidates as nat,
                search: Parameters {
                    concurrency: crate::concurrency::ConcurrencySettings::SingleThreaded,
                    cost_target: cost_target as int,
                    epoch_limit: epoch_limit as nat,
                    mutation_probability: mutation_rate as int,
                    population_size: population_size as nat,
                    time_limit,
                },
            };
            match outcome {
                Ok(success) => asked.broken() is None && crate::search::concluded::<G, Ops, Obs>(
                    asked.search,
                    progress is Some,
                    success,
                ),
                Err(failure) => asked.broken() == Some(failure@),
            }
        }),
{
    let settings = match Settings::new(
        cost_target,
        cross_over_candidates,
        epoch_limit,
        mutation_rate,
        population_size,
        time_limit,
    ) {
        Ok(settings) => settings,
        Err(failure) => {
            return Err(failure);
        },
    };
    let selector: TournamentSelector<G> = match TournamentSelector::new(
        settings.cross_over_candidates(),
    ) {
        Ok(selector) => selector,
        Err(failure) => {
            return Err(failure);
        },
    };
    let search_settings = settings.search_settings();
    crate::search::search(genetic, selector, progress, random, &search_settings)
}

} // verus!
