//! The validated parameters of a run, and the builders that make them.

use crate::concurrency::ConcurrencySettings;
use crate::failure::Failure;
use crate::failure::Rule;
use crate::math::Cost;
use std::time::Duration;
use vstd::prelude::*;

verus! {

/// The mutation probability that stands for certainty. Probabilities are
/// counted in parts of it: one in a hundred is 10 000.
pub const CERTAINTY: i64 = 1_000_000;

/// The parameters of a run as the contracts see them, valid or not.
pub struct Parameters {
    pub concurrency: ConcurrencySettings,
    pub cost_target: int,
    pub epoch_limit: nat,
    pub mutation_probability: int,
    pub population_size: nat,
    pub time_limit: Duration,
}

impl Parameters {
    /// The first rule that the parameters break, in the fixed order epoch
    /// limit, mutation probability, population size, time limit; `None` where
    /// they are valid. The cost target is free.
    pub open spec fn broken(self) -> Option<Rule> {
        if self.epoch_limit < 1 {
            Some(Rule::EpochLimit)
        } else if self.mutation_probability < 0 {
            Some(Rule::MutationProbability)
        } else if self.population_size < 1 {
            Some(Rule::PopulationSize)
        } else if crate::clock::nanoseconds(self.time_limit) == 0 {
            Some(Rule::TimeLimit)
        } else {
            None
        }
    }
}

/// Parameters are valid if and only if they have none of the four faults,
/// and a failure names a fault that the parameters have: an epoch limit of
/// zero, a negative mutation probability, a population of no genomes, or a
/// time limit of no length.
pub proof fn lemma_failure_matches_fault(parameters: Parameters)
    ensures
        parameters.broken() is None <==> parameters.epoch_limit >= 1
            && parameters.mutation_probability >= 0 && parameters.population_size >= 1
            && crate::clock::nanoseconds(parameters.time_limit) > 0,
        parameters.epoch_limit == 0 ==> parameters.broken() == Some(Rule::EpochLimit),
        parameters.broken() == Some(Rule::EpochLimit) ==> parameters.epoch_limit == 0,
        parameters.broken() == Some(Rule::MutationProbability)
            ==> parameters.mutation_probability < 0,
        parameters.broken() == Some(Rule::PopulationSize) ==> parameters.population_size == 0,
        parameters.broken() == Some(Rule::TimeLimit) ==> crate::clock::nanoseconds(
            parameters.time_limit,
        ) == 0,
        parameters.broken() != Some(Rule::CrossOverCandidates),
        parameters.broken() != Some(Rule::CrossOverSetting),
        parameters.broken() != Some(Rule::MinChunkSize),
{
}

/// The settings for a genetic algorithm search. A value of this type is
/// valid: it breaks no rule.
#[derive(Clone, Copy, Debug, PartialEq)]
pub struct SearchSettings {
    concurrency: ConcurrencySettings,
    cost_target: Cost,
    epoch_limit: usize,
    mutation_probability: i64,
    population_size: usize,
    time_limit: Duration,
}

impl View for SearchSettings {
    type V = Parameters;

    closed spec fn view(&self) -> Parameters {
        Parameters {
            concurrency: self.concurrency,
            cost_target: self.cost_target as int,
            epoch_limit: self.epoch_limit as nat,
            mutation_probability: self.mutation_probability as int,
            population_size: self.population_size as nat,
            time_limit: self.time_limit,
        }
    }
}

impl SearchSettings {
    #[verifier::type_invariant]
    pub open spec fn valid(&self) -> bool {
        self@.broken() is None
    }

    /// Define the degree of parallelism to use when searching.
    pub fn concurrency(&self) -> (policy: ConcurrencySettings)
        ensures
            policy == self@.concurrency,
    {
        self.concurrency
    }

    /// The genome cost that will terminate the search.
    /// Genome costs are expected to be higher at the start of the search process and become
    /// smaller as the search progresses.
    /// The search will terminate when the cost of any genome in the population is less than or
    /// equal to this value.
    pub fn cost_target(&self) -> (target: Cost)
        ensures
            target == self@.cost_target,
    {
        self.cost_target
    }

    /// The number of maximum number of epochs (iterations) that the search should execute
    /// before terminating the search.
    pub fn epoch_limit(&self) -> (limit: usize)
        ensures
            limit == self@.epoch_limit,
            limit >= 1,
    {
        proof {
            use_type_invariant(self);
        }
        self.epoch_limit
    }

    /// The probability of a newly generated genome being mutated, in parts
    /// per million.
    pub fn mutation_probability(&self) -> (probability: i64)
        ensures
            probability == self@.mutation_probability,
            probability >= 0,
    {
        proof {
            use_type_invariant(self);
        }
        self.mutation_probability
    }

    /// The number of genomes that exist at any one epoch (iteration) of the search.
    pub fn population_size(&self) -> (size: usize)
        ensures
            size == self@.population_size,
            size >= 1,
    {
        proof {
            use_type_invariant(self);
        }
        self.population_size
    }

    /// The maximum duration of the search.
    pub fn time_limit(&self) -> (limit: Duration)
        ensures
            limit == self@.time_limit,
            crate::clock::nanoseconds(limit) > 0,
    {
        proof {
            use_type_invariant(self);
        }
        self.time_limit
    }

    /// Make the settings, or fail with the first rule that the values break.
    pub fn new(
        concurrency: ConcurrencySettings,
        cost_target: Cost,
        epoch_limit: usize,
        mutation_rate: i64,
        population_size: usize,
        time_limit: Duration,
    ) -> (made: Result<SearchSettings, Failure>)
        ensures
            ({
                let asked = Parameters {
                    concurrency,
                    cost_target: cost_target as int,
                    epoch_limit: epoch_limit as nat,
                    mutation_probability: mutation_rate as int,
                    population_size: population_size as nat,
                    time_limit,
                };
                match made {
                    Ok(settings) => asked.broken() is None && settings@ == asked,
                    Err(failure) => asked.broken() == Some(failure@),
                }
            }),
    {
        if epoch_limit < 1 {
            return Err(Failure::epoch_limit());
        }
        if mutation_rate < 0 {
            return Err(Failure::mutation_probability());
        }
        if population_size < 1 {
            return Err(Failure::population_size());
        }
        if time_limit.as_nanos() == 0 {
            return Err(Failure::time_limit());
        }
        Ok(
            Self {
                concurrency,
                cost_target,
                epoch_limit,
                mutation_probability: mutation_rate,
                population_size,
                time_limit,
            },
        )
    }
}

impl Default for SearchSettings {
    /// The default search settings.
    /// These will only be suitable for very small search problems.
    fn default() -> (settings: Self)
        ensures
            settings@.concurrency == ConcurrencySettings::SingleThreaded,
            settings@.cost_target == 0,
            settings@.epoch_limit == 1024,
            settings@.mutation_probability == 10_000,
            settings@.population_size == 1024,
            crate::clock::nanoseconds(settings@.time_limit) == 5_000_000_000,
    {
        SearchSettings {
            concurrency: ConcurrencySettings::SingleThreaded,
            cost_target: 0,
            epoch_limit: 1_024,
            mutation_probability: 10_000,
            population_size: 1_024,
            time_limit: Duration::from_secs(5),
        }
    }
}

/// Use to construct the settings required to execute a genetic algorithm search.
/// The setters take any value; `build` validates them all at once.
#[derive(Clone, Copy, PartialEq, PartialOrd)]
pub struct SearchSettingsBuilder {
    concurrency: ConcurrencySettings,
    cost_target: Cost,
    epoch_limit: usize,
    mutation_probability: i64,
    population_size: usize,
    time_limit: Duration,
}

impl View for SearchSettingsBuilder {
    type V = Parameters;

    closed spec fn view(&self) -> Parameters {
        Parameters {
            concurrency: self.concurrency,
            cost_target: self.cost_target as int,
            epoch_limit: self.epoch_limit as nat,
            mutation_probability: self.mutation_probability as int,
            population_size: self.population_size as nat,
            time_limit: self.time_limit,
        }
    }
}

impl SearchSettingsBuilder {
    /// The settings used to initialize the builder.
    pub fn from(settings: &SearchSettings) -> (builder: Self)
        ensures
            builder@ == settings@,
    {
        Self {
            concurrency: settings.concurrency(),
            cost_target: settings.cost_target(),
            epoch_limit: settings.epoch_limit(),
            mutation_probability: settings.mutation_probability(),
            population_size: settings.population_size(),
            time_limit: settings.time_limit(),
        }
    }

    /// Define the degree of parallelism to use when searching.
    pub fn concurrency(self, value: ConcurrencySettings) -> (builder: Self)
        ensures
            builder@ == (Parameters { concurrency: value, ..self@ }),
    {
        Self { concurrency: value, ..self }
    }

    /// The genome cost that will terminate the search.
    /// Genome costs are expected to be higher at the start of the search process and become
    /// smaller as the search progresses.
    /// The search will terminate when the cost of any genome in the population is less than or
    /// equal to this value.
    pub fn cost_target(self, value: Cost) -> (builder: Self)
        ensures
            builder@ == (Parameters { cost_target: value as int, ..self@ }),
    {
        Self { cost_target: value, ..self }
    }

    /// The number of maximum number of epochs (iterations) that the search should execute
    /// before terminating the search.
    pub fn epoch_limit(self, value: usize) -> (builder: Self)
        ensures
            builder@ == (Parameters { epoch_limit: value as nat, ..self@ }),
    {
        Self { epoch_limit: value, ..self }
    }

    /// The probability of a newly generated genome being mutated, in parts
    /// per million.
    pub fn mutation_probability(self, value: i64) -> (builder: Self)
        ensures
            builder@ == (Parameters { mutation_probability: value as int, ..self@ }),
    {
        Self { mutation_probability: value, ..self }
    }

    /// The number of genomes that exist at any one epoch (iteration) of the search.
    pub fn population_size(self, value: usize) -> (builder: Self)
        ensures
            builder@ == (Parameters { population_size: value as nat, ..self@ }),
    {
        Self { population_size: value, ..self }
    }

    /// The maximum duration of the search.
    pub fn time_limit(self, value: Duration) -> (builder: Self)
        ensures
            builder@ == (Parameters { time_limit: value, ..self@ }),
    {
        Self { time_limit: value, ..self }
    }

    /// Construct the settings required to execute a genetic algorithm search,
    /// or fail with the first rule that the values break.
    pub fn build(&self) -> (made: Result<SearchSettings, Failure>)
        ensures
            match made {
                Ok(settings) => self@.broken() is None && settings@ == self@,
                Err(failure) => self@.broken() == Some(failure@),
            },
    {
        SearchSettings::new(
            self.concurrency,
            self.cost_target,
            self.epoch_limit,
            self.mutation_probability,
            self.population_size,
            self.time_limit,
        )
    }
}

impl Default for SearchSettingsBuilder {
    fn default() -> (builder: Self)
        ensures
            builder@.concurrency == ConcurrencySettings::SingleThreaded,
            builder@.cost_target == 0,
            builder@.epoch_limit == 1024,
            builder@.mutation_probability == 10_000,
            builder@.population_size == 1024,
            crate::clock::nanoseconds(builder@.time_limit) == 5_000_000_000,
    {
        SearchSettingsBuilder::from(&SearchSettings::default())
    }
}

/// The parameters of a run that picks its partners by tournament, as the
/// contracts see them, valid or not.
pub struct TournamentParameters {
    pub cross_over_candidates: nat,
    pub search: Parameters,
}

impl TournamentParameters {
    /// The first rule that the parameters break: the rule on the number of
    /// cross over candidates, which must be at least 1, and then those of
    /// the search, in their order. `None` where the parameters are valid.
    pub open spec fn broken(self) -> Option<Rule> {
        if self.cross_over_candidates < 1 {
            Some(Rule::CrossOverCandidates)
        } else {
            self.search.broken()
        }
    }
}

/// The settings for a genetic algorithm search that picks its partners by
/// tournament, on the calling thread. A value of this type is valid: it
/// breaks no rule.
#[derive(Clone, Copy, Debug, PartialEq)]
pub struct Settings {
    cross_over_candidates: usize,
    search: SearchSettings,
}

impl View for Settings {
    type V = TournamentParameters;

    closed spec fn view(&self) -> TournamentParameters {
        TournamentParameters {
            cross_over_candidates: self.cross_over_candidates as nat,
            search: self.search@,
        }
    }
}

impl Settings {
    #[verifier::type_invariant]
    pub open spec fn valid(&self) -> bool {
        &&& self@.broken() is None
        &&& self@.search.concurrency == ConcurrencySettings::SingleThreaded
    }

    /// The genome cost that will terminate the search.
    /// Genome costs are expected to be higher at the start of the search process and become
    /// smaller as the search progresses.
    /// The search will terminate when the cost of any genome in the population is less than or
    /// equal to this value.
    pub fn cost_target(&self) -> (target: Cost)
        ensures
            target == self@.search.cost_target,
    {
        self.search.cost_target()
    }

    /// The number of candidate genomes that will be compared when deciding which genome to
    /// use when new genomes are generated during cross over.
    pub fn cross_over_candidates(&self) -> (candidates: usize)
        ensures
            candidates == self@.cross_over_candidates,
            candidates >= 1,
    {
        proof {
            use_type_invariant(self);
        }
        self.cross_over_candidates
    }

    /// The number of maximum number of epochs (iterations) that the search should execute
    /// before terminating the search.
    pub fn epoch_limit(&self) -> (limit: usize)
        ensures
            limit == self@.search.epoch_limit,
            limit >= 1,
    {
        self.search.epoch_limit()
    }

    /// The probability of a newly generated genome being mutated, in parts
    /// per million.
    pub fn mutation_probability(&self) -> (probability: i64)
        ensures
            probability == self@.search.mutation_probability,
            probability >= 0,
    {
        self.search.mutation_probability()
    }

    /// The number of genomes that exist at any one epoch (iteration) of the search.
    pub fn population_size(&self) -> (size: usize)
        ensures
            size == self@.search.population_size,
            size >= 1,
    {
        self.search.population_size()
    }

    /// The maximum duration of the search.
    pub fn time_limit(&self) -> (limit: Duration)
        ensures
            limit == self@.search.time_limit,
            crate::clock::nanoseconds(limit) > 0,
    {
        self.search.time_limit()
    }

    /// The settings of the search itself, without the number of candidates.
    pub fn search_settings(&self) -> (settings: SearchSettings)
        ensures
            settings@ == self@.search,
    {
        self.search
    }

    /// Make the settings, or fail with the first rule that the values break.
    pub fn new(
        cost_target: Cost,
        cross_over_candidates: usize,
        epoch_limit: usize,
        mutation_rate: i64,
        population_size: usize,
        time_limit: Duration,
    ) -> (made: Result<Settings, Failure>)
        ensures
            ({
                let asked = TournamentParameters {
                    cross_over_candidates: cross_over_candidates as nat,
                    search: Parameters {
                        concurrency: ConcurrencySettings::SingleThreaded,
                        cost_target: cost_target as int,
                        epoch_limit: epoch_limit as nat,
                        mutation_probability: mutation_rate as int,
                        population_size: population_size as nat,
                        time_limit,
                    },
                };
                match made {
                    Ok(settings) => asked.broken() is None && settings@ == asked,
                    Err(failure) => asked.broken() == Some(failure@),
                }
            }),
    {
        if cross_over_candidates < 1 {
            return Err(Failure::cross_over_candidates());
        }
        match SearchSettings::new(
            ConcurrencySettings::SingleThreaded,
            cost_target,
            epoch_limit,
            mutation_rate,
            population_size,
            time_limit,
        ) {
            Ok(search) => Ok(Self { cross_over_candidates, search }),
            Err(failure) => Err(failure),
        }
    }
}

impl Default for Settings {
    /// The default search settings.
    /// These will only be suitable for very small search problems.
    fn default() -> (settings: Self)
        ensures
            settings@.cross_over_candidates == 16,
            settings@.search.concurrency == ConcurrencySettings::SingleThreaded,
            settings@.search.cost_target == 0,
            settings@.search.epoch_limit == 1024,
            settings@.search.mutation_probability == 10_000,
            settings@.search.population_size == 512,
            crate::clock::nanoseconds(settings@.search.time_limit) == 5_000_000_000,
    {
        Settings {
            cross_over_candidates: 16,
            search: SearchSettings {
                concurrency: ConcurrencySettings::SingleThreaded,
                cost_target: 0,
                epoch_limit: 1_024,
                mutation_probability: 10_000,
                population_size: 512,
                time_limit: Duration::from_secs(5),
            },
        }
    }
}

/// Use to construct the settings required to execute a genetic algorithm
/// search that picks its partners by tournament.
/// The setters take any value; `build` validates them all at once.
#[derive(Clone, Copy, Debug, PartialEq)]
pub struct SettingsBuilder {
    cost_target: Cost,
    cross_over_candidates: usize,
    epoch_limit: usize,
    mutation_probability: i64,
    population_size: usize,
    time_limit: Duration,
}

impl View for SettingsBuilder {
    type V = TournamentParameters;

    closed spec fn view(&self) -> TournamentParameters {
        TournamentParameters {
            cross_over_candidates: self.cross_over_candidates as nat,
            search: Parameters {
                concurrency: ConcurrencySettings::SingleThreaded,
                cost_target: self.cost_target as int,
                epoch_limit: self.epoch_limit as nat,
                mutation_probability: self.mutation_probability as int,
                population_size: self.population_size as nat,
                time_limit: self.time_limit,
            },
        }
    }
}

impl SettingsBuilder {
    /// The settings used to initialize the builder.
    pub fn from(settings: &Settings) -> (builder: Self)
        ensures
            builder@ == settings@,
    {
        proof {
            use_type_invariant(settings);
        }
        Self {
            cost_target: settings.cost_target(),
            cross_over_candidates: settings.cross_over_candidates(),
            epoch_limit: settings.epoch_limit(),
            mutation_probability: settings.mutation_probability(),
            population_size: settings.population_size(),
            time_limit: settings.time_limit(),
        }
    }

    /// The genome cost that will terminate the search.
    /// Genome costs are expected to be higher at the start of the search process and become
    /// smaller as the search progresses.
    /// The search will terminate when the cost of any genome in the population is less than or
    /// equal to this value.
    pub fn cost_target(self, value: Cost) -> (builder: Self)
        ensures
            builder@ == (TournamentParameters {
                search: Parameters { cost_target: value as int, ..self@.search },
                ..self@
            }),
    {
        Self { cost_target: value, ..self }
    }

    /// The number of candidate genomes that will be compared when deciding which genome to
    /// use when new genomes are generated during cross over.
    pub fn cross_over_candidates(self, value: usize) -> (builder: Self)
        ensures
            builder@ == (TournamentParameters { cross_over_candidates: value as nat, ..self@ }),
    {
        Self { cross_over_candidates: value, ..self }
    }

    /// The number of maximum number of epochs (iterations) that the search should execute
    /// before terminating the search.
    pub fn epoch_limit(self, value: usize) -> (builder: Self)
        ensures
            builder@ == (TournamentParameters {
                search: Parameters { epoch_limit: value as nat, ..self@.search },
                ..self@
            }),
    {
        Self { epoch_limit: value, ..self }
    }

    /// The probability of a newly generated genome being mutated, in parts
    /// per million.
    pub fn mutation_probability(self, value: i64) -> (builder: Self)
        ensures
            builder@ == (TournamentParameters {
                search: Parameters { mutation_probability: value as int, ..self@.search },
                ..self@
            }),
    {
        Self { mutation_probability: value, ..self }
    }

    /// The number of genomes that exist at any one epoch (iteration) of the search.
    pub fn population_size(self, value: usize) -> (builder: Self)
        ensures
            builder@ == (TournamentParameters {
                search: Parameters { population_size: value as nat, ..self@.search },
                ..self@
            }),
    {
        Self { population_size: value, ..self }
    }

    /// The maximum duration of the search.
    pub fn time_limit(self, value: Duration) -> (builder: Self)
        ensures
            builder@ == (TournamentParameters {
                search: Parameters { time_limit: value, ..self@.search },
                ..self@
            }),
    {
        Self { time_limit: value, ..self }
    }

    /// Construct the settings required to execute a genetic algorithm search,
    /// or fail with the first rule that the values break.
    pub fn build(&self) -> (made: Result<Settings, Failure>)
        ensures
            match made {
                Ok(settings) => self@.broken() is None && settings@ == self@,
                Err(failure) => self@.broken() == Some(failure@),
            },
    {
        Settings::new(
            self.cost_target,
            self.cross_over_candidates,
            self.epoch_limit,
            self.mutation_probability,
            self.population_size,
            self.time_limit,
        )
    }
}

impl Default for SettingsBuilder {
    fn default() -> (builder: Self)
        ensures
            builder@.cross_over_candidates == 16,
            builder@.search.concurrency == ConcurrencySettings::SingleThreaded,
            builder@.search.cost_target == 0,
            builder@.search.epoch_limit == 1024,
            builder@.search.mutation_probability == 10_000,
            builder@.search.population_size == 512,
            crate::clock::nanoseconds(builder@.search.time_limit) == 5_000_000_000,
    {
        SettingsBuilder::from(&Settings::default())
    }
}

} // verus!
