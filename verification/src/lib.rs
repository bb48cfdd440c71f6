//! A generic evolutionary search engine.
//!
//! The caller supplies a notion of a candidate solution (a genome) and four
//! operations on it: create, score, combine and perturb. The engine evolves a
//! population of genomes toward lower cost and stops on a configured limit.
//!
//! Costs are signed integers in a unit of the caller's choosing; lower is
//! better. Probabilities are given in parts per million.

pub mod clock;
pub mod collections;
pub mod concurrency;
pub mod failure;
pub mod genetic;
pub mod math;
pub mod progress;
pub mod random;
pub mod reason;
pub mod ring;
pub mod search;
pub mod selector;
pub mod settings;
pub mod solver;
pub mod success;
pub mod torus_selector;
pub mod tournament_selector;
pub mod weasel;

pub use collections::make_vec;
pub use concurrency::{
    ConcurrencySettings, DetectConcurrencySettings, DetectConcurrencySettingsBuilder,
};
pub use failure::{Failure, Rule};
pub use genetic::Genetic;
pub use math::{largest, lowest, mean, Cost};
pub use progress::{Progress, ProgressSnapshot, Silent};
pub use random::{make_random, make_random_from_seed, make_random_string, Random, RandomSource};
pub use reason::Reason;
pub use ring::neighbour;
pub use search::{
    advance, assess, decide, keep_best, mutation_due, populate, reproduce, search,
};
pub use selector::{tournament, Selector};
pub use settings::{SearchSettings, SearchSettingsBuilder, Settings, SettingsBuilder, CERTAINTY};
pub use solver::solve;
pub use success::Success;
pub use torus_selector::TorusSelector;
pub use tournament_selector::TournamentSelector;
pub use weasel::{WSGenetic, WSGenome, TARGET};
