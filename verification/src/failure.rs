//! The validation errors of the crate.

use vstd::prelude::*;

verus! {

/// A validation rule that a configuration value can break.
#[derive(Clone, Copy, Debug, PartialEq, Eq, Hash, Structural)]
pub enum Rule {
    /// The number of cross over candidates must be at least 1.
    CrossOverCandidates,
    /// The epoch limit must be at least 1.
    EpochLimit,
    /// The mutation probability must not be negative.
    MutationProbability,
    /// The population size must be at least 1.
    PopulationSize,
    /// The smallest chunk handed to one thread must hold at least 1 genome.
    MinChunkSize,
    /// The time limit must not be zero.
    TimeLimit,
    /// The neighbourhood radius of a cross over must be at least 1.
    CrossOverSetting,
}

impl Rule {
    /// The numeric code of the rule. Codes are stable: callers match on them.
    pub open spec fn code(self) -> int {
        match self {
            Rule::CrossOverCandidates => 1,
            Rule::EpochLimit => 2,
            Rule::MutationProbability => 3,
            Rule::PopulationSize => 4,
            Rule::MinChunkSize => 5,
            Rule::TimeLimit => 6,
            Rule::CrossOverSetting => 7,
        }
    }

    /// The message that reports a breach of the rule.
    pub open spec fn text(self) -> Seq<char> {
        match self {
            Rule::CrossOverCandidates => "number of cross over candidates must be at least 1"@,
            Rule::EpochLimit => "epoch limit must be at least 1"@,
            Rule::MutationProbability => "mutation probability must be in the range [0..1]"@,
            Rule::PopulationSize => "population size must be at least 1"@,
            Rule::MinChunkSize => "min_chunk_size size must be at least 1"@,
            Rule::TimeLimit => "time limit must be non-zero"@,
            Rule::CrossOverSetting => "cross over radius must be at least 1"@,
        }
    }
}

/// A failed validation: the rule that was broken, with its code and message.
#[derive(Clone, Copy, Debug, PartialEq, Eq, Hash)]
pub struct Failure {
    rule: Rule,
}

impl View for Failure {
    type V = Rule;

    closed spec fn view(&self) -> Rule {
        self.rule
    }
}

impl Failure {
    /// The rule that was broken.
    pub fn rule(&self) -> (rule: Rule)
        ensures
            rule == self@,
    {
        self.rule
    }

    /// Return a POSIX exit code for the failure case.
    pub fn error(&self) -> (code: i32)
        ensures
            code == self@.code(),
    {
        match self.rule {
            Rule::CrossOverCandidates => 1,
            Rule::EpochLimit => 2,
            Rule::MutationProbability => 3,
            Rule::PopulationSize => 4,
            Rule::MinChunkSize => 5,
            Rule::TimeLimit => 6,
            Rule::CrossOverSetting => 7,
        }
    }

    /// Return a human readable error message.
    pub fn message(&self) -> (text: &'static str)
        ensures
            text@ == self@.text(),
    {
        match self.rule {
            Rule::CrossOverCandidates => "number of cross over candidates must be at least 1",
            Rule::EpochLimit => "epoch limit must be at least 1",
            Rule::MutationProbability => "mutation probability must be in the range [0..1]",
            Rule::PopulationSize => "population size must be at least 1",
            Rule::MinChunkSize => "min_chunk_size size must be at least 1",
            Rule::TimeLimit => "time limit must be non-zero",
            Rule::CrossOverSetting => "cross over radius must be at least 1",
        }
    }

    /// Return a failure for the case when the number of cross over candidates is invalid.
    pub fn cross_over_candidates() -> (failure: Self)
        ensures
            failure@ == Rule::CrossOverCandidates,
    {
        Failure { rule: Rule::CrossOverCandidates }
    }

    /// Return a failure for the case when the epoch limit is invalid.
    pub fn epoch_limit() -> (failure: Self)
        ensures
            failure@ == Rule::EpochLimit,
    {
        Failure { rule: Rule::EpochLimit }
    }

    /// Return a failure for the case when the mutation probability is invalid.
    pub fn mutation_probability() -> (failure: Self)
        ensures
            failure@ == Rule::MutationProbability,
    {
        Failure { rule: Rule::MutationProbability }
    }

    /// Return a failure for the case when the population size is invalid.
    pub fn population_size() -> (failure: Self)
        ensures
            failure@ == Rule::PopulationSize,
    {
        Failure { rule: Rule::PopulationSize }
    }

    /// Return a failure for an invalid multithreading setting `min_chunk_size`.
    pub fn min_chunk_size() -> (failure: Self)
        ensures
            failure@ == Rule::MinChunkSize,
    {
        Failure { rule: Rule::MinChunkSize }
    }

    /// Return a failure for the case when the time limit is invalid.
    pub fn time_limit() -> (failure: Self)
        ensures
            failure@ == Rule::TimeLimit,
    {
        Failure { rule: Rule::TimeLimit }
    }

    /// Return a failure for the case when a cross over setting is invalid.
    pub fn cross_over_setting() -> (failure: Self)
        ensures
            failure@ == Rule::CrossOverSetting,
    {
        Failure { rule: Rule::CrossOverSetting }
    }
}

} // verus!
