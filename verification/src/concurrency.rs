//! The policy by which the costs of a population are computed: on the calling
//! thread, or spread over the threads of the machine.

use crate::failure::Failure;
use crate::failure::Rule;
use vstd::prelude::*;

verus! {

/// The setting of the adaptive policy: the smallest share of a population
/// that is worth handing to a thread of its own. It is at least 1.
#[derive(Clone, Copy, Debug, PartialEq, Eq, PartialOrd, Ord, Hash)]
pub struct DetectConcurrencySettings {
    min_chunk_size: usize,
}

impl View for DetectConcurrencySettings {
    type V = nat;

    closed spec fn view(&self) -> nat {
        self.min_chunk_size as nat
    }
}

impl DetectConcurrencySettings {
    #[verifier::type_invariant]
    pub open spec fn valid(&self) -> bool {
        self@ >= 1
    }

    /// The minimum population size to use in a thread.
    /// This is to prevent overhead and false sharing.
    pub fn min_chunk_size(&self) -> (size: usize)
        ensures
            size == self@,
            size >= 1,
    {
        proof {
            use_type_invariant(self);
        }
        self.min_chunk_size
    }

    /// Make the setting, or fail where the size is zero.
    pub fn new(min_chunk_size: usize) -> (made: Result<DetectConcurrencySettings, Failure>)
        ensures
            match made {
                Ok(settings) => min_chunk_size >= 1 && settings@ == min_chunk_size,
                Err(failure) => min_chunk_size < 1 && failure@ == Rule::MinChunkSize,
            },
    {
        if min_chunk_size < 1 {
            return Err(Failure::min_chunk_size());
        }
        Ok(Self { min_chunk_size })
    }
}

impl Default for DetectConcurrencySettings {
    /// The default setting: a chunk of one genome is worth a thread.
    fn default() -> (settings: Self)
        ensures
            settings@ == 1,
    {
        Self { min_chunk_size: 1 }
    }
}

/// Use to construct the setting of the adaptive policy.
#[derive(Clone, Copy, PartialEq, PartialOrd)]
pub struct DetectConcurrencySettingsBuilder {
    min_chunk_size: usize,
}

impl View for DetectConcurrencySettingsBuilder {
    type V = nat;

    closed spec fn view(&self) -> nat {
        self.min_chunk_size as nat
    }
}

impl DetectConcurrencySettingsBuilder {
    /// The settings used to initialize the builder.
    pub fn from(settings: &DetectConcurrencySettings) -> (builder: Self)
        ensures
            builder@ == settings@,
    {
        Self { min_chunk_size: settings.min_chunk_size() }
    }

    /// The minimum population size to use in a thread.
    /// This is to prevent overhead and false sharing.
    pub fn min_chunk_size(&self) -> (size: usize)
        ensures
            size == self@,
    {
        self.min_chunk_size
    }

    /// Replace the minimum population size to use in a thread.
    pub fn with_min_chunk_size(self, value: usize) -> (builder: Self)
        ensures
            builder@ == value,
    {
        Self { min_chunk_size: value }
    }

    /// Construct the setting, or fail where the size is zero.
    pub fn build(&self) -> (made: Result<DetectConcurrencySettings, Failure>)
        ensures
            match made {
                Ok(settings) => self@ >= 1 && settings@ == self@,
                Err(failure) => self@ < 1 && failure@ == Rule::MinChunkSize,
            },
    {
        DetectConcurrencySettings::new(self.min_chunk_size)
    }
}

impl Default for DetectConcurrencySettingsBuilder {
    fn default() -> (builder: Self)
        ensures
            builder@ == 1,
    {
        DetectConcurrencySettingsBuilder::from(&DetectConcurrencySettings::default())
    }
}

/// Define the degree of parallelism to use when the costs of a population are
/// computed. Selection, cross over and mutation always run on the calling
/// thread.
#[derive(Clone, Copy, Debug, PartialEq, Eq, PartialOrd, Ord, Hash)]
pub enum ConcurrencySettings {
    /// Spread the work over the threads where each would get at least the
    /// minimum chunk, and stay on the calling thread where not.
    Detect(DetectConcurrencySettings),
    /// Spread the work over the threads of the machine.
    MultiThreaded,
    /// Compute every cost on the calling thread.
    SingleThreaded,
}

/// Whether a policy spreads the evaluation of a population of the given size
/// over the given number of threads.
///
/// The adaptive policy does so where the population, shared out evenly among
/// the threads, leaves each of them at least the minimum chunk.
pub open spec fn spreads(policy: ConcurrencySettings, population_size: nat, threads: nat) -> bool {
    match policy {
        ConcurrencySettings::Detect(detect) => threads >= 1 && population_size / threads
            >= detect@,
        ConcurrencySettings::MultiThreaded => true,
        ConcurrencySettings::SingleThreaded => false,
    }
}

impl ConcurrencySettings {
    /// Decide whether the costs of a population of the given size are
    /// computed on several threads, of which the machine offers `threads`.
    pub fn is_spread(&self, population_size: usize, threads: usize) -> (spread: bool)
        ensures
            spread == spreads(*self, population_size as nat, threads as nat),
    {
        match self {
            ConcurrencySettings::Detect(detect) => threads >= 1 && population_size / threads
                >= detect.min_chunk_size(),
            ConcurrencySettings::MultiThreaded => true,
            ConcurrencySettings::SingleThreaded => false,
        }
    }
}

} // verus!
