//! The record of a finished search.

use crate::math::Cost;
use crate::reason::Reason;
use std::time::Duration;
use vstd::prelude::*;

verus! {

/// Define the successful outcome of a genetic algorithm search.
#[derive(Debug, PartialEq)]
pub struct Success<G> {
    pub reason: Reason,
    pub epoch: usize,
    pub elapsed: Duration,
    pub best_cost: Cost,
    pub mean_cost: Cost,
    pub worst_cost: Cost,
    pub best_genome: G,
}

impl<G> Success<G> {
    /// Make the record of the seven values.
    pub fn new(
        reason: Reason,
        epoch: usize,
        elapsed: Duration,
        best_cost: Cost,
        mean_cost: Cost,
        worst_cost: Cost,
        best_genome: G,
    ) -> (success: Self)
        ensures
            success == (Success {
                reason,
                epoch,
                elapsed,
                best_cost,
                mean_cost,
                worst_cost,
                best_genome,
            }),
    {
        Self { reason, epoch, elapsed, best_cost, mean_cost, worst_cost, best_genome }
    }

    /// The reason the search terminated.
    pub fn reason(&self) -> (reason: Reason)
        ensures
            reason == self.reason,
    {
        self.reason
    }

    /// The number of epochs (iterations) the search took before terminating.
    pub fn epoch(&self) -> (epoch: usize)
        ensures
            epoch == self.epoch,
    {
        self.epoch
    }

    /// The duration of the search.
    pub fn elapsed(&self) -> (elapsed: Duration)
        ensures
            elapsed == self.elapsed,
    {
        self.elapsed
    }

    /// The cost of the best genome found by the search algorithm.
    /// This is the cost associated with [`Success::best_genome`].
    pub fn best_cost(&self) -> (cost: Cost)
        ensures
            cost == self.best_cost,
    {
        self.best_cost
    }

    /// The arithmetic mean cost of final generation of the algorithm, rounded
    /// down to a whole cost.
    pub fn mean_cost(&self) -> (cost: Cost)
        ensures
            cost == self.mean_cost,
    {
        self.mean_cost
    }

    /// The worst cost found in the final generation of the algorithm.
    pub fn worst_cost(&self) -> (cost: Cost)
        ensures
            cost == self.worst_cost,
    {
        self.worst_cost
    }

    /// The best (lowest cost) genome found by the search algorithm.
    /// This is the genome associated with [`Success::best_cost`].
    pub fn best_genome(&self) -> (genome: &G)
        ensures
            *genome == self.best_genome,
    {
        &self.best_genome
    }
}

impl<G: Clone> Clone for Success<G> {
    fn clone(&self) -> (copy: Self)
        ensures
            copy.reason == self.reason,
            copy.epoch == self.epoch,
            copy.elapsed == self.elapsed,
            copy.best_cost == self.best_cost,
            copy.mean_cost == self.mean_cost,
            copy.worst_cost == self.worst_cost,
            cloned(self.best_genome, copy.best_genome),
    {
        Self {
            reason: self.reason,
            epoch: self.epoch,
            elapsed: self.elapsed,
            best_cost: self.best_cost,
            mean_cost: self.mean_cost,
            worst_cost: self.worst_cost,
            best_genome: self.best_genome.clone(),
        }
    }
}

} // verus!
