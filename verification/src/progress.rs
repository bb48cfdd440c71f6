//! Progress reports: what the engine tells an observer after each epoch, and
//! how the observer may stop the search.

use crate::math::Cost;
use std::time::Duration;
use vstd::prelude::*;

verus! {

/// Define a snapshot of the search progress. It is valid while the observer
/// is being called.
#[derive(Debug, PartialEq)]
pub struct ProgressSnapshot<'a, G> {
    pub epoch: usize,
    pub elapsed: Duration,
    pub best_cost: Cost,
    pub best_genome: &'a G,
}

impl<'a, G> ProgressSnapshot<'a, G> {
    /// Make a snapshot of the four values.
    pub fn new(epoch: usize, elapsed: Duration, best_cost: Cost, best_genome: &'a G) -> (snapshot:
        Self)
        ensures
            snapshot == (ProgressSnapshot { epoch, elapsed, best_cost, best_genome }),
    {
        Self { epoch, elapsed, best_cost, best_genome }
    }

    /// The number of epochs (iterations) that the search has completed.
    pub fn epoch(&self) -> (epoch: usize)
        ensures
            epoch == self.epoch,
    {
        self.epoch
    }

    /// The duration of the search so far.
    pub fn elapsed(&self) -> (elapsed: Duration)
        ensures
            elapsed == self.elapsed,
    {
        self.elapsed
    }

    /// The cost of the best genome found by the search algorithm so far.
    /// This is the cost associated with `best_genome`.
    pub fn best_cost(&self) -> (cost: Cost)
        ensures
            cost == self.best_cost,
    {
        self.best_cost
    }

    /// The best (lowest cost) genome found by the search algorithm so far.
    /// This is the genome associated with `best_cost`.
    pub fn best_genome(&self) -> (genome: &G)
        ensures
            genome == self.best_genome,
    {
        self.best_genome
    }
}

impl<'a, G> Clone for ProgressSnapshot<'a, G> {
    fn clone(&self) -> (copy: Self)
        ensures
            copy == *self,
    {
        Self {
            epoch: self.epoch,
            elapsed: self.elapsed,
            best_cost: self.best_cost,
            best_genome: self.best_genome,
        }
    }
}

/// Define the progress reporting callback. The engine calls it once after
/// each evaluation of the population, on the calling thread.
///
/// An observer that only watches always returns `true`. Returning `false` is
/// the way to cancel: the search then ends at once, with the reason
/// `StopRequested`.
pub trait Progress<G> {
    /// Take note of the snapshot, and say whether the search goes on.
    fn report(&mut self, snapshot: ProgressSnapshot<G>) -> (proceed: bool);
}

/// A boxed observer is an observer: so a caller can choose it at run time.
/// A report is a report to the observer in the box: a call of its `report`
/// gives the answer, and takes it from what the box held before to what it
/// holds after.
impl<G, T: Progress<G> + ?Sized> Progress<G> for Box<T> {
    fn report(&mut self, snapshot: ProgressSnapshot<G>) -> (proceed: bool)
        ensures
            exists|inner: &mut T|
                &*inner == &**old(self) && &*final(inner) == &**final(self) && call_ensures(
                    T::report,
                    (inner, snapshot),
                    proceed,
                ),
    {
        let inner: &mut T = &mut **self;
        inner.report(snapshot)
    }
}

/// The observer that takes no note and never cancels. It gives a type to a
/// search that runs without a callback.
#[derive(Clone, Copy, Debug, Default, PartialEq, Eq)]
pub struct Silent;

impl<G> Progress<G> for Silent {
    fn report(&mut self, snapshot: ProgressSnapshot<G>) -> (proceed: bool)
        ensures
            proceed,
    {
        true
    }
}

} // verus!
