//! Termination strategies.
use crate::mdp::State;
use vstd::prelude::*;

verus! {

/// A termination strategy decides when to end training.
pub trait TerminationStrategy<S: State>: Sized {
    /// Whether this strategy, asked about `state`, may answer `stop` and become
    /// `next`. A verified implementation states it; the default leaves it
    /// unknown.
    open spec fn decides(&self, state: S, stop: bool, next: Self) -> bool {
        arbitrary()
    }

    /// If `should_stop` returns `true`, training will end.
    fn should_stop(&mut self, state: &S) -> (r: bool)
        ensures
            old(self).decides(*state, r, *final(self)),
    ;
}

/// The termination strategy that ends after a certain number of iterations,
/// regardless of the `State`.
pub struct FixedIterations {
    i: u64,
    iters: u32,
}

impl FixedIterations {
    /// Number of times that [`TerminationStrategy::should_stop`] has been
    /// asked; the count stays at `u64::MAX` once it gets there.
    pub closed spec fn calls(&self) -> nat {
        self.i as nat
    }

    /// The number of iterations after which training ends.
    pub closed spec fn limit(&self) -> nat {
        self.iters as nat
    }

    /// Constructs a new termination strategy which ends when `iters` value
    /// updates have occurred.
    pub fn new(iters: u32) -> (r: FixedIterations)
        ensures
            r.calls() == 0,
            r.limit() == iters,
    {
        FixedIterations { i: 0, iters }
    }
}

impl<S: State> TerminationStrategy<S> for FixedIterations {
    /// Each question counts one more iteration (the count stays at `u64::MAX`
    /// once it gets there); the answer is stop once the count exceeds the limit.
    open spec fn decides(&self, state: S, stop: bool, next: Self) -> bool {
        &&& next.limit() == self.limit()
        &&& next.calls() == if self.calls() < u64::MAX {
            self.calls() + 1
        } else {
            self.calls()
        }
        &&& stop == (self.calls() + 1 > self.limit())
    }

    fn should_stop(&mut self, state: &S) -> (r: bool) {
        if self.i < u64::MAX {
            self.i = self.i + 1;
        }
        self.i > self.iters as u64
    }
}

/// The termination strategy that ends at a terminal state: one with no actions.
pub struct SinkStates {}

impl<S: State> TerminationStrategy<S> for SinkStates {
    /// Stop exactly at a state with no actions; the strategy keeps no count.
    open spec fn decides(&self, state: S, stop: bool, next: Self) -> bool {
        &&& stop == (state.legal_actions().len() == 0)
        &&& next == *self
    }

    fn should_stop(&mut self, state: &S) -> (r: bool) {
        state.actions().len() == 0
    }
}

} // verus!
