//! Exploration strategies.
use crate::mdp::{Agent, State};
use vstd::prelude::*;

verus! {

/// An exploration strategy decides, based on an `Agent`, which action to take
/// next, and takes it.
pub trait ExplorationStrategy<S: State> {
    /// Selects the next action for this `Agent`, takes it, and returns the
    /// action taken: one that the agent's state allowed, and which moved the
    /// agent to its new state.
    fn pick_action<G: Agent<S>>(&self, agent: &mut G) -> (r: S::A)
        requires
            old(agent).state().legal_actions().len() > 0,
        ensures
            old(agent).state().legal_actions().contains(r),
            old(agent).step(r, final(agent).state()),
    ;
}

/// The random exploration strategy: it always takes a random action, as
/// [`Agent::pick_random_action`] defines it for the agent.
pub struct RandomExploration;

impl RandomExploration {
    /// Constructs the random exploration strategy.
    pub fn new() -> (r: RandomExploration) {
        RandomExploration
    }
}

impl Default for RandomExploration {
    fn default() -> (r: Self)
        ensures
            r == (RandomExploration),
    {
        Self::new()
    }
}

impl<S: State> ExplorationStrategy<S> for RandomExploration {
    fn pick_action<G: Agent<S>>(&self, agent: &mut G) -> (r: S::A) {
        agent.pick_random_action()
    }
}

} // verus!
