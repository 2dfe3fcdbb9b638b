//! The decision process as the domain defines it: states with their legal
//! actions, and an agent that moves between states by taking actions.
use std::hash::Hash;
use vstd::prelude::*;

verus! {

/// Relies on `rand::random`: it draws a value of `T` from the thread-local
/// generator. Nothing is known of the value drawn.
pub assume_specification<T>[ rand::random::<T> ]() -> (r: T)
    where
        rand::distributions::Standard: rand::distributions::Distribution<T>,
;

/// An index below `n` drawn at random, as the remainder of a random `usize`.
pub(crate) fn random_index(n: usize) -> (r: usize)
    requires
        n > 0,
    ensures
        r < n,
{
    let x: usize = rand::random::<usize>();
    x % n
}

/// A `State` has a set of actions that can be taken from it. The type of the
/// actions is the associated type `A`.
///
/// What the domain rewards on arriving at a state is a real number, so it is
/// supplied beside this trait by the learners that need it.
pub trait State: Eq + Hash + Clone + Sized {
    /// Action type associated with this `State`.
    type A: Eq + Hash + Clone;

    /// The actions that can be taken from this state, in the order that
    /// [`State::actions`] lists them; empty for a terminal state. A verified
    /// implementation states them; the default leaves them unknown.
    open spec fn legal_actions(&self) -> Seq<Self::A> {
        arbitrary()
    }

    /// The actions that can be taken from this `State`, to arrive in another `State`.
    fn actions(&self) -> (r: Vec<Self::A>)
        ensures
            r@ == self.legal_actions(),
    ;

    /// Selects a random action that can be taken from this `State`. The default
    /// implementation takes a uniformly distributed action from the defined set
    /// of actions.
    fn random_action(&self) -> (r: Self::A)
        requires
            self.legal_actions().len() > 0,
        ensures
            self.legal_actions().contains(r),
    {
        let mut actions = self.actions();
        let a_t = random_index(actions.len());
        let r = actions.swap_remove(a_t);
        assert(self.legal_actions()[a_t as int] == r);
        r
    }
}

/// An `Agent` holds a state and takes actions from it; after taking an action
/// the agent arrives at another state, as the domain's dynamics decide.
pub trait Agent<S: State> {
    /// The state that the agent is in. A verified implementation states it;
    /// the default leaves it unknown.
    open spec fn state(&self) -> S {
        arbitrary()
    }

    /// Whether taking `action` from this agent may lead to the state `next`,
    /// as the domain's dynamics decide. A verified implementation states it;
    /// the default leaves it unknown.
    open spec fn step(&self, action: S::A, next: S) -> bool {
        arbitrary()
    }

    /// Returns the current state of this `Agent`.
    fn current_state(&self) -> (r: &S)
        ensures
            *r == self.state(),
    ;

    /// Takes the given action, possibly changing the current `State`.
    fn take_action(&mut self, action: &S::A)
        ensures
            old(self).step(*action, final(self).state()),
    ;

    /// Takes a random action from the set of possible actions from the current
    /// state, and returns the action taken. The default implementation uses
    /// [`State::random_action`] to pick it.
    fn pick_random_action(&mut self) -> (r: S::A)
        requires
            old(self).state().legal_actions().len() > 0,
        ensures
            old(self).state().legal_actions().contains(r),
            old(self).step(r, final(self).state()),
    {
        let action = self.current_state().random_action();
        self.take_action(&action);
        action
    }
}

} // verus!
