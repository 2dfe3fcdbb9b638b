//! Gathering transitions into a fixed-capacity batch by letting the
//! exploration strategy drive the agent.
use crate::mdp::{Agent, State};
use crate::strategy::explore::ExplorationStrategy;
use crate::strategy::terminate::TerminationStrategy;
use vstd::prelude::*;

verus! {

/// Capacity of a batch: the number of transitions one training step consumes.
pub const BATCH: usize = 64;

/// One step of the agent: where it was, what it did, where it arrived, and
/// whether the episode ended there.
pub struct Transition<S: State> {
    pub state: S,
    pub action: S::A,
    pub next_state: S,
    pub done: bool,
}

/// The transitions gathered for one training step, in the order taken.
///
/// A batch that ended early holds fewer than [`BATCH`] transitions; a learner
/// that needs exactly [`BATCH`] rows fills the rest with zeros and `done == false`.
pub struct Batch<S: State> {
    pub transitions: Vec<Transition<S>>,
    /// The agent ended in a state from which no action can be taken.
    pub reached_sink: bool,
}

/// `t` records one step that took the agent from `before` to `after` and the
/// termination strategy from `term_before` to `term_after`: it starts at a
/// clone of the agent's state, takes one of that state's legal actions, which
/// the agent's dynamics turned into the state reached, ends at a clone of that
/// state, and is done exactly when the strategy, asked about the state reached,
/// answered `stop`, or when that state has no actions.
pub open spec fn records_step<S: State, G: Agent<S>, T: TerminationStrategy<S>>(
    before: G,
    after: G,
    term_before: T,
    term_after: T,
    stop: bool,
    t: Transition<S>,
) -> bool {
    &&& cloned(before.state(), t.state)
    &&& cloned(after.state(), t.next_state)
    &&& before.state().legal_actions().contains(t.action)
    &&& before.step(t.action, after.state())
    &&& term_before.decides(after.state(), stop, term_after)
    &&& t.done == (stop || after.state().legal_actions().len() == 0)
}

/// The transitions of `t` are the steps of one walk: the `k`-th took the
/// agent from `walk[k]` to `walk[k + 1]`, and the termination strategy from
/// `terms[k]` to `terms[k + 1]` with the answer `stops[k]`.
pub open spec fn follows<S: State, G: Agent<S>, T: TerminationStrategy<S>>(
    t: Seq<Transition<S>>,
    walk: Seq<G>,
    terms: Seq<T>,
    stops: Seq<bool>,
) -> bool {
    &&& walk.len() == t.len() + 1
    &&& terms.len() == t.len() + 1
    &&& stops.len() == t.len()
    &&& forall|k: int|
        0 <= k < t.len() ==> #[trigger] records_step(
            walk[k],
            walk[k + 1],
            terms[k],
            terms[k + 1],
            stops[k],
            t[k],
        )
}

/// The shape of the `done` flags: only the last transition may be done, and a
/// batch that holds fewer than [`BATCH`] transitions ends with a done one.
pub open spec fn done_flags_well_placed<S: State>(t: Seq<Transition<S>>) -> bool {
    &&& forall|k: int| 0 <= k < t.len() - 1 ==> !(#[trigger] t[k]).done
    &&& 0 < t.len() < BATCH ==> t.last().done
}

/// Takes one step of the agent: records its state, lets `exploration` take one
/// action, records the state reached, and asks `termination` about it. The
/// transition is done when `termination` says stop, or when the state reached
/// has no actions.
pub fn explore_step<S: State, G: Agent<S>, T: TerminationStrategy<S>, E: ExplorationStrategy<S>>(
    agent: &mut G,
    termination: &mut T,
    exploration: &E,
) -> (t: Transition<S>)
    requires
        old(agent).state().legal_actions().len() > 0,
    ensures
        exists|stop: bool|
            records_step(*old(agent), *final(agent), *old(termination), *final(termination), stop, t),
{
    let state = agent.current_state().clone();
    let action = exploration.pick_action(agent);
    let next_state = agent.current_state().clone();
    let stop = termination.should_stop(agent.current_state());
    let done = stop || agent.current_state().actions().len() == 0;
    let t = Transition { state, action, next_state, done };
    assert(records_step(*old(agent), *agent, *old(termination), *termination, stop, t));
    t
}

/// Collects up to [`BATCH`] transitions, each by one [`explore_step`].
/// Collection ends early at the first transition for which `termination` says
/// stop, or after which the agent is in a state with no actions; that
/// transition is marked done. Otherwise the batch is full. If the agent starts
/// in a state with no actions, no transition is collected and `termination` is
/// not asked.
pub fn collect_batch<S: State, G: Agent<S>, T: TerminationStrategy<S>, E: ExplorationStrategy<S>>(
    agent: &mut G,
    termination: &mut T,
    exploration: &E,
) -> (b: Batch<S>)
    ensures
        b.transitions@.len() <= BATCH,
        (b.transitions@.len() == 0) == (old(agent).state().legal_actions().len() == 0),
        b.reached_sink == (final(agent).state().legal_actions().len() == 0),
        b.reached_sink && b.transitions@.len() > 0 ==> b.transitions@.last().done,
        done_flags_well_placed(b.transitions@),
        exists|walk: Seq<G>, terms: Seq<T>, stops: Seq<bool>|
            {
                &&& #[trigger] follows(b.transitions@, walk, terms, stops)
                &&& walk[0] == *old(agent)
                &&& walk.last() == *final(agent)
                &&& terms[0] == *old(termination)
                &&& terms.last() == *final(termination)
            },
{
    let mut transitions: Vec<Transition<S>> = Vec::new();
    let mut reached_sink = agent.current_state().actions().len() == 0;
    let ghost mut walk: Seq<G> = seq![*agent];
    let ghost mut terms: Seq<T> = seq![*termination];
    let ghost mut stops: Seq<bool> = Seq::empty();
    let mut i: usize = 0;
    if reached_sink {
        assert(follows(transitions@, walk, terms, stops));
        assert(walk.last() == *agent && terms.last() == *termination);
        return Batch { transitions, reached_sink };
    }
    while i < BATCH
        invariant_except_break
            !reached_sink,
            forall|k: int| 0 <= k < i ==> !(#[trigger] transitions@[k]).done,
        invariant
            i <= BATCH,
            transitions@.len() == i,
            reached_sink == (agent.state().legal_actions().len() == 0),
            follows(transitions@, walk, terms, stops),
            walk[0] == *old(agent),
            walk.last() == *agent,
            terms[0] == *old(termination),
            terms.last() == *termination,
        ensures
            i > 0,
            forall|k: int| 0 <= k < i - 1 ==> !(#[trigger] transitions@[k]).done,
            i < BATCH || reached_sink ==> i > 0 && transitions@[i - 1].done,
        decreases BATCH - i,
    {
        let ghost agent_before = *agent;
        let ghost term_before = *termination;
        let t = explore_step(agent, termination, exploration);
        reached_sink = agent.current_state().actions().len() == 0;
        let done = t.done;
        let ghost prev = transitions@;
        let ghost last = t;
        let ghost stop = choose|stop: bool|
            records_step(agent_before, *agent, term_before, *termination, stop, last);
        transitions.push(t);
        proof {
            let old_walk = walk;
            let old_terms = terms;
            let old_stops = stops;
            walk = walk.push(*agent);
            terms = terms.push(*termination);
            stops = stops.push(stop);
            assert forall|k: int| 0 <= k < transitions@.len() implies #[trigger] records_step(
                walk[k],
                walk[k + 1],
                terms[k],
                terms[k + 1],
                stops[k],
                transitions@[k],
            ) by {
                if k < i {
                    assert(transitions@[k] == prev[k]);
                    assert(walk[k] == old_walk[k] && walk[k + 1] == old_walk[k + 1]);
                    assert(terms[k] == old_terms[k] && terms[k + 1] == old_terms[k + 1]);
                    assert(stops[k] == old_stops[k]);
                    assert(records_step(
                        old_walk[k],
                        old_walk[k + 1],
                        old_terms[k],
                        old_terms[k + 1],
                        old_stops[k],
                        prev[k],
                    ));
                } else {
                    assert(transitions@[k] == last);
                    assert(walk[k] == agent_before && walk[k + 1] == *agent);
                    assert(terms[k] == term_before && terms[k + 1] == *termination);
                }
            }
        }
        i = i + 1;
        if done {
            break;
        }
    }
    Batch { transitions, reached_sink }
}

} // verus!
