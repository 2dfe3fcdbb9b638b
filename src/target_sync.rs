//! The online network and its target snapshot.
//!
//! Gradients only ever reach the online network; the target network changes
//! only by being replaced with a copy of the online one, so it supplies stable
//! values while the online network is being trained, and answers queries
//! between training steps.
use vstd::prelude::*;

verus! {

/// An online network and the target network copied from it.
pub struct NetworkPair<N> {
    /// The network that gradient steps update.
    pub online: N,
    /// The frozen copy that supplies regression targets and answers queries.
    pub target: N,
}

impl<N: Clone> NetworkPair<N> {
    /// A pair whose target is a copy of the freshly built online network.
    pub fn new(online: N) -> (r: Self)
        ensures
            r.online == online,
            cloned(online, r.target),
    {
        let target = online.clone();
        NetworkPair { online, target }
    }

    /// Replaces the target network with a copy of the online one.
    pub fn sync_target(&mut self)
        ensures
            final(self).online == old(self).online,
            cloned(final(self).online, final(self).target),
    {
        self.target = self.online.clone();
    }

    /// A copy of the online network, to be saved or used elsewhere.
    pub fn export_model(&self) -> (r: N)
        ensures
            cloned(self.online, r),
    {
        self.online.clone()
    }

    /// Replaces all learned progress with `model`: it becomes the online
    /// network, and the target network is a copy of it.
    pub fn import_model(&mut self, model: N)
        ensures
            final(self).online == model,
            cloned(model, final(self).target),
    {
        self.online = model;
        self.sync_target();
    }
}

/// Cloning a value of `N` gives back an equal value.
pub open spec fn clone_is_exact<N: Clone>() -> bool {
    forall|a: N, b: N| #[trigger] cloned(a, b) ==> a == b
}

/// Round trip: exporting the online network and importing it again, on a pair
/// whose target is a copy of its online network, leaves both networks as they
/// were, when cloning a network copies it exactly. What the pair answers is
/// then unchanged.
pub proof fn import_of_export_changes_nothing<N: Clone>(
    before: NetworkPair<N>,
    exported: N,
    after: NetworkPair<N>,
)
    requires
        clone_is_exact::<N>(),
        cloned(before.online, before.target),
        cloned(before.online, exported),
        after.online == exported,
        cloned(exported, after.target),
    ensures
        after.online == before.online,
        after.target == before.target,
{
}

/// Right after an import, the online and the target network are the same
/// network, when cloning a network copies it exactly.
pub proof fn import_makes_networks_agree<N: Clone>(model: N, after: NetworkPair<N>)
    requires
        clone_is_exact::<N>(),
        after.online == model,
        cloned(model, after.target),
    ensures
        after.online == after.target,
{
}

} // verus!
