//! The integer state and the selection rule of the UCB1 agent.
//!
//! UCB1 scores arm `i` by `mean(i) + sqrt(2 ln(t) / n_i)`. The scores are
//! floating-point and computed by the caller; this module keeps the pull
//! counts and decides which arm is played.

use vstd::prelude::*;
use crate::counts::{seq_sum, has_unpulled, is_first_unpulled, PullCounts};
use crate::select::{argmax_last, is_last_max};

verus! {

/// Pull counts of a UCB1 agent.
#[derive(Debug, Clone)]
pub struct UCB1 {
    counts: PullCounts,
}

impl View for UCB1 {
    type V = Seq<u64>;

    /// The pull count of each arm.
    closed spec fn view(&self) -> Seq<u64> {
        self.counts@
    }
}

impl UCB1 {
    /// The number of pulls recorded over all arms.
    pub closed spec fn spec_total_pulls(&self) -> u64 {
        self.counts.spec_total()
    }

    /// At least one arm, and the running total is the sum of the arms' counts.
    pub open spec fn wf(&self) -> bool {
        &&& self@.len() > 0
        &&& self.spec_total_pulls() == seq_sum(self@)
    }

    /// An agent with `n_arms` arms, none pulled.
    pub fn new(n_arms: usize) -> (agent: Self)
        requires
            n_arms > 0,
        ensures
            agent.wf(),
            agent@ == Seq::new(n_arms as nat, |j: int| 0u64),
            agent.spec_total_pulls() == 0,
    {
        UCB1 { counts: PullCounts::new(n_arms) }
    }

    /// Records one pull of `arm`.
    pub fn update(&mut self, arm: usize)
        requires
            old(self).wf(),
            arm < old(self)@.len(),
            old(self).spec_total_pulls() < u64::MAX,
        ensures
            final(self).wf(),
            final(self)@ == old(self)@.update(arm as int, (old(self)@[arm as int] + 1) as u64),
            final(self).spec_total_pulls() == old(self).spec_total_pulls() + 1,
    {
        self.counts.record(arm);
    }

    /// The number of arms.
    pub fn n_arms(&self) -> (n: usize)
        ensures
            n == self@.len(),
    {
        self.counts.n_arms()
    }

    /// How often `arm` has been pulled.
    pub fn pulls(&self, arm: usize) -> (p: u64)
        requires
            arm < self@.len(),
        ensures
            p == self@[arm as int],
    {
        self.counts.pulls(arm)
    }

    /// Total number of pulls across all arms.
    pub fn total_pulls(&self) -> (t: u64)
        requires
            self.wf(),
        ensures
            t == self.spec_total_pulls(),
            t == seq_sum(self@),
    {
        self.counts.total()
    }

    /// The first arm that has never been pulled, if any.
    pub fn first_unpulled(&self) -> (r: Option<usize>)
        ensures
            r is None <==> !has_unpulled(self@),
            r matches Some(i) ==> is_first_unpulled(self@, i as int),
    {
        self.counts.first_unpulled()
    }

    /// The arm to play. An arm never pulled comes first (the first such arm),
    /// so every arm is tried once; after that the arm with the greatest index
    /// key wins, the last one among equal keys. `index_keys[i]` is the order
    /// key of arm `i`'s UCB1 index.
    pub fn select_arm(&self, index_keys: &[u64]) -> (r: usize)
        requires
            self.wf(),
            index_keys@.len() == self@.len(),
        ensures
            has_unpulled(self@) ==> is_first_unpulled(self@, r as int),
            !has_unpulled(self@) ==> is_last_max(index_keys@, r as int),
            is_first_unpulled(self@, r as int) || (!has_unpulled(self@) && is_last_max(
                index_keys@,
                r as int,
            )),
    {
        match self.first_unpulled() {
            Some(i) => i,
            None => argmax_last(index_keys),
        }
    }
}

/// After the first `k` selections of a fresh agent, each followed by an update
/// of the selected arm, arms `0..k` have one pull each and the rest none.
pub open spec fn first_k_pulled_once(pulls: Seq<u64>, k: int) -> bool {
    forall|j: int| 0 <= j < pulls.len() ==> pulls[j] == (if j < k { 1u64 } else { 0u64 })
}

/// The opening round: while some arm is unpulled and arms `0..k` have one pull
/// each, the agent selects arm `k`, and updating it extends the round to
/// `k + 1`. So the first `n` selections of a fresh `n`-armed agent are the
/// arms `0, 1, ..., n - 1`, each once, whatever the rewards.
pub proof fn lemma_opening_round(pulls: Seq<u64>, k: int)
    requires
        0 <= k < pulls.len(),
        first_k_pulled_once(pulls, k),
    ensures
        has_unpulled(pulls),
        is_first_unpulled(pulls, k),
        first_k_pulled_once(pulls.update(k, (pulls[k] + 1) as u64), k + 1),
{
    assert(pulls[k] == 0);
}

} // verus!
