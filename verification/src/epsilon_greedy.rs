//! The integer state and the exploiting rule of the epsilon-greedy agent.
//!
//! With probability epsilon the agent explores a random arm, otherwise it
//! plays the arm with the highest empirical mean. Means and epsilon are
//! floating-point and handled by the caller; this module keeps the pull counts
//! and the generator, and picks the best arm from the order keys of the means.

use vstd::prelude::*;
use crate::counts::{seq_sum, PullCounts};
use crate::rng::{Xorshift64, xorshift64, draw_of, EPSILON_GREEDY_SEED};
use crate::select::{argmax_last, is_last_max};

verus! {

/// Pull counts and generator of an epsilon-greedy agent.
#[derive(Debug, Clone)]
pub struct EpsilonGreedy {
    counts: PullCounts,
    rng: Xorshift64,
}

impl View for EpsilonGreedy {
    type V = Seq<u64>;

    /// The pull count of each arm.
    closed spec fn view(&self) -> Seq<u64> {
        self.counts@
    }
}

impl EpsilonGreedy {
    /// The number of pulls recorded over all arms.
    pub closed spec fn spec_total_pulls(&self) -> u64 {
        self.counts.spec_total()
    }

    /// The state of the agent's generator.
    pub closed spec fn spec_rng_state(&self) -> u64 {
        self.rng.spec_state()
    }

    /// At least one arm, and the running total is the sum of the arms' counts.
    pub open spec fn wf(&self) -> bool {
        &&& self@.len() > 0
        &&& self.spec_total_pulls() == seq_sum(self@)
    }

    /// An agent with `n_arms` arms, none pulled.
    pub fn new(n_arms: usize) -> (agent: Self)
        requires
            n_arms > 0,
        ensures
            agent.wf(),
            agent@ == Seq::new(n_arms as nat, |j: int| 0u64),
            agent.spec_total_pulls() == 0,
            agent.spec_rng_state() == EPSILON_GREEDY_SEED,
    {
        EpsilonGreedy { counts: PullCounts::new(n_arms), rng: Xorshift64::new(EPSILON_GREEDY_SEED) }
    }

    /// Records one pull of `arm`; the generator is untouched.
    pub fn update(&mut self, arm: usize)
        requires
            old(self).wf(),
            arm < old(self)@.len(),
            old(self).spec_total_pulls() < u64::MAX,
        ensures
            final(self).wf(),
            final(self)@ == old(self)@.update(arm as int, (old(self)@[arm as int] + 1) as u64),
            final(self).spec_total_pulls() == old(self).spec_total_pulls() + 1,
            final(self).spec_rng_state() == old(self).spec_rng_state(),
    {
        self.counts.record(arm);
    }

    /// The number of arms.
    pub fn n_arms(&self) -> (n: usize)
        ensures
            n == self@.len(),
    {
        self.counts.n_arms()
    }

    /// How often `arm` has been pulled.
    pub fn pulls(&self, arm: usize) -> (p: u64)
        requires
            arm < self@.len(),
        ensures
            p == self@[arm as int],
    {
        self.counts.pulls(arm)
    }

    /// Total number of pulls across all arms.
    pub fn total_pulls(&self) -> (t: u64)
        requires
            self.wf(),
        ensures
            t == self.spec_total_pulls(),
            t == seq_sum(self@),
    {
        self.counts.total()
    }

    /// Steps the agent's generator and returns its next 63-bit draw; the
    /// counts are untouched.
    pub fn next_random_bits(&mut self) -> (r: u64)
        ensures
            final(self).spec_rng_state() == xorshift64(old(self).spec_rng_state()),
            r == draw_of(final(self).spec_rng_state()),
            r < 0x8000_0000_0000_0000u64,
            r == final(self).spec_rng_state() % 0x8000_0000_0000_0000u64,
            final(self)@ == old(self)@,
            final(self).spec_total_pulls() == old(self).spec_total_pulls(),
    {
        self.rng.next_bits()
    }

    /// The arm with the highest mean, the last one among equal means.
    /// `mean_keys[i]` is the order key of arm `i`'s empirical mean.
    pub fn best_arm(&self, mean_keys: &[u64]) -> (r: usize)
        requires
            self.wf(),
            mean_keys@.len() == self@.len(),
        ensures
            is_last_max(mean_keys@, r as int),
            r < self@.len(),
    {
        argmax_last(mean_keys)
    }
}

} // verus!
