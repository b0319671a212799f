//! The posterior state and the selection rule of the Thompson sampling agent.
//!
//! Each arm keeps a Beta(alpha, beta) posterior over its success rate, with
//! alpha = successes + 1 and beta = failures + 1, so both parameters are whole
//! numbers of at least 1. Drawing from the posteriors is floating-point work
//! done by the caller with this agent's generator; this module keeps the
//! parameters and picks the arm whose draw is greatest.

use vstd::prelude::*;
use crate::rng::{Xorshift64, xorshift64, draw_of, THOMPSON_SEED};
use crate::select::{argmax_first, is_first_max};

verus! {

/// How many observations of `arm` in `history` were successes.
pub open spec fn successes(history: Seq<(nat, bool)>, arm: nat) -> nat
    decreases history.len(),
{
    if history.len() == 0 {
        0
    } else {
        successes(history.drop_last(), arm) + if history.last() == (arm, true) {
            1nat
        } else {
            0nat
        }
    }
}

/// How many observations of `arm` in `history` were failures.
pub open spec fn failures(history: Seq<(nat, bool)>, arm: nat) -> nat
    decreases history.len(),
{
    if history.len() == 0 {
        0
    } else {
        failures(history.drop_last(), arm) + if history.last() == (arm, false) {
            1nat
        } else {
            0nat
        }
    }
}

/// A sequence of `n` ones.
pub open spec fn ones(n: nat) -> Seq<u64> {
    Seq::new(n, |j: int| 1u64)
}

/// Beta posteriors of a Thompson sampling agent, with its generator.
#[derive(Clone)]
pub struct ThompsonSampling {
    alphas: Vec<u64>,
    betas: Vec<u64>,
    rng: Xorshift64,
    history: Ghost<Seq<(nat, bool)>>,
}

impl ThompsonSampling {
    /// The alpha parameter of each arm.
    pub closed spec fn spec_alphas(&self) -> Seq<u64> {
        self.alphas@
    }

    /// The beta parameter of each arm.
    pub closed spec fn spec_betas(&self) -> Seq<u64> {
        self.betas@
    }

    /// Every observation recorded since the agent was made, oldest first: the
    /// arm and whether it was a success.
    pub closed spec fn spec_history(&self) -> Seq<(nat, bool)> {
        self.history@
    }

    /// The state of the agent's generator.
    pub closed spec fn spec_rng_state(&self) -> u64 {
        self.rng.spec_state()
    }

    /// At least one arm, one alpha and one beta per arm, and every arm's
    /// alpha is 1 + its successes and its beta 1 + its failures over the
    /// recorded history (so every parameter is at least 1).
    pub open spec fn wf(&self) -> bool {
        &&& self.spec_alphas().len() > 0
        &&& self.spec_betas().len() == self.spec_alphas().len()
        &&& forall|j: int|
            0 <= j < self.spec_alphas().len() ==> self.spec_alphas()[j] == 1 + successes(
                self.spec_history(),
                j as nat,
            )
        &&& forall|j: int|
            0 <= j < self.spec_betas().len() ==> self.spec_betas()[j] == 1 + failures(
                self.spec_history(),
                j as nat,
            )
    }

    /// An agent with `n_arms` arms, each with the uniform prior Beta(1, 1).
    pub fn new(n_arms: usize) -> (agent: Self)
        requires
            n_arms > 0,
        ensures
            agent.wf(),
            agent.spec_alphas() == ones(n_arms as nat),
            agent.spec_betas() == ones(n_arms as nat),
            agent.spec_rng_state() == THOMPSON_SEED,
            agent.spec_history() == Seq::<(nat, bool)>::empty(),
    {
        let mut alphas: Vec<u64> = Vec::new();
        let mut betas: Vec<u64> = Vec::new();
        let mut i: usize = 0;
        while i < n_arms
            invariant
                i <= n_arms,
                alphas@ == ones(i as nat),
                betas@ == ones(i as nat),
            decreases n_arms - i,
        {
            alphas.push(1);
            betas.push(1);
            i = i + 1;
        }
        ThompsonSampling {
            alphas,
            betas,
            rng: Xorshift64::new(THOMPSON_SEED),
            history: Ghost(Seq::empty()),
        }
    }

    /// Records an observation of `arm`: a success adds one to its alpha, a
    /// failure one to its beta.
    pub fn update(&mut self, arm: usize, success: bool)
        requires
            old(self).wf(),
            arm < old(self).spec_alphas().len(),
            success ==> old(self).spec_alphas()[arm as int] < u64::MAX,
            !success ==> old(self).spec_betas()[arm as int] < u64::MAX,
        ensures
            final(self).wf(),
            success ==> final(self).spec_alphas() == old(self).spec_alphas().update(
                arm as int,
                (old(self).spec_alphas()[arm as int] + 1) as u64,
            ),
            success ==> final(self).spec_betas() == old(self).spec_betas(),
            !success ==> final(self).spec_betas() == old(self).spec_betas().update(
                arm as int,
                (old(self).spec_betas()[arm as int] + 1) as u64,
            ),
            !success ==> final(self).spec_alphas() == old(self).spec_alphas(),
            final(self).spec_rng_state() == old(self).spec_rng_state(),
            final(self).spec_history() == old(self).spec_history().push((arm as nat, success)),
    {
        let ghost h = self.history@;
        let ghost h2 = h.push((arm as nat, success));
        proof {
            lemma_counts_push(h, arm as nat, success);
        }
        self.history = Ghost(h2);
        if success {
            let a = self.alphas[arm];
            self.alphas.set(arm, a + 1);
        } else {
            let b = self.betas[arm];
            self.betas.set(arm, b + 1);
        }
    }

    /// The number of arms.
    pub fn n_arms(&self) -> (n: usize)
        requires
            self.wf(),
        ensures
            n == self.spec_alphas().len(),
    {
        self.alphas.len()
    }

    /// The alpha parameter (successes + 1) of `arm`.
    pub fn alpha(&self, arm: usize) -> (a: u64)
        requires
            self.wf(),
            arm < self.spec_alphas().len(),
        ensures
            a == self.spec_alphas()[arm as int],
            a == 1 + successes(self.spec_history(), arm as nat),
    {
        self.alphas[arm]
    }

    /// The beta parameter (failures + 1) of `arm`.
    pub fn beta(&self, arm: usize) -> (b: u64)
        requires
            self.wf(),
            arm < self.spec_betas().len(),
        ensures
            b == self.spec_betas()[arm as int],
            b == 1 + failures(self.spec_history(), arm as nat),
    {
        self.betas[arm]
    }

    /// Steps the agent's generator and returns its next 63-bit draw; the
    /// posteriors are untouched.
    pub fn next_random_bits(&mut self) -> (r: u64)
        ensures
            final(self).spec_rng_state() == xorshift64(old(self).spec_rng_state()),
            r == draw_of(final(self).spec_rng_state()),
            r < 0x8000_0000_0000_0000u64,
            r == final(self).spec_rng_state() % 0x8000_0000_0000_0000u64,
            final(self).spec_alphas() == old(self).spec_alphas(),
            final(self).spec_betas() == old(self).spec_betas(),
            final(self).spec_history() == old(self).spec_history(),
    {
        self.rng.next_bits()
    }

    /// The arm whose posterior draw is greatest, the first one among equal
    /// draws. `sample_keys[i]` is the order key of the draw for arm `i`.
    pub fn select_arm(&self, sample_keys: &[u64]) -> (r: usize)
        requires
            self.wf(),
            sample_keys@.len() == self.spec_alphas().len(),
        ensures
            is_first_max(sample_keys@, r as int),
            r < self.spec_alphas().len(),
    {
        argmax_first(sample_keys)
    }
}

/// Appending an observation adds one to the successes or the failures of its
/// arm and leaves every other count as it was.
pub proof fn lemma_counts_push(history: Seq<(nat, bool)>, arm: nat, success: bool)
    ensures
        forall|j: nat|
            #[trigger] successes(history.push((arm, success)), j) == successes(history, j) + (
            if j == arm && success {
                1nat
            } else {
                0nat
            }),
        forall|j: nat|
            #[trigger] failures(history.push((arm, success)), j) == failures(history, j) + (
            if j == arm && !success {
                1nat
            } else {
                0nat
            }),
{
    assert(history.push((arm, success)).drop_last() =~= history);
}

/// The posterior law: for a well-formed agent (as every agent made by `new`
/// and changed by `update` and `next_random_bits` is), each arm's alpha is
/// 1 + its recorded successes and its beta 1 + its recorded failures, so both
/// are at least 1.
pub proof fn lemma_posterior_counts(agent: ThompsonSampling, arm: nat)
    requires
        agent.wf(),
        arm < agent.spec_alphas().len(),
    ensures
        agent.spec_alphas()[arm as int] == 1 + successes(agent.spec_history(), arm),
        agent.spec_betas()[arm as int] == 1 + failures(agent.spec_history(), arm),
        agent.spec_alphas()[arm as int] >= 1,
        agent.spec_betas()[arm as int] >= 1,
{
}

} // verus!
