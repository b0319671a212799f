//! Per-arm pull counters with their running total.

use vstd::prelude::*;

verus! {

/// The sum of a sequence of counters.
pub open spec fn seq_sum(s: Seq<u64>) -> int
    decreases s.len(),
{
    if s.len() == 0 {
        0
    } else {
        seq_sum(s.drop_last()) + s.last()
    }
}

/// Replacing one counter changes the sum by the difference.
pub proof fn lemma_sum_update(s: Seq<u64>, i: int, v: u64)
    requires
        0 <= i < s.len(),
    ensures
        seq_sum(s.update(i, v)) == seq_sum(s) - s[i] + v,
    decreases s.len(),
{
    let t = s.update(i, v);
    if i == s.len() - 1 {
        assert(t.drop_last() =~= s.drop_last());
    } else {
        assert(t.drop_last() =~= s.drop_last().update(i, v));
        lemma_sum_update(s.drop_last(), i, v);
    }
}

/// No counter exceeds the sum.
pub proof fn lemma_elem_le_sum(s: Seq<u64>, i: int)
    requires
        0 <= i < s.len(),
    ensures
        s[i] <= seq_sum(s),
        seq_sum(s) >= 0,
    decreases s.len(),
{
    lemma_sum_nonneg(s.drop_last());
    if i < s.len() - 1 {
        lemma_elem_le_sum(s.drop_last(), i);
    }
}

/// A sum of counters is never negative.
pub proof fn lemma_sum_nonneg(s: Seq<u64>)
    ensures
        seq_sum(s) >= 0,
    decreases s.len(),
{
    if s.len() > 0 {
        lemma_sum_nonneg(s.drop_last());
    }
}

/// Counters that are all zero sum to zero.
pub proof fn lemma_sum_zeros(s: Seq<u64>)
    requires
        forall|j: int| 0 <= j < s.len() ==> s[j] == 0,
    ensures
        seq_sum(s) == 0,
    decreases s.len(),
{
    if s.len() > 0 {
        lemma_sum_zeros(s.drop_last());
    }
}

/// A vector of `n` zero counters.
pub fn zeros(n: usize) -> (v: Vec<u64>)
    ensures
        v@ == Seq::new(n as nat, |j: int| 0u64),
{
    let mut v: Vec<u64> = Vec::new();
    let mut i: usize = 0;
    while i < n
        invariant
            i <= n,
            v@ == Seq::new(i as nat, |j: int| 0u64),
        decreases n - i,
    {
        v.push(0);
        i = i + 1;
    }
    v
}

/// Some arm has never been pulled.
pub open spec fn has_unpulled(pulls: Seq<u64>) -> bool {
    exists|j: int| 0 <= j < pulls.len() && pulls[j] == 0
}

/// `i` is the first arm that has never been pulled.
pub open spec fn is_first_unpulled(pulls: Seq<u64>, i: int) -> bool {
    &&& 0 <= i < pulls.len()
    &&& pulls[i] == 0
    &&& forall|j: int| 0 <= j < i ==> pulls[j] != 0
}

/// Only one arm is the first unpulled one.
pub proof fn lemma_first_unpulled_unique(pulls: Seq<u64>, i: int, k: int)
    requires
        is_first_unpulled(pulls, i),
        is_first_unpulled(pulls, k),
    ensures
        i == k,
{
}

/// How often each arm has been pulled, and how often in all.
#[derive(Debug, Clone)]
pub struct PullCounts {
    pulls: Vec<u64>,
    total: u64,
}

impl View for PullCounts {
    type V = Seq<u64>;

    /// The pull count of each arm.
    closed spec fn view(&self) -> Seq<u64> {
        self.pulls@
    }
}

impl PullCounts {
    /// The number of pulls recorded over all arms.
    pub closed spec fn spec_total(&self) -> u64 {
        self.total
    }

    /// At least one arm, and the running total is the sum of the arms' counts.
    pub open spec fn wf(&self) -> bool {
        &&& self@.len() > 0
        &&& self.spec_total() == seq_sum(self@)
    }

    /// Counters for `n_arms` arms, none pulled.
    pub fn new(n_arms: usize) -> (c: Self)
        requires
            n_arms > 0,
        ensures
            c.wf(),
            c@ == Seq::new(n_arms as nat, |j: int| 0u64),
            c.spec_total() == 0,
    {
        let pulls = zeros(n_arms);
        proof {
            lemma_sum_zeros(pulls@);
        }
        PullCounts { pulls, total: 0 }
    }

    /// Records one pull of `arm`.
    pub fn record(&mut self, arm: usize)
        requires
            old(self).wf(),
            arm < old(self)@.len(),
            old(self).spec_total() < u64::MAX,
        ensures
            final(self).wf(),
            final(self)@ == old(self)@.update(arm as int, (old(self)@[arm as int] + 1) as u64),
            final(self).spec_total() == old(self).spec_total() + 1,
    {
        proof {
            lemma_elem_le_sum(self.pulls@, arm as int);
            lemma_sum_update(self.pulls@, arm as int, (self.pulls@[arm as int] + 1) as u64);
        }
        let c = self.pulls[arm];
        self.pulls.set(arm, c + 1);
        self.total = self.total + 1;
    }

    /// The number of arms.
    pub fn n_arms(&self) -> (n: usize)
        ensures
            n == self@.len(),
    {
        self.pulls.len()
    }

    /// How often `arm` has been pulled.
    pub fn pulls(&self, arm: usize) -> (p: u64)
        requires
            arm < self@.len(),
        ensures
            p == self@[arm as int],
    {
        self.pulls[arm]
    }

    /// Total number of pulls across all arms.
    pub fn total(&self) -> (t: u64)
        requires
            self.wf(),
        ensures
            t == self.spec_total(),
            t == seq_sum(self@),
    {
        self.total
    }

    /// The first arm that has never been pulled, if any.
    pub fn first_unpulled(&self) -> (r: Option<usize>)
        ensures
            r is None <==> !has_unpulled(self@),
            r matches Some(i) ==> is_first_unpulled(self@, i as int),
    {
        let n = self.pulls.len();
        let mut i: usize = 0;
        while i < n
            invariant
                n == self@.len(),
                i <= n,
                forall|j: int| 0 <= j < i ==> self@[j] != 0,
            decreases n - i,
        {
            if self.pulls[i] == 0 {
                return Some(i);
            }
            i = i + 1;
        }
        None
    }
}

} // verus!
