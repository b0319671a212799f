//! Picking an arm by a score. Scores are compared as unsigned keys (see
//! `order`), so the rules below are exact integer statements.

use vstd::prelude::*;

verus! {

/// `i` holds a greatest key, and every later key is strictly smaller: `i` is
/// the last position of the maximum.
pub open spec fn is_last_max(keys: Seq<u64>, i: int) -> bool {
    &&& 0 <= i < keys.len()
    &&& forall|j: int| 0 <= j < keys.len() ==> keys[j] <= keys[i]
    &&& forall|j: int| i < j < keys.len() ==> keys[j] < keys[i]
}

/// `i` holds a greatest key, and every earlier key is strictly smaller: `i` is
/// the first position of the maximum.
pub open spec fn is_first_max(keys: Seq<u64>, i: int) -> bool {
    &&& 0 <= i < keys.len()
    &&& forall|j: int| 0 <= j < keys.len() ==> keys[j] <= keys[i]
    &&& forall|j: int| 0 <= j < i ==> keys[j] < keys[i]
}

/// The position of the greatest key; among equal greatest keys the last one
/// wins. An empty slice gives 0.
pub fn argmax_last(keys: &[u64]) -> (r: usize)
    ensures
        keys@.len() == 0 ==> r == 0,
        keys@.len() > 0 ==> is_last_max(keys@, r as int),
{
    let n = keys.len();
    if n == 0 {
        return 0;
    }
    let mut best: usize = 0;
    let mut i: usize = 1;
    while i < n
        invariant
            n == keys@.len(),
            0 < i <= n,
            best < i,
            forall|j: int| 0 <= j < i ==> keys@[j] <= keys@[best as int],
            forall|j: int| best < j < i ==> keys@[j] < keys@[best as int],
        decreases n - i,
    {
        if keys[i] >= keys[best] {
            best = i;
        }
        i = i + 1;
    }
    best
}

/// The position of the greatest key; among equal greatest keys the first one
/// wins.
pub fn argmax_first(keys: &[u64]) -> (r: usize)
    requires
        keys@.len() > 0,
    ensures
        is_first_max(keys@, r as int),
{
    let n = keys.len();
    let mut best: usize = 0;
    let mut i: usize = 1;
    while i < n
        invariant
            n == keys@.len(),
            0 < i <= n,
            best < i,
            forall|j: int| 0 <= j < i ==> keys@[j] <= keys@[best as int],
            forall|j: int| 0 <= j < best ==> keys@[j] < keys@[best as int],
        decreases n - i,
    {
        if keys[i] > keys[best] {
            best = i;
        }
        i = i + 1;
    }
    best
}

/// At most one position is the last maximum, so `argmax_last` is pinned down.
pub proof fn lemma_last_max_unique(keys: Seq<u64>, i: int, k: int)
    requires
        is_last_max(keys, i),
        is_last_max(keys, k),
    ensures
        i == k,
{
    assert(keys[i] <= keys[k] && keys[k] <= keys[i]);
}

/// At most one position is the first maximum, so `argmax_first` is pinned
/// down.
pub proof fn lemma_first_max_unique(keys: Seq<u64>, i: int, k: int)
    requires
        is_first_max(keys, i),
        is_first_max(keys, k),
    ensures
        i == k,
{
    assert(keys[i] <= keys[k] && keys[k] <= keys[i]);
}

} // verus!
