# multi_armed_bandit

Multi-armed bandit agents (epsilon-greedy, UCB1, Thompson sampling), a
simulated Bernoulli environment and a regret tracker.

- `src/` is the verified core, checked by Verus:
  - `rng`: the xorshift64 generator and the seeds of the agents; a nonzero
    state never steps to zero, and the step is a permutation.
  - `order`: unsigned order keys for binary64 bit patterns, so that scores are
    compared as integers.
  - `select`: the two argmax rules (last or first position of the maximum).
  - `counts`: per-arm pull counters whose running total is always their sum.
  - `epsilon_greedy`: the pull counts and generator of the epsilon-greedy
    agent, and its best-arm rule.
  - `ucb1`: UCB1 pull counts and the rule that plays every unpulled arm before ranking by index.
  - `thompson`: the Beta posterior parameters of Thompson sampling (alpha is
    1 + successes and beta 1 + failures over the recorded history) and the rule that plays the first greatest draw.
- `app/` wraps the core with the floating-point parts: rewards, means, the
  UCB1 index, the Beta and gamma samplers, the environment's probabilities
  and the regret statistics.
- `tests/` runs the core on concrete values.
