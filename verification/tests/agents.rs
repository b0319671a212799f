use multi_armed_bandit::thompson::ThompsonSampling;
use multi_armed_bandit::ucb1::UCB1;
use multi_armed_bandit::order::order_key;
use multi_armed_bandit::epsilon_greedy::EpsilonGreedy;

#[test]
fn test_thompson_sampling_creation() {
    let agent = ThompsonSampling::new(3);
    assert_eq!(agent.alpha(0), 1);
    assert_eq!(agent.beta(0), 1);
}

#[test]
fn test_thompson_sampling_update() {
    let mut agent = ThompsonSampling::new(2);
    agent.update(0, true); // Success
    agent.update(0, false); // Failure
    assert_eq!(agent.alpha(0), 2);
    assert_eq!(agent.beta(0), 2);
}

#[test]
fn test_thompson_sampling_selects() {
    let mut agent = ThompsonSampling::new(3);
    // Should always return a valid arm index
    for _ in 0..100 {
        let keys = vec![
            agent.next_random_bits(),
            agent.next_random_bits(),
            agent.next_random_bits(),
        ];
        let arm = agent.select_arm(&keys);
        assert!(arm < 3);
    }
}

#[test]
fn test_ucb1_initial_exploration() {
    let mut agent = UCB1::new(3);
    // First 3 selections should be each arm once
    let mut seen = [false; 3];
    for _ in 0..3 {
        let arm = agent.select_arm(&[0, 0, 0]);
        seen[arm] = true;
        agent.update(arm);
    }
    assert!(seen.iter().all(|s| *s));
}

#[test]
fn thompson_update_touches_one_parameter_of_one_arm() {
    let mut agent = ThompsonSampling::new(3);
    agent.update(1, true);
    agent.update(1, true);
    agent.update(2, false);
    assert_eq!(agent.n_arms(), 3);
    assert_eq!((agent.alpha(0), agent.beta(0)), (1, 1));
    assert_eq!((agent.alpha(1), agent.beta(1)), (3, 1));
    assert_eq!((agent.alpha(2), agent.beta(2)), (1, 2));
}

#[test]
fn thompson_draws_come_from_its_seed() {
    let mut agent = ThompsonSampling::new(1);
    assert_eq!(agent.next_random_bits(), 0xc163a391e19);
    assert_eq!(agent.next_random_bits(), 0x1c0eb9542f03ca65);
    assert_eq!(agent.alpha(0), 1);
    assert_eq!(agent.beta(0), 1);
}

#[test]
fn thompson_ties_go_to_the_first_arm() {
    let agent = ThompsonSampling::new(4);
    assert_eq!(agent.select_arm(&[7, 9, 9, 2]), 1);
    assert_eq!(agent.select_arm(&[4, 4, 4, 4]), 0);
}

#[test]
fn ucb1_counts_every_pull() {
    let mut agent = UCB1::new(3);
    assert_eq!(agent.total_pulls(), 0);
    agent.update(2);
    agent.update(2);
    agent.update(0);
    assert_eq!(agent.n_arms(), 3);
    assert_eq!(agent.pulls(0), 1);
    assert_eq!(agent.pulls(1), 0);
    assert_eq!(agent.pulls(2), 2);
    assert_eq!(agent.total_pulls(), 3);
}

#[test]
fn ucb1_unpulled_arm_beats_any_index() {
    let mut agent = UCB1::new(3);
    agent.update(0);
    agent.update(2);
    assert_eq!(agent.first_unpulled(), Some(1));
    assert_eq!(agent.select_arm(&[u64::MAX, 0, u64::MAX]), 1);
}

#[test]
fn ucb1_after_opening_round_greatest_index_wins() {
    let mut agent = UCB1::new(3);
    for arm in 0..3 {
        assert_eq!(agent.select_arm(&[5, 5, 5]), arm);
        agent.update(arm);
    }
    assert_eq!(agent.first_unpulled(), None);
    assert_eq!(agent.select_arm(&[5, 8, 1]), 1);
    // among equal indices the last arm wins
    assert_eq!(agent.select_arm(&[8, 8, 1]), 1);
    assert_eq!(agent.select_arm(&[8, 8, 8]), 2);
}

#[test]
fn epsilon_greedy_counts_and_best_arm() {
    let mut agent = EpsilonGreedy::new(5);
    assert_eq!(agent.n_arms(), 5);
    agent.update(3);
    agent.update(3);
    agent.update(0);
    assert_eq!(agent.pulls(3), 2);
    assert_eq!(agent.pulls(0), 1);
    assert_eq!(agent.pulls(1), 0);
    assert_eq!(agent.total_pulls(), 3);
    assert_eq!(agent.best_arm(&[1, 9, 4, 9, 0]), 3);
}

#[test]
fn epsilon_greedy_draws_come_from_its_seed() {
    let mut agent = EpsilonGreedy::new(2);
    assert_eq!(agent.next_random_bits(), 0xa95514aaa);
    assert_eq!(agent.next_random_bits(), 0x200aaafdf80202bf);
    assert_eq!(agent.total_pulls(), 0);
}

#[test]
fn thompson_parameters_follow_the_history() {
    let mut agent = ThompsonSampling::new(2);
    let history = [(0, true), (1, false), (0, true), (0, false), (1, false), (1, true)];
    for &(arm, success) in history.iter() {
        agent.update(arm, success);
    }
    // arm 0: two successes, one failure; arm 1: one success, two failures
    assert_eq!((agent.alpha(0), agent.beta(0)), (3, 2));
    assert_eq!((agent.alpha(1), agent.beta(1)), (2, 3));
}

#[test]
fn test_epsilon_greedy_creation() {
    let agent = EpsilonGreedy::new(5);
    assert_eq!(agent.n_arms(), 5);
}

#[test]
fn test_epsilon_greedy_best_arm() {
    let mut agent = EpsilonGreedy::new(3);
    agent.update(0);
    agent.update(1);
    agent.update(2);
    // one pull each, with rewards 0.2, 0.8 and 0.5: the means are the rewards
    let keys: Vec<u64> = [0.2f64, 0.8, 0.5].iter().map(|m| order_key(m.to_bits())).collect();
    assert_eq!(agent.best_arm(&keys), 1);
}
