use multi_armed_bandit::order::order_key;
use multi_armed_bandit::rng::{Xorshift64, ENVIRONMENT_SEED, EPSILON_GREEDY_SEED};
use multi_armed_bandit::select::{argmax_first, argmax_last};

fn key(x: f64) -> u64 {
    order_key(x.to_bits())
}

#[test]
fn xorshift_steps_from_the_seed() {
    let mut g = Xorshift64::new(EPSILON_GREEDY_SEED);
    assert_eq!(g.state(), 42);
    assert_eq!(g.next_bits(), 0xa95514aaa);
    assert_eq!(g.state(), 0xa95514aaa);
    // the second state has its top bit set; the draw drops it
    assert_eq!(g.next_bits(), 0x200aaafdf80202bf);
    assert_eq!(g.state(), 0xa00aaafdf80202bf);
}

#[test]
fn xorshift_environment_seed() {
    let mut g = Xorshift64::new(ENVIRONMENT_SEED);
    assert_eq!(g.next_bits(), 0x60b09344518e);
    assert_eq!(g.next_bits(), 0x30750cb35c1d7aad);
}

#[test]
fn xorshift_nonzero_state_stays_nonzero() {
    let mut g = Xorshift64::new(1);
    for _ in 0..10_000 {
        let r = g.next_bits();
        assert_ne!(g.state(), 0);
        assert!(r < 1u64 << 63);
    }
}

#[test]
fn xorshift_zero_state_is_fixed() {
    let mut g = Xorshift64::new(0);
    assert_eq!(g.next_bits(), 0);
    assert_eq!(g.state(), 0);
}

#[test]
fn order_key_exact_values() {
    assert_eq!(order_key(0), 0x8000_0000_0000_0000);
    assert_eq!(order_key(0x3FF0_0000_0000_0000), 0xBFF0_0000_0000_0000);
    assert_eq!(order_key(0xBFF0_0000_0000_0000), 0x400F_FFFF_FFFF_FFFF);
    assert_eq!(order_key(u64::MAX), 0);
}

#[test]
fn order_key_follows_float_order() {
    let values = [
        f64::NEG_INFINITY,
        -2.0,
        -1.0,
        -0.5,
        -1e-300,
        0.0,
        1e-300,
        0.5,
        2.0 / 3.0,
        1.0,
        2.0,
        f64::INFINITY,
    ];
    for i in 0..values.len() {
        for j in 0..values.len() {
            assert_eq!(values[i] < values[j], key(values[i]) < key(values[j]));
        }
    }
}

#[test]
fn argmax_last_prefers_the_last_tie() {
    assert_eq!(argmax_last(&[3, 5, 5, 1]), 2);
    assert_eq!(argmax_last(&[9, 5, 5, 1]), 0);
    assert_eq!(argmax_last(&[1]), 0);
    assert_eq!(argmax_last(&[]), 0);
}

#[test]
fn argmax_first_prefers_the_first_tie() {
    assert_eq!(argmax_first(&[3, 5, 5, 1]), 1);
    assert_eq!(argmax_first(&[1, 2, 3, 4]), 3);
    assert_eq!(argmax_first(&[1]), 0);
}

#[test]
fn best_mean_is_found_through_keys() {
    // means 0.2, 0.8, 0.5: the second arm is best
    assert_eq!(argmax_last(&[key(0.2), key(0.8), key(0.5)]), 1);
    // means 0.3, 0.7, 0.5
    assert_eq!(argmax_last(&[key(0.3), key(0.7), key(0.5)]), 1);
    // negative means still order correctly
    assert_eq!(argmax_last(&[key(-0.3), key(-0.7), key(-0.1)]), 2);
}
