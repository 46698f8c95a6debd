use zebra_signal::generator::counter::Counter;
use zebra_signal::generator::linear_congruential_generator::{
    distinct_multiplier, NotRepeatableLinearCongruentialGenerator,
};
use zebra_signal::generator::Generator;

#[test]
fn test_linear_congruential_generator() {
    let mut generator = NotRepeatableLinearCongruentialGenerator {
        state: 0,
        increment: 1,
        multiplier: 1,
        modulus: 3,
        counter: 0,
    };

    assert_eq!(generator.next(), Some(0));
    assert_eq!(generator.next(), Some(1));
    assert_eq!(generator.next(), Some(2));

    assert_ne!(generator.state, 0);
    assert_ne!(generator.increment, 1);
    assert_ne!(generator.multiplier, 1);
    assert_ne!(generator.modulus, 3);
    assert_eq!(generator.counter, 0);
}

#[test]
fn lcg_fourth_value_comes_from_new_parameters() {
    let mut generator = NotRepeatableLinearCongruentialGenerator {
        state: 0,
        increment: 1,
        multiplier: 1,
        modulus: 3,
        counter: 0,
    };
    assert_eq!(generator.next(), Some(0));
    assert_eq!(generator.counter, 1);
    assert_eq!(generator.next(), Some(1));
    assert_eq!(generator.counter, 2);
    assert_eq!(generator.next(), Some(2));
    assert_eq!(generator.counter, 0);
    assert_ne!(generator.multiplier, 1);
    assert!(generator.modulus > 0);
    assert!(generator.state < generator.modulus);

    let reseeded = generator;
    let fourth = generator.next();
    assert_eq!(fourth, Some(reseeded.state));
    if reseeded.modulus != 1 {
        assert_eq!(generator.counter, 1);
        assert_eq!(generator.multiplier, reseeded.multiplier);
        assert_eq!(generator.increment, reseeded.increment);
        assert_eq!(generator.modulus, reseeded.modulus);
    }
}

#[test]
fn lcg_steps_without_reseed_keep_the_parameters() {
    let mut generator = NotRepeatableLinearCongruentialGenerator {
        state: 3,
        increment: 5,
        multiplier: 7,
        modulus: 11,
        counter: 0,
    };
    // 3 -> (7 * 3 + 5) % 11 = 4 -> (7 * 4 + 5) % 11 = 0 -> 5
    assert_eq!(generator.next(), Some(3));
    assert_eq!(generator.state, 4);
    assert_eq!(generator.next(), Some(4));
    assert_eq!(generator.state, 0);
    assert_eq!(generator.next(), Some(0));
    assert_eq!(generator.state, 5);
    assert_eq!(generator.counter, 3);
    assert_eq!(generator.increment, 5);
    assert_eq!(generator.multiplier, 7);
    assert_eq!(generator.modulus, 11);
}

#[test]
fn lcg_first_value_is_the_given_state_even_above_the_modulus() {
    let mut generator = NotRepeatableLinearCongruentialGenerator {
        state: 100,
        increment: 0,
        multiplier: 1,
        modulus: 7,
        counter: 0,
    };
    assert_eq!(generator.next(), Some(100));
    assert_eq!(generator.state, 2);
}

#[test]
fn lcg_next_state_is_exact_for_large_products() {
    let generator = NotRepeatableLinearCongruentialGenerator {
        state: 65_536,
        increment: 7,
        multiplier: 65_536,
        modulus: 1_000,
        counter: 0,
    };
    // 65536 * 65536 + 7 = 4294967303
    assert_eq!(generator.next_state(), 303);

    let largest = NotRepeatableLinearCongruentialGenerator {
        state: u32::MAX,
        increment: u32::MAX,
        multiplier: u32::MAX,
        modulus: u32::MAX,
        counter: 0,
    };
    // (m * m + m) % m = 0
    assert_eq!(largest.next_state(), 0);

    let unit = NotRepeatableLinearCongruentialGenerator {
        state: 12,
        increment: 34,
        multiplier: 56,
        modulus: 1,
        counter: 0,
    };
    assert_eq!(unit.next_state(), 0);
}

#[test]
fn lcg_with_modulus_one_reseeds_on_every_value() {
    let mut generator = NotRepeatableLinearCongruentialGenerator {
        state: 9,
        increment: 0,
        multiplier: 4,
        modulus: 1,
        counter: 0,
    };
    assert_eq!(generator.next(), Some(9));
    assert_eq!(generator.counter, 0);
    assert_ne!(generator.multiplier, 4);
    assert!(generator.modulus > 0);
}

#[test]
fn distinct_multiplier_skips_the_previous_one() {
    assert_eq!(distinct_multiplier(5, 4), 4);
    assert_eq!(distinct_multiplier(5, 5), 6);
    assert_eq!(distinct_multiplier(5, 6), 7);
    assert_eq!(distinct_multiplier(0, 0), 1);
    assert_eq!(distinct_multiplier(u32::MAX, 0), 0);
    assert_eq!(distinct_multiplier(u32::MAX, u32::MAX - 1), u32::MAX - 1);
    assert_eq!(distinct_multiplier(7, u32::MAX - 1), u32::MAX);
}

#[test]
fn reseed_installs_the_parameters_and_resets_the_counter() {
    let mut generator = NotRepeatableLinearCongruentialGenerator {
        state: 1,
        increment: 2,
        multiplier: 30,
        modulus: 40,
        counter: 17,
    };
    generator.reseed(10, 20, 29, 50);
    assert_eq!(generator.state, 10);
    assert_eq!(generator.increment, 20);
    assert_eq!(generator.multiplier, 29);
    assert_eq!(generator.modulus, 50);
    assert_eq!(generator.counter, 0);
}

#[test]
fn reseed_never_keeps_the_multiplier() {
    let mut generator = NotRepeatableLinearCongruentialGenerator {
        state: 1,
        increment: 2,
        multiplier: 30,
        modulus: 40,
        counter: 17,
    };
    generator.reseed(0, 0, 30, 1);
    assert_eq!(generator.multiplier, 31);
    generator.reseed(0, 0, 31, 1);
    assert_eq!(generator.multiplier, 32);
    generator.reseed(0, 0, u32::MAX - 1, 1);
    assert_eq!(generator.multiplier, u32::MAX);
    generator.reseed(0, 0, u32::MAX - 1, 1);
    assert_eq!(generator.multiplier, u32::MAX - 1);
    generator.reseed(0, 0, 0, 1);
    assert_eq!(generator.multiplier, 0);
    generator.reseed(0, 0, 0, 1);
    assert_eq!(generator.multiplier, 1);
}

#[test]
fn randomize_changes_the_multiplier_every_time() {
    let mut generator = NotRepeatableLinearCongruentialGenerator {
        state: 0,
        increment: 0,
        multiplier: 0,
        modulus: 1,
        counter: 0,
    };
    let mut states_seen = Vec::new();
    let mut moduli_seen = Vec::new();
    for _ in 0..64 {
        let previous = generator.multiplier;
        generator.counter = 5;
        generator.randomize();
        assert_ne!(generator.multiplier, previous);
        assert!(generator.modulus > 0);
        assert_eq!(generator.counter, 0);
        states_seen.push(generator.state);
        moduli_seen.push(generator.modulus);
    }
    // Draws that were the same 64 times over would not be draws.
    assert!(states_seen.iter().any(|state| *state != states_seen[0]));
    assert!(moduli_seen.iter().any(|modulus| *modulus != moduli_seen[0]));
}

#[test]
fn new_random_lcg_starts_counting_at_zero() {
    for _ in 0..32 {
        let mut generator = NotRepeatableLinearCongruentialGenerator::new_random();
        assert_eq!(generator.counter, 0);
        assert_ne!(generator.multiplier, 0);
        assert!(generator.modulus > 0);
        let state = generator.state;
        assert_eq!(generator.next(), Some(state));
    }
}

#[test]
fn lcg_never_runs_dry() {
    let mut generator = NotRepeatableLinearCongruentialGenerator {
        state: 0,
        increment: 1,
        multiplier: 1,
        modulus: 2,
        counter: 0,
    };
    for _ in 0..10_000 {
        assert!(generator.next().is_some());
        assert!(generator.modulus > 0);
        assert!(generator.counter < generator.modulus);
    }
}

#[test]
fn counter_emits_zero_and_one_and_is_exhausted() {
    let mut counter = Counter::new_random();
    assert_eq!(counter.count, 0);
    assert_eq!(counter.modulus, 2);
    assert_eq!(counter.next(), Some(0));
    assert_eq!(counter.next(), Some(1));
    assert_eq!(counter.next(), None);
    assert_eq!(counter.next(), None);
    assert_eq!(counter.count, 2);
    assert_eq!(counter.modulus, 2);
}

#[test]
fn counter_counts_up_to_its_modulus() {
    let mut counter = Counter { count: 3, modulus: 6 };
    assert_eq!(counter.next(), Some(3));
    assert_eq!(counter.next(), Some(4));
    assert_eq!(counter.next(), Some(5));
    assert_eq!(counter.next(), None);

    let mut full = Counter { count: u32::MAX - 1, modulus: u32::MAX };
    assert_eq!(full.next(), Some(u32::MAX - 1));
    assert_eq!(full.next(), None);

    let mut empty = Counter { count: 0, modulus: 0 };
    assert_eq!(empty.next(), None);
}
