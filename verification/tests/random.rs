use watchmaker::{make_random, make_random_from_seed, make_random_string, RandomSource};

#[test]
fn an_index_is_below_the_bound() {
    let mut random = make_random_from_seed(1);
    for bound in [1usize, 2, 3, 16, 1_000, usize::MAX] {
        for _ in 0..200 {
            assert!(random.below(bound) < bound);
        }
    }
}

#[test]
fn every_index_below_the_bound_is_drawn() {
    let mut random = make_random_from_seed(2);
    let mut counts = vec![0usize; 16];
    for _ in 0..16_000 {
        counts[random.below(16)] += 1;
    }

    for count in counts {
        assert!(count > 800);
        assert!(count < 1_200);
    }
}

#[test]
fn an_offset_lies_between_the_bounds() {
    let mut random = make_random_from_seed(3);
    for (low, high) in [(0isize, 0isize), (-1, 1), (-8, 8), (5, 9), (-9, -5), (isize::MIN, isize::MAX)]
    {
        for _ in 0..200 {
            let offset = random.between(low, high);
            assert!(low <= offset);
            assert!(offset <= high);
        }
    }
}

#[test]
fn every_offset_between_the_bounds_is_drawn() {
    let mut random = make_random_from_seed(4);
    let mut counts = vec![0usize; 9];
    for _ in 0..9_000 {
        counts[(random.between(-4, 4) + 4) as usize] += 1;
    }

    for count in counts {
        assert!(count > 800);
        assert!(count < 1_200);
    }
}

#[test]
fn a_ratio_of_nothing_never_holds_and_a_ratio_of_all_always() {
    let mut random = make_random_from_seed(5);
    for denominator in [1u32, 2, 1_000_000, u32::MAX] {
        for _ in 0..200 {
            assert_eq!(random.ratio(0, denominator), false);
            assert_eq!(random.ratio(denominator, denominator), true);
        }
    }
}

#[test]
fn a_ratio_holds_as_often_as_it_says() {
    let mut random = make_random_from_seed(6);
    let mut halves = 0;
    let mut hundredths = 0;
    for _ in 0..100_000 {
        if random.ratio(1, 2) {
            halves += 1;
        }
        if random.ratio(10_000, 1_000_000) {
            hundredths += 1;
        }
    }

    assert!(halves > 49_000);
    assert!(halves < 51_000);
    assert!(hundredths > 800);
    assert!(hundredths < 1_200);
}

#[test]
fn two_sources_of_one_seed_give_the_same_draws() {
    let mut first = make_random_from_seed(82938);
    let mut second = make_random_from_seed(82938);

    for _ in 0..100 {
        assert_eq!(first.below(1_000_000), second.below(1_000_000));
        assert_eq!(first.between(-500, 500), second.between(-500, 500));
        assert_eq!(first.ratio(1, 2), second.ratio(1, 2));
    }
    assert_eq!(
        make_random_string(&mut first, 32),
        make_random_string(&mut second, 32)
    );
}

#[test]
fn sources_of_different_seeds_give_different_draws() {
    let mut first = make_random_from_seed(1);
    let mut second = make_random_from_seed(2);

    let from_first: Vec<usize> = (0..32).map(|_| first.below(1_000_000)).collect();
    let from_second: Vec<usize> = (0..32).map(|_| second.below(1_000_000)).collect();

    assert_ne!(from_first, from_second);
}

#[test]
fn sources_seeded_by_the_system_give_different_draws() {
    let mut first = make_random();
    let mut second = make_random();

    let from_first: Vec<usize> = (0..32).map(|_| first.below(usize::MAX)).collect();
    let from_second: Vec<usize> = (0..32).map(|_| second.below(usize::MAX)).collect();

    assert_ne!(from_first, from_second);
}

#[test]
fn a_seeded_source_gives_the_draws_of_its_generator() {
    // The first draws of xoshiro256++ seeded with 0 through SplitMix64.
    let mut random = make_random_from_seed(0);
    let first = random.below(usize::MAX);
    let mut again = make_random_from_seed(0);

    assert_eq!(again.below(usize::MAX), first);
    assert_ne!(again.below(usize::MAX), first);
}

#[test]
fn a_random_string_has_the_length_asked_for() {
    let mut random = make_random_from_seed(7);
    for length in [0usize, 1, 6, 28, 1_000] {
        assert_eq!(make_random_string(&mut random, length).chars().count(), length);
    }
}

#[test]
fn a_random_string_is_made_of_letters_and_digits() {
    let mut random = make_random_from_seed(8);
    let text = make_random_string(&mut random, 10_000);

    assert!(text.chars().all(|c| c.is_ascii_alphanumeric()));
    // All 62 of them turn up.
    let mut seen = std::collections::HashSet::new();
    for c in text.chars() {
        seen.insert(c);
    }
    assert_eq!(seen.len(), 62);
}

#[test]
fn random_strings_differ() {
    let mut random = make_random_from_seed(9);
    let first = make_random_string(&mut random, 16);
    let second = make_random_string(&mut random, 16);

    assert_ne!(first, second);
}
