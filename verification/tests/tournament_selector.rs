use std::collections::HashMap;
use watchmaker::{
    make_random_from_seed, make_vec, tournament, Failure, Selector, TournamentSelector,
};

fn assert_between(value: usize, lower: usize, upper: usize) {
    if !(lower <= upper) {
        panic!(
            "error in assert_between: lower bound {} should be less than or equal to upper bound {}",
            lower, upper
        );
    }
    if !(value >= lower && value <= upper) {
        panic!(
            "lhs value {} should be between {} and {} (inclusive)",
            value, lower, upper
        );
    }
}

#[derive(Clone, Debug, PartialEq)]
pub struct PeakGenome(pub f64);

#[test]
fn tournament_selector_fails_when_cross_over_candidates_too_low() {
    let result: Result<TournamentSelector<PeakGenome>, Failure> = TournamentSelector::new(0);

    assert_eq!(result.is_err(), true);
    assert_eq!(result.err().unwrap(), Failure::cross_over_candidates());
}

#[test]
fn tournament_selector_when_costs_are_uniform_all_candidates_are_selected_evenly() {
    const ITERATIONS: usize = 4_096;
    const DELTA: usize = ITERATIONS / 10;

    let mut random = make_random_from_seed(82938);
    let mut s: TournamentSelector<u8> = TournamentSelector::new(4).unwrap();
    let population = make_vec(16, || 0);
    let costs = make_vec(16, || 0);

    let mut results: HashMap<usize, usize> = HashMap::new();
    for _ in 0..ITERATIONS {
        let mut partner_indices = make_vec(16, || 0);
        s.select(&population, &costs, &mut random, &mut partner_indices);
        for i in &partner_indices {
            *results.entry(*i).or_insert(0) += 1;
        }
    }

    assert_eq!(results.len(), 16);
    for count in results.values() {
        assert_between(*count, ITERATIONS - DELTA, ITERATIONS + DELTA);
    }
}

#[test]
fn tournament_selector_when_costs_are_not_uniform_candidates_are_selected_according_to_distribution(
) {
    const ITERATIONS: usize = 4_096;

    let mut random = make_random_from_seed(82938);
    let mut s: TournamentSelector<u8> = TournamentSelector::new(4).unwrap();
    let population = make_vec(16, || 0);
    let costs = (0..16).map(|x| x as i64).collect::<Vec<i64>>();

    let mut results: HashMap<usize, usize> = HashMap::new();
    for i in 0..16 {
        results.insert(i, 0);
    }
    for _ in 0..ITERATIONS {
        let mut partner_indices = make_vec(16, || 0);
        s.select(&population, &costs, &mut random, &mut partner_indices);
        for i in &partner_indices {
            results.entry(*i).and_modify(|e| *e += 1);
        }
    }

    let at_0 = *results.get(&0).unwrap();
    let at_7 = *results.get(&7).unwrap();
    let at_15 = *results.get(&15).unwrap();

    assert!(at_0 > at_7);
    assert!(at_7 > at_15);
}

#[test]
fn with_rising_costs_every_index_is_selected_more_often_than_the_next() {
    const ITERATIONS: usize = 4_096;

    let mut random = make_random_from_seed(1);
    let mut s: TournamentSelector<u8> = TournamentSelector::new(4).unwrap();
    let population = make_vec(16, || 0);
    let costs = (0..16).map(|x| x as i64 * 10 - 50).collect::<Vec<i64>>();

    let mut counts = vec![0usize; 16];
    for _ in 0..ITERATIONS {
        let mut partner_indices = make_vec(16, || 0);
        s.select(&population, &costs, &mut random, &mut partner_indices);
        for i in &partner_indices {
            counts[*i] += 1;
        }
    }

    assert_eq!(counts.iter().sum::<usize>(), ITERATIONS * 16);
    for index in 0..15 {
        assert!(counts[index] > counts[index + 1]);
    }
}

#[test]
fn with_one_candidate_the_costs_do_not_matter() {
    const ITERATIONS: usize = 4_096;
    const DELTA: usize = ITERATIONS / 10;

    let mut random = make_random_from_seed(2);
    let mut s: TournamentSelector<u8> = TournamentSelector::new(1).unwrap();
    let population = make_vec(16, || 0);
    let costs = (0..16).map(|x| x as i64).collect::<Vec<i64>>();

    let mut counts = vec![0usize; 16];
    for _ in 0..ITERATIONS {
        let mut partner_indices = make_vec(16, || 0);
        s.select(&population, &costs, &mut random, &mut partner_indices);
        for i in &partner_indices {
            counts[*i] += 1;
        }
    }

    for count in counts {
        assert_between(count, ITERATIONS - DELTA, ITERATIONS + DELTA);
    }
}

#[test]
fn with_many_candidates_the_cheapest_genome_is_nearly_always_selected() {
    let mut random = make_random_from_seed(3);
    let mut s: TournamentSelector<u8> = TournamentSelector::new(200).unwrap();
    let population = make_vec(8, || 0);
    let costs: Vec<i64> = vec![9, 8, 7, -3, 7, 8, 9, 10];

    let mut partner_indices = make_vec(8, || 0);
    s.select(&population, &costs, &mut random, &mut partner_indices);

    assert_eq!(partner_indices, vec![3; 8]);
}

#[test]
fn select_writes_one_index_into_the_population_for_every_slot() {
    let mut random = make_random_from_seed(4);
    let mut s: TournamentSelector<u8> = TournamentSelector::new(3).unwrap();
    for size in [1usize, 2, 5, 33] {
        let population = make_vec(size, || 0);
        let costs: Vec<i64> = (0..size).map(|x| (x as i64 * 7) % 5).collect();
        let mut partner_indices = make_vec(size, || usize::MAX);

        s.select(&population, &costs, &mut random, &mut partner_indices);

        assert_eq!(partner_indices.len(), size);
        for partner in partner_indices {
            assert!(partner < size);
        }
    }
}

#[test]
fn select_leaves_an_empty_population_alone() {
    let mut random = make_random_from_seed(5);
    let mut s: TournamentSelector<u8> = TournamentSelector::new(3).unwrap();
    let population: Vec<u8> = vec![];
    let costs: Vec<i64> = vec![];
    let mut partner_indices: Vec<usize> = vec![];

    s.select(&population, &costs, &mut random, &mut partner_indices);

    assert_eq!(partner_indices.len(), 0);
}

#[test]
fn the_default_selector_has_eight_candidates() {
    let s: TournamentSelector<u8> = TournamentSelector::default();

    assert_eq!(s.cross_over_candidates(), 8);
}

#[test]
fn a_selector_keeps_its_number_of_candidates() {
    let s: TournamentSelector<u8> = TournamentSelector::new(5).ok().unwrap();

    assert_eq!(s.cross_over_candidates(), 5);
    assert_eq!(s.clone(), s);
    assert_eq!(s.clone().cross_over_candidates(), 5);
}

#[test]
fn the_tournament_goes_to_the_cheapest_draw() {
    let costs: Vec<i64> = vec![50, 40, 30, 20, 10];

    assert_eq!(tournament(&costs, &vec![0]), 0);
    assert_eq!(tournament(&costs, &vec![0, 1]), 1);
    assert_eq!(tournament(&costs, &vec![1, 0]), 1);
    assert_eq!(tournament(&costs, &vec![2, 4, 3]), 4);
    assert_eq!(tournament(&costs, &vec![3, 3, 3]), 3);
    assert_eq!(tournament(&costs, &vec![0, 1, 2, 3, 4]), 4);
    assert_eq!(tournament(&costs, &vec![4, 3, 2, 1, 0]), 4);
}

#[test]
fn among_equal_costs_the_tournament_goes_to_the_first_draw() {
    let costs: Vec<i64> = vec![7, 3, 3, 7, 3];

    assert_eq!(tournament(&costs, &vec![2, 1, 4]), 2);
    assert_eq!(tournament(&costs, &vec![4, 1, 2]), 4);
    assert_eq!(tournament(&costs, &vec![0, 3]), 0);
    assert_eq!(tournament(&costs, &vec![3, 0]), 3);
    assert_eq!(tournament(&costs, &vec![0, 4, 1]), 4);
    assert_eq!(tournament(&costs, &vec![3, 0, 2, 1]), 2);
}

#[test]
fn with_level_costs_the_tournament_goes_to_the_first_draw() {
    let costs: Vec<i64> = vec![5; 16];
    for first in 0..16 {
        assert_eq!(tournament(&costs, &vec![first, 0, 15, 7]), first);
    }
}

#[test]
fn with_rising_costs_the_tournament_goes_to_the_least_index() {
    let costs: Vec<i64> = (0..16).map(|x| x as i64).collect();

    assert_eq!(tournament(&costs, &vec![9, 4, 12, 4]), 4);
    assert_eq!(tournament(&costs, &vec![15, 14, 13]), 13);
    assert_eq!(tournament(&costs, &vec![0, 15]), 0);
}

#[test]
fn the_tournament_takes_the_highest_cost_there_is() {
    // The dearest genome wins where nothing else is drawn.
    let costs: Vec<i64> = vec![0, i64::MAX, i64::MAX];

    assert_eq!(tournament(&costs, &vec![1]), 1);
    assert_eq!(tournament(&costs, &vec![2, 1]), 2);
    assert_eq!(tournament(&costs, &vec![2, 1, 0]), 0);
}
