use rand::Rng;
use rand_xoshiro::rand_core::SeedableRng;
use rand_xoshiro::Xoshiro256PlusPlus;
use watchmaker::{
    make_random_from_seed, search, Cost, Genetic, Progress, RandomSource, Reason,
    SearchSettings, Silent, Success, TournamentSelector,
};

fn round(value: f64, base: usize, places: usize) -> f64 {
    let scale = (base * places) as f64;
    (value * scale).round() / scale
}

#[derive(Clone, Debug, PartialEq)]
pub struct PeakGenome(pub f64);

pub const TARGET: f64 = 100.0;

/// The unit of cost: a twentieth, the step to which the costs of this
/// problem are rounded.
const STEPS: f64 = 20.0;

pub struct PeakGenetic {
    random: Xoshiro256PlusPlus,
}

impl PeakGenetic {
    pub fn new(random: Xoshiro256PlusPlus) -> Self {
        Self { random }
    }
}

impl Genetic<PeakGenome> for PeakGenetic {
    fn initialize(&mut self) -> PeakGenome {
        PeakGenome(self.random.gen_range(0.0..200.0))
    }

    fn evaluate(&self, genome: &PeakGenome) -> Cost {
        (round((TARGET - genome.0).abs(), 10, 2) * STEPS).round() as Cost
    }

    fn crossover(&mut self, lhs: &PeakGenome, rhs: &PeakGenome) -> PeakGenome {
        PeakGenome(round((lhs.0 + rhs.0) / 2.0, 10, 2))
    }

    fn mutate(&mut self, genome: &PeakGenome) -> PeakGenome {
        PeakGenome(genome.0 + self.random.gen_range(-10.0..10.0))
    }
}

#[test]
fn search_search_finds_result_for_simple_test_case() {
    let result = search(
        Box::new(PeakGenetic::new(Xoshiro256PlusPlus::seed_from_u64(123))),
        Box::new(TournamentSelector::default()),
        None::<Silent>,
        make_random_from_seed(456),
        &SearchSettings::default(),
    );

    println!("{:?}", result);
    assert_eq!(result.is_ok(), true);
    assert_eq!(result.as_ref().ok().unwrap().best_cost(), 0);
    assert_eq!(result.as_ref().ok().unwrap().best_genome().0, TARGET);
    assert_eq!(
        result.as_ref().ok().unwrap().reason(),
        Reason::CostTargetReached(0)
    );
}

/// The operations of the same problem without rounding: a genome is a number
/// up to a thousand, and its cost the distance from the target, counted in
/// thousandths.
pub struct FinePeakGenetic {
    random: Xoshiro256PlusPlus,
}

impl Genetic<PeakGenome> for FinePeakGenetic {
    fn initialize(&mut self) -> PeakGenome {
        PeakGenome(self.random.gen_range(0.0..1_000.0))
    }

    fn evaluate(&self, genome: &PeakGenome) -> Cost {
        ((TARGET - genome.0).abs() * 1_000.0).round() as Cost
    }

    fn crossover(&mut self, lhs: &PeakGenome, rhs: &PeakGenome) -> PeakGenome {
        PeakGenome((lhs.0 + rhs.0) / 2.0)
    }

    fn mutate(&mut self, genome: &PeakGenome) -> PeakGenome {
        PeakGenome(genome.0 + self.random.gen_range(-10.0..10.0))
    }
}

#[test]
fn search_finds_the_peak_within_a_tenth() {
    let result = search(
        Box::new(FinePeakGenetic { random: Xoshiro256PlusPlus::seed_from_u64(82938) }),
        Box::new(TournamentSelector::default()),
        None::<Silent>,
        make_random_from_seed(82938),
        &SearchSettings::default(),
    );

    assert_eq!(result.is_ok(), true);

    let success = result.as_ref().ok().unwrap();
    // A cost of a tenth is a hundred thousandths.
    assert!(success.best_cost() >= 0);
    assert!(success.best_cost() <= 100);
    assert!(success.best_genome().0 >= TARGET - 1.0);
    assert!(success.best_genome().0 <= TARGET + 1.0);
}

fn searched(fine: bool) -> Success<PeakGenome> {
    let genetic: Box<dyn Genetic<PeakGenome> + Send + Sync> = if fine {
        Box::new(FinePeakGenetic { random: Xoshiro256PlusPlus::seed_from_u64(82938) })
    } else {
        Box::new(PeakGenetic::new(Xoshiro256PlusPlus::seed_from_u64(123)))
    };
    let observer: Option<Box<dyn Progress<PeakGenome>>> = if fine {
        None
    } else {
        Some(Box::new(Silent))
    };
    let random: Box<dyn RandomSource> = if fine {
        Box::new(make_random_from_seed(82938))
    } else {
        Box::new(make_random_from_seed(456))
    };

    search(
        genetic,
        Box::new(TournamentSelector::default()),
        observer,
        random,
        &SearchSettings::default(),
    )
    .ok()
    .unwrap()
}

#[test]
fn the_strategies_of_a_search_can_be_chosen_at_run_time() {
    // The same searches as with the strategies handed over directly.
    let success = searched(false);
    assert_eq!(success.reason(), Reason::CostTargetReached(0));
    assert_eq!(success.best_genome().0, TARGET);

    let success = searched(true);
    assert!(success.best_cost() <= 100);
    assert!(success.best_genome().0 >= TARGET - 1.0);
    assert!(success.best_genome().0 <= TARGET + 1.0);
}
