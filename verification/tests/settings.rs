use std::time::Duration;
use watchmaker::{
    ConcurrencySettings, DetectConcurrencySettings, Failure, SearchSettings,
    SearchSettingsBuilder, Settings, SettingsBuilder, CERTAINTY,
};

#[test]
fn settings_fails_when_cross_over_candidates_too_low() {
    let result = SettingsBuilder::default().cross_over_candidates(0).build();

    assert_eq!(result.is_err(), true);
    assert_eq!(result.err().unwrap(), Failure::cross_over_candidates());
}

#[test]
fn settings_fails_when_epoch_limit_too_low() {
    let result = SettingsBuilder::default().epoch_limit(0).build();

    assert_eq!(result.is_err(), true);
    assert_eq!(result.err().unwrap(), Failure::epoch_limit());

    let result = SearchSettingsBuilder::default().epoch_limit(0).build();

    assert_eq!(result.is_err(), true);
    assert_eq!(result.err().unwrap(), Failure::epoch_limit());
}

#[test]
fn settings_fails_when_mutation_rate_is_negative() {
    let result = SettingsBuilder::default()
        .mutation_probability(-CERTAINTY)
        .build();

    assert_eq!(result.is_err(), true);
    assert_eq!(result.err().unwrap(), Failure::mutation_probability());

    let result = SearchSettingsBuilder::default()
        .mutation_probability(-CERTAINTY)
        .build();

    assert_eq!(result.is_err(), true);
    assert_eq!(result.err().unwrap(), Failure::mutation_probability());
}

#[test]
fn settings_fails_when_population_size_is_too_small() {
    let result = SettingsBuilder::default().population_size(0).build();

    assert_eq!(result.is_err(), true);
    assert_eq!(result.err().unwrap(), Failure::population_size());

    let result = SearchSettingsBuilder::default().population_size(0).build();

    assert_eq!(result.is_err(), true);
    assert_eq!(result.err().unwrap(), Failure::population_size());
}

#[test]
fn settings_fails_when_time_limit_is_zero() {
    let result = SettingsBuilder::default()
        .time_limit(Duration::ZERO)
        .build();

    assert_eq!(result.is_err(), true);
    assert_eq!(result.err().unwrap(), Failure::time_limit());

    let result = SearchSettingsBuilder::default()
        .time_limit(Duration::ZERO)
        .build();

    assert_eq!(result.is_err(), true);
    assert_eq!(result.err().unwrap(), Failure::time_limit());
}

#[test]
fn search_settings_have_the_documented_defaults() {
    let settings = SearchSettings::default();

    assert_eq!(settings.concurrency(), ConcurrencySettings::SingleThreaded);
    assert_eq!(settings.cost_target(), 0);
    assert_eq!(settings.epoch_limit(), 1_024);
    assert_eq!(settings.mutation_probability(), 10_000);
    assert_eq!(settings.population_size(), 1_024);
    assert_eq!(settings.time_limit(), Duration::from_secs(5));
}

#[test]
fn tournament_settings_have_the_documented_defaults() {
    let settings = Settings::default();

    assert_eq!(settings.cost_target(), 0);
    assert_eq!(settings.cross_over_candidates(), 16);
    assert_eq!(settings.epoch_limit(), 1_024);
    assert_eq!(settings.mutation_probability(), 10_000);
    assert_eq!(settings.population_size(), 512);
    assert_eq!(settings.time_limit(), Duration::from_secs(5));
    assert_eq!(
        settings.search_settings().concurrency(),
        ConcurrencySettings::SingleThreaded
    );
}

#[test]
fn the_default_builders_build_the_default_settings() {
    assert_eq!(
        SearchSettingsBuilder::default().build().ok().unwrap(),
        SearchSettings::default()
    );
    assert_eq!(
        SettingsBuilder::default().build().ok().unwrap(),
        Settings::default()
    );
}

#[test]
fn a_builder_hands_every_value_to_the_settings() {
    let detect = DetectConcurrencySettings::new(7).ok().unwrap();
    let settings = SearchSettingsBuilder::default()
        .concurrency(ConcurrencySettings::Detect(detect))
        .cost_target(-25)
        .epoch_limit(3)
        .mutation_probability(250_000)
        .population_size(11)
        .time_limit(Duration::from_millis(1_500))
        .build()
        .ok()
        .unwrap();

    assert_eq!(settings.concurrency(), ConcurrencySettings::Detect(detect));
    assert_eq!(settings.cost_target(), -25);
    assert_eq!(settings.epoch_limit(), 3);
    assert_eq!(settings.mutation_probability(), 250_000);
    assert_eq!(settings.population_size(), 11);
    assert_eq!(settings.time_limit(), Duration::from_millis(1_500));

    let again = SearchSettingsBuilder::from(&settings).build().ok().unwrap();
    assert_eq!(again, settings);
}

#[test]
fn a_tournament_builder_hands_every_value_to_the_settings() {
    let settings = SettingsBuilder::default()
        .cost_target(9)
        .cross_over_candidates(2)
        .epoch_limit(1)
        .mutation_probability(0)
        .population_size(1)
        .time_limit(Duration::from_nanos(1))
        .build()
        .ok()
        .unwrap();

    assert_eq!(settings.cost_target(), 9);
    assert_eq!(settings.cross_over_candidates(), 2);
    assert_eq!(settings.epoch_limit(), 1);
    assert_eq!(settings.mutation_probability(), 0);
    assert_eq!(settings.population_size(), 1);
    assert_eq!(settings.time_limit(), Duration::from_nanos(1));

    let search = settings.search_settings();
    assert_eq!(search.cost_target(), 9);
    assert_eq!(search.epoch_limit(), 1);
    assert_eq!(search.mutation_probability(), 0);
    assert_eq!(search.population_size(), 1);
    assert_eq!(search.time_limit(), Duration::from_nanos(1));

    let again = SettingsBuilder::from(&settings).build().ok().unwrap();
    assert_eq!(again, settings);
}

#[test]
fn the_first_broken_rule_is_reported() {
    // Every rule is broken: the epoch limit comes first.
    let all = SearchSettingsBuilder::default()
        .epoch_limit(0)
        .mutation_probability(-1)
        .population_size(0)
        .time_limit(Duration::ZERO);
    assert_eq!(all.build().err().unwrap(), Failure::epoch_limit());

    // With the epoch limit mended the mutation probability comes first.
    let rest = all.epoch_limit(1);
    assert_eq!(rest.build().err().unwrap(), Failure::mutation_probability());

    let rest = rest.mutation_probability(0);
    assert_eq!(rest.build().err().unwrap(), Failure::population_size());

    let rest = rest.population_size(1);
    assert_eq!(rest.build().err().unwrap(), Failure::time_limit());

    let rest = rest.time_limit(Duration::from_nanos(1));
    assert_eq!(rest.build().is_ok(), true);
}

#[test]
fn the_number_of_candidates_is_checked_before_the_rest() {
    let all = SettingsBuilder::default()
        .cross_over_candidates(0)
        .epoch_limit(0)
        .mutation_probability(-1)
        .population_size(0)
        .time_limit(Duration::ZERO);
    assert_eq!(all.build().err().unwrap(), Failure::cross_over_candidates());

    let rest = all.cross_over_candidates(1);
    assert_eq!(rest.build().err().unwrap(), Failure::epoch_limit());

    let rest = rest.epoch_limit(1);
    assert_eq!(rest.build().err().unwrap(), Failure::mutation_probability());

    let rest = rest.mutation_probability(0);
    assert_eq!(rest.build().err().unwrap(), Failure::population_size());

    let rest = rest.population_size(1);
    assert_eq!(rest.build().err().unwrap(), Failure::time_limit());
}

#[test]
fn the_cost_target_is_free() {
    for target in [i64::MIN, -1, 0, 1, i64::MAX] {
        let settings = SearchSettingsBuilder::default()
            .cost_target(target)
            .build()
            .ok()
            .unwrap();
        assert_eq!(settings.cost_target(), target);
    }
}

#[test]
fn a_mutation_probability_of_zero_or_above_certainty_is_valid() {
    for probability in [0, 1, CERTAINTY, CERTAINTY + 1, i64::MAX] {
        let settings = SearchSettingsBuilder::default()
            .mutation_probability(probability)
            .build()
            .ok()
            .unwrap();
        assert_eq!(settings.mutation_probability(), probability);
    }
}

#[test]
fn new_validates_like_the_builder() {
    let made = SearchSettings::new(
        ConcurrencySettings::MultiThreaded,
        5,
        10,
        1,
        20,
        Duration::from_secs(1),
    );
    let settings = made.ok().unwrap();
    assert_eq!(settings.concurrency(), ConcurrencySettings::MultiThreaded);
    assert_eq!(settings.cost_target(), 5);
    assert_eq!(settings.epoch_limit(), 10);
    assert_eq!(settings.mutation_probability(), 1);
    assert_eq!(settings.population_size(), 20);

    let broken = SearchSettings::new(
        ConcurrencySettings::MultiThreaded,
        5,
        10,
        1,
        0,
        Duration::ZERO,
    );
    assert_eq!(broken.err().unwrap(), Failure::population_size());

    let broken = Settings::new(5, 0, 10, 1, 20, Duration::from_secs(1));
    assert_eq!(broken.err().unwrap(), Failure::cross_over_candidates());
}
