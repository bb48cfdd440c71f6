use watchmaker::{Failure, Rule};

#[test]
fn every_failure_has_its_stable_code() {
    assert_eq!(Failure::cross_over_candidates().error(), 1);
    assert_eq!(Failure::epoch_limit().error(), 2);
    assert_eq!(Failure::mutation_probability().error(), 3);
    assert_eq!(Failure::population_size().error(), 4);
    assert_eq!(Failure::min_chunk_size().error(), 5);
    assert_eq!(Failure::time_limit().error(), 6);
    assert_eq!(Failure::cross_over_setting().error(), 7);
}

#[test]
fn every_failure_has_its_message() {
    assert_eq!(
        Failure::cross_over_candidates().message(),
        "number of cross over candidates must be at least 1"
    );
    assert_eq!(Failure::epoch_limit().message(), "epoch limit must be at least 1");
    assert_eq!(
        Failure::mutation_probability().message(),
        "mutation probability must be in the range [0..1]"
    );
    assert_eq!(
        Failure::population_size().message(),
        "population size must be at least 1"
    );
    assert_eq!(
        Failure::min_chunk_size().message(),
        "min_chunk_size size must be at least 1"
    );
    assert_eq!(Failure::time_limit().message(), "time limit must be non-zero");
    assert_eq!(
        Failure::cross_over_setting().message(),
        "cross over radius must be at least 1"
    );
}

#[test]
fn every_failure_names_its_rule() {
    assert_eq!(Failure::cross_over_candidates().rule(), Rule::CrossOverCandidates);
    assert_eq!(Failure::epoch_limit().rule(), Rule::EpochLimit);
    assert_eq!(Failure::mutation_probability().rule(), Rule::MutationProbability);
    assert_eq!(Failure::population_size().rule(), Rule::PopulationSize);
    assert_eq!(Failure::min_chunk_size().rule(), Rule::MinChunkSize);
    assert_eq!(Failure::time_limit().rule(), Rule::TimeLimit);
    assert_eq!(Failure::cross_over_setting().rule(), Rule::CrossOverSetting);
}

#[test]
fn failures_compare_by_the_rule_that_fired() {
    assert_eq!(Failure::epoch_limit(), Failure::epoch_limit());
    assert_ne!(Failure::epoch_limit(), Failure::time_limit());
    assert_ne!(Failure::cross_over_candidates(), Failure::cross_over_setting());
    let copy = Failure::population_size().clone();
    assert_eq!(copy, Failure::population_size());
}
