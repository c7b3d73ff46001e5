//! The reference model of registration lifetime and its diagnostics.

use zio_testkit::{
    corpus_report, corpus_seed, coverage_failure, expected_after, ModelSequenceCaseResult, ArmState, BackendState, Branch, Coverage, Entry, InterestSet, Key, Mode,
    ModelSequenceCheck, ModelSequenceFailure, ModelSequencePhase, MutationCall, MutationScenario,
    Outcome, ReferenceModel, RegistrationId, RegistrationState,
};

fn id(value: u64) -> RegistrationId {
    RegistrationId { value }
}

fn registered_disarmed(model: &mut ReferenceModel, registration: RegistrationId) {
    let key = Key::new(202);
    model
        .record_register(registration, key, InterestSet::readable(), Mode::OneShot)
        .unwrap();
    model
        .complete_register(
            Outcome::Success,
            Some(registration),
            key,
            InterestSet::readable(),
            Mode::OneShot,
        )
        .unwrap();
    assert_eq!(model.disarm(), Ok(registration));
}

#[test]
fn the_model_agrees_with_each_scenario_expectation_for_modifications() {
    for branch in [Branch::Success, Branch::NotApplied, Branch::Applied, Branch::Unknown] {
        let mut model = ReferenceModel::new();
        registered_disarmed(&mut model, id(1));
        let entry: Entry = model
            .record_modify(InterestSet::writable(), Mode::Level)
            .unwrap();
        assert_eq!(entry.registration, id(1));
        let outcome = match branch {
            Branch::Success => Outcome::Success,
            Branch::NotApplied => Outcome::NotApplied,
            Branch::Applied => Outcome::Applied,
            Branch::Unknown => Outcome::Unknown,
        };
        model
            .complete_modify(outcome, None, InterestSet::writable(), Mode::Level)
            .unwrap();
        let (state, backend) = expected_after(MutationScenario::modify(branch));
        assert_eq!(model.expected_backend(id(1)), backend, "{branch:?}");
        assert_eq!(model.active().map(|entry| entry.state), state, "{branch:?}");
    }
}

#[test]
fn the_model_agrees_with_each_scenario_expectation_for_deletions() {
    for branch in [Branch::Success, Branch::NotApplied, Branch::Applied, Branch::Unknown] {
        let mut model = ReferenceModel::new();
        registered_disarmed(&mut model, id(1));
        model.record_delete().unwrap();
        let outcome = match branch {
            Branch::Success => Outcome::Success,
            Branch::NotApplied => Outcome::NotApplied,
            Branch::Applied => Outcome::Applied,
            Branch::Unknown => Outcome::Unknown,
        };
        model.complete_delete(outcome).unwrap();
        let (state, backend) = expected_after(MutationScenario::delete(branch));
        assert_eq!(model.expected_backend(id(1)), backend, "{branch:?}");
        assert_eq!(model.active().map(|entry| entry.state), state, "{branch:?}");
        let retired = matches!(branch, Branch::Success | Branch::Applied);
        assert_eq!(model.stale(), if retired { Some(id(1)) } else { None });
    }
}

#[test]
fn the_model_expects_every_backend_call_in_order() {
    let mut model = ReferenceModel::new();
    registered_disarmed(&mut model, id(4));
    model.record_delete().unwrap();
    assert_eq!(
        model.calls(),
        &[
            MutationCall::Register {
                registration: id(4),
                key: Key::new(202),
                interest: InterestSet::readable(),
                mode: Mode::OneShot,
            },
            MutationCall::EstablishDisarmed { registration: id(4) },
            MutationCall::Delete {
                registration: id(4),
                interest: InterestSet::readable(),
                state: RegistrationState::Registered {
                    arm: ArmState::Disarmed
                },
            },
        ]
    );
    assert_eq!(model.issued(), &[id(4)]);
}

#[test]
fn a_retired_generation_is_never_issued_again() {
    let mut model = ReferenceModel::new();
    registered_disarmed(&mut model, id(1));
    model.record_delete().unwrap();
    model.complete_delete(Outcome::Success).unwrap();
    assert_eq!(model.retired(), &[id(1)]);
    assert!(model
        .record_register(id(1), Key::new(1), InterestSet::readable(), Mode::Level)
        .is_err());
    assert!(model
        .record_register(id(2), Key::new(1), InterestSet::readable(), Mode::Level)
        .is_ok());
    assert_eq!(model.expected_backend(id(1)), BackendState::Absent);
}

#[test]
fn a_vacant_slot_rejects_handle_operations() {
    let mut model = ReferenceModel::new();
    assert!(model.disarm().is_err());
    assert!(model.record_modify(InterestSet::readable(), Mode::Level).is_err());
    assert!(model.record_delete().is_err());
    assert!(model.set_key(Key::new(3)).is_err());
    assert_eq!(model.stale(), None);
}

#[test]
fn coverage_summaries_and_failure_texts_are_stable() {
    let mut coverage = Coverage::new();
    coverage.mark_register(0);
    assert!(!coverage.is_complete());
    assert_eq!(
        coverage.summary(),
        "register=[true, false, false, false], modify=[false, false, false, false], modify_with_key=[false, false, false, false], delete=[false, false, false, false], disarm=false, rearm=false, reuse=false, stale=false, wrong_poller=false, invalid_register=false, invalid_modify=false, set_key_armed=false, set_key_disarmed=false, set_key_uncertain=false"
    );
    let trace = vec!["delivery.disarm".to_owned(), "probe.stale".to_owned()];
    let failure = ModelSequenceFailure::new(
        0x10,
        ModelSequencePhase::Action { index: 1 },
        &trace,
        ModelSequenceCheck::Precondition,
        "\"retired handle\"".to_owned(),
        "\"no retired handle\"".to_owned(),
    );
    assert_eq!(failure.step(), Some(1));
    assert_eq!(failure.trace(), trace.as_slice());
    assert_eq!(
        failure.to_text(),
        "model sequence seed 0x0000000000000010 phase Action { index: 1 } failed Precondition: expected \"retired handle\", observed \"no retired handle\"; replay -> delivery.disarm -> probe.stale"
    );
}

fn full_matrix_without_keyed_modify() -> Coverage {
    let mut coverage = Coverage::new();
    for index in 0..4 {
        coverage.mark_register(index);
        coverage.mark_modify(index);
        coverage.mark_delete(index);
    }
    for bit in 0..10 {
        coverage.mark(1 << bit);
    }
    coverage
}

#[test]
fn merge_joins_every_row_including_keyed_modifications() {
    let mut first = Coverage::new();
    first.mark_register(0);
    first.mark_modify_with_key(1);
    let mut second = Coverage::new();
    second.mark_modify_with_key(3);
    second.mark_delete(2);
    second.mark(4);
    let mut joined = first.clone();
    joined.merge(&second);
    assert_eq!(joined.register_row(), 0b0001);
    assert_eq!(joined.modify_row(), 0);
    assert_eq!(joined.modify_with_key_row(), 0b1010);
    assert_eq!(joined.delete_row(), 0b0100);
    assert_eq!(joined.special_flags(), 4);

    let mut other_order = second.clone();
    other_order.merge(&first);
    assert_eq!(other_order.summary(), joined.summary());

    let copy = joined.clone();
    joined.merge(&copy);
    assert_eq!(joined.summary(), copy.summary());
    assert!(joined.summary().contains("modify_with_key=[false, true, false, true]"));
}

#[test]
fn completeness_requires_every_keyed_modification_outcome() {
    let mut coverage = full_matrix_without_keyed_modify();
    assert!(coverage.has_outcome_matrix());
    assert!(!coverage.is_complete());
    for index in 0..3 {
        coverage.mark_modify_with_key(index);
    }
    assert!(!coverage.is_complete());
    coverage.mark_modify_with_key(3);
    assert!(coverage.is_complete());

    let mut partial = Coverage::new();
    partial.merge(&full_matrix_without_keyed_modify());
    assert!(!partial.is_complete());
    partial.merge(&coverage);
    assert!(partial.is_complete());
}

#[test]
fn incomplete_corpus_coverage_is_reported_against_the_first_corpus_seed() {
    let coverage = full_matrix_without_keyed_modify();
    let failure = coverage_failure(&coverage).expect("keyed modifications are missing");
    assert_eq!(failure.seed(), corpus_seed(0));
    assert_eq!(failure.phase(), ModelSequencePhase::Coverage);
    assert_eq!(failure.check(), ModelSequenceCheck::Coverage);
    assert!(failure.trace().is_empty());
    assert_eq!(failure.step(), None);
    assert_eq!(
        failure.expected(),
        "all mutation outcomes, disarm, rearm, reuse, stale, and wrong-poller probes"
    );
    assert_eq!(failure.actual(), coverage.summary());

    let results = vec![ModelSequenceCaseResult::passed(corpus_seed(0), 64)];
    let report = corpus_report(results, &coverage);
    assert_eq!(report.len(), 1);
    assert!(!report.is_coverage_complete());
    assert!(!report.is_conformant());
    let reported = report.coverage_failure().expect("coverage failure is reported");
    assert_eq!(reported.seed(), corpus_seed(0));
    assert_eq!(reported.phase(), ModelSequencePhase::Coverage);
    assert_eq!(reported.actual(), coverage.summary());

    let mut complete = coverage.clone();
    for index in 0..4 {
        complete.mark_modify_with_key(index);
    }
    assert!(coverage_failure(&complete).is_none());
    let report = corpus_report(vec![ModelSequenceCaseResult::passed(corpus_seed(0), 64)], &complete);
    assert!(report.coverage_failure().is_none());
    assert!(report.is_conformant());
}
