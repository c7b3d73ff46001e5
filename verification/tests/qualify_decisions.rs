//! Candidate capability, delivery, and observation judgments.

use zio_testkit::{
    batch_description, capability_failed, configured_delivery, contract_expected,
    disarmed_expectation, expectation_for, judge_observation, judge_quiet, not_run,
    observation_from_hints, profile_plan, setup_failed, support_for, CaseOutcome, CaseRun,
    ConfiguredDelivery, ContractViolation, DeliveryProfile, EventBatch, Implementation,
    Observation, ProfileStep, ProfileSupport, QualificationPhase, Scenario,
};

fn readable_level() -> Scenario {
    Scenario::all()[2]
}

#[test]
fn capabilities_follow_each_candidate() {
    assert_eq!(
        support_for(Implementation::Mio, DeliveryProfile::OneShot, true),
        ProfileSupport::NotExposed {
            reason: "Mio exposes its native default, not Level or OneShot selection"
        }
    );
    assert_eq!(
        support_for(Implementation::Mio, DeliveryProfile::InitialObservation, false),
        ProfileSupport::Native
    );
    assert_eq!(
        support_for(Implementation::Polling, DeliveryProfile::Level, false),
        ProfileSupport::HostUnavailable {
            reason: "the polling host backend reports no native Level support"
        }
    );
    assert_eq!(
        support_for(Implementation::Polling, DeliveryProfile::Level, true),
        ProfileSupport::Native
    );
    assert_eq!(
        configured_delivery(Implementation::Polling, DeliveryProfile::InitialObservation),
        ConfiguredDelivery::OneShot
    );
    assert_eq!(
        configured_delivery(Implementation::Mio, DeliveryProfile::InitialObservation),
        ConfiguredDelivery::NativeDefault
    );
    assert_eq!(
        configured_delivery(Implementation::ZioBorrowed, DeliveryProfile::OneShot),
        ConfiguredDelivery::OneShot
    );
}

#[test]
fn profile_plans_schedule_each_delivery() {
    assert_eq!(
        profile_plan(DeliveryProfile::Level),
        vec![
            ProfileStep::Observe(QualificationPhase::Wait),
            ProfileStep::Observe(QualificationPhase::LevelDelivery),
        ]
    );
    assert_eq!(
        profile_plan(DeliveryProfile::OneShot),
        vec![
            ProfileStep::Observe(QualificationPhase::Wait),
            ProfileStep::DisarmedBeforeRearm,
            ProfileStep::Rearm,
            ProfileStep::Observe(QualificationPhase::Rearm),
            ProfileStep::DisarmedAfterRearm,
        ]
    );
    assert_eq!(disarmed_expectation(true), "no delivery before explicit rearm");
    assert_eq!(disarmed_expectation(false), "no delivery after rearmed delivery");
}

#[test]
fn observations_are_judged_against_the_declared_contract() {
    let scenario = readable_level();
    let contract = expectation_for(scenario);
    assert_eq!(contract.allowed(), Observation::readable());
    let mut observations = Vec::new();
    assert!(judge_observation(
        Implementation::Zio,
        scenario,
        QualificationPhase::Wait,
        Ok(EventBatch::one(Observation::readable())),
        &mut observations,
    )
    .is_ok());
    assert_eq!(observations, vec![Observation::readable()]);

    let hup = observation_from_hints(true, false, true, false, false, false);
    let undocumented = judge_observation(
        Implementation::Zio,
        scenario,
        QualificationPhase::Wait,
        Ok(EventBatch::one(hup)),
        &mut observations,
    )
    .unwrap_err();
    assert_eq!(undocumented.phase(), QualificationPhase::Contract);
    assert_eq!(undocumented.expected(), "no flags outside readable");
    assert_eq!(undocumented.actual(), "readable|read_closed");
    assert_eq!(observations.len(), 2);

    let doubled = EventBatch::one(Observation::readable()).record(Observation::readable());
    let cardinality = judge_observation(
        Implementation::Mio,
        scenario,
        QualificationPhase::LevelDelivery,
        Ok(doubled),
        &mut observations,
    )
    .unwrap_err();
    assert_eq!(cardinality.phase(), QualificationPhase::Cardinality);
    assert_eq!(cardinality.actual(), "2 matching events with readable");
    assert_eq!(batch_description(doubled), "2 matching events with readable");

    let late = judge_observation(
        Implementation::Polling,
        scenario,
        QualificationPhase::Rearm,
        Ok(EventBatch::empty()),
        &mut observations,
    )
    .unwrap_err();
    assert_eq!(
        (late.phase(), late.expected(), late.actual()),
        (
            QualificationPhase::Rearm,
            "one readiness observation before deadline",
            "deadline elapsed"
        )
    );
    assert_eq!(observations.len(), 3);
    assert_eq!(
        late.to_text(),
        "polling unix.readable.level Rearm: expected one readiness observation before deadline, observed deadline elapsed"
    );
}

#[test]
fn violations_describe_the_broken_clause() {
    assert_eq!(
        contract_expected(ContractViolation::MissingRequired {
            required: Observation::writable(),
            actual: Observation::empty(),
        }),
        "required flags writable"
    );
    assert_eq!(
        contract_expected(ContractViolation::MissingOneOf {
            required_any: Observation::read_closed().union(Observation::error()),
            actual: Observation::empty(),
        }),
        "at least one flag from read_closed|error"
    );
    assert_eq!(Observation::empty().describe(), "empty");
}

#[test]
fn quiet_windows_reject_any_matching_event() {
    let scenario = readable_level();
    assert!(judge_quiet(
        Implementation::Zio,
        scenario,
        QualificationPhase::Quiescence,
        "no readiness before fixture activation",
        Ok(EventBatch::empty()),
    )
    .is_ok());
    let early = judge_quiet(
        Implementation::Zio,
        scenario,
        QualificationPhase::Quiescence,
        "no readiness before fixture activation",
        Ok(EventBatch::one(Observation::readable())),
    )
    .unwrap_err();
    assert_eq!(early.actual(), "1 matching events with readable");
    let failed = judge_quiet(
        Implementation::Zio,
        scenario,
        QualificationPhase::Disarm,
        "no delivery before explicit rearm",
        Err("closed".to_owned()),
    )
    .unwrap_err();
    assert_eq!(
        failed.expected(),
        "successful quiet-window wait: no delivery before explicit rearm"
    );
}

#[test]
fn case_runs_pass_only_without_failures() {
    let scenario = readable_level();
    let mut passed = CaseRun::begin(Implementation::Zio, scenario, ConfiguredDelivery::Level);
    assert!(passed
        .observe(QualificationPhase::Wait, Ok(EventBatch::one(Observation::readable())))
        .is_ok());
    let result = passed.finish();
    assert_eq!(result.outcome(), &CaseOutcome::Passed);
    assert_eq!(result.observations(), &[Observation::readable()]);
    assert!(result.discharges());

    let mut failed = CaseRun::begin(Implementation::Zio, scenario, ConfiguredDelivery::Level);
    failed.fail(
        QualificationPhase::Cleanup,
        "deleted registration before fixture drop",
        "busy".to_owned(),
    );
    let result = failed.finish();
    assert_eq!(result.failures().len(), 1);
    assert!(result.discharges());

    let skipped = not_run(
        Implementation::Mio,
        scenario,
        ProfileSupport::NotExposed { reason: "mode" },
    );
    assert_eq!(skipped.configured_delivery(), None);
    let capability = capability_failed(Implementation::Polling, scenario, "no poller".to_owned());
    assert_eq!(capability.failures()[0].phase(), QualificationPhase::Capability);
    let setup = setup_failed(
        Implementation::Zio,
        scenario,
        None,
        "fresh independent Unix stream fixture",
        "no pair".to_owned(),
    );
    assert_eq!(setup.failures()[0].expected(), "fresh independent Unix stream fixture");
}
