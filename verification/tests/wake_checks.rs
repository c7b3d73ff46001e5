//! Wake scenarios and their checkpoints.

use zio_testkit::{
    requested_conflicting_key,
    wake::{
        expect_conflict_rejected, expect_drained, expect_helper_finished, expect_same_keys,
        expect_single_wake, reject_recovery,
    },
    wake_report_of, ConflictOutcome, DeliveredEvent, HelperExit, Key, Observation, WakeCheck,
    WakeFailure, WakeScenario, WAKE_CAPACITY_ONE_SATURATION, WAKE_CLONE_ACROSS_WAIT,
    WAKE_CONFLICTING_KEY, WAKE_PRE_WAIT_STORM, WAKE_SAME_KEY_CLONES,
};

#[test]
fn wake_scenarios_are_named_and_keyed() {
    let all = WakeScenario::all();
    assert_eq!(all.len(), 7);
    assert_eq!(
        [
            WAKE_SAME_KEY_CLONES,
            WAKE_CONFLICTING_KEY,
            WAKE_PRE_WAIT_STORM,
            WAKE_CLONE_ACROSS_WAIT
        ],
        [all[0], all[1], all[2], all[3]]
    );
    assert_eq!(all[6], WAKE_CAPACITY_ONE_SATURATION);
    assert_eq!(WAKE_SAME_KEY_CLONES.name(), "wake.same_key_clones");
    assert_eq!(WAKE_SAME_KEY_CLONES.key(), Key::new(4001));
    assert_eq!(WAKE_PRE_WAIT_STORM.key(), Key::new(4101));
    assert_eq!(requested_conflicting_key(), Key::new(4003));
}

#[test]
fn one_wake_event_with_its_key_is_required() {
    let scenario = WAKE_PRE_WAIT_STORM;
    let key = Key::new(4101);
    assert!(expect_single_wake(scenario, &[DeliveredEvent::Wake { key }], key).is_ok());
    let doubled = expect_single_wake(
        scenario,
        &[DeliveredEvent::Wake { key }, DeliveredEvent::Wake { key }],
        key,
    )
    .unwrap_err();
    assert_eq!(doubled.check(), WakeCheck::Events);
    assert_eq!(doubled.expected(), "[Wake { key: Key(4101) }]");
    assert_eq!(
        doubled.actual(),
        "[Wake { key: Key(4101) }, Wake { key: Key(4101) }]"
    );
    let resource = DeliveredEvent::Resource {
        key,
        readiness: Observation::readable(),
    };
    assert!(expect_single_wake(scenario, &[resource], key).is_err());
    assert!(expect_drained(scenario, &[]).is_ok());
    assert_eq!(
        expect_drained(scenario, &[DeliveredEvent::Wake { key }])
            .unwrap_err()
            .check(),
        WakeCheck::Drain
    );
    assert_eq!(
        reject_recovery(scenario, Some("trouble"), &[]).unwrap_err().check(),
        WakeCheck::Wait
    );
}

#[test]
fn clones_and_conflicts_keep_the_configured_key() {
    let scenario = WAKE_SAME_KEY_CLONES;
    let key = Key::new(4001);
    assert!(expect_same_keys(scenario, [key; 3], key).is_ok());
    let changed = expect_same_keys(scenario, [key, Key::new(7), key], key).unwrap_err();
    assert_eq!(changed.check(), WakeCheck::Configuration);
    assert_eq!(changed.expected(), "[Key(4001), Key(4001), Key(4001)]");
    assert_eq!(changed.actual(), "[Key(4001), Key(7), Key(4001)]");

    let conflict = WAKE_CONFLICTING_KEY;
    let (existing, requested) = (Key::new(4002), Key::new(4003));
    let rejected = ConflictOutcome::AlreadyConfigured {
        existing,
        requested,
    };
    assert!(expect_conflict_rejected(conflict, &rejected, existing, requested).is_ok());
    let configured =
        expect_conflict_rejected(conflict, &ConflictOutcome::Configured, existing, requested)
            .unwrap_err();
    assert_eq!(
        (configured.expected(), configured.actual()),
        ("\"conflicting-key rejection\"", "\"configured conflicting waker\"")
    );
    let other = expect_conflict_rejected(
        conflict,
        &ConflictOutcome::OtherError {
            text: "Invariant".to_owned(),
        },
        existing,
        requested,
    )
    .unwrap_err();
    assert_eq!(
        (other.expected(), other.actual()),
        (
            "WakerAlreadyConfigured { existing: Key(4002), requested: Key(4003) }",
            "Invariant"
        )
    );
}

#[test]
fn helper_threads_must_finish_their_work() {
    let scenario = WAKE_CLONE_ACROSS_WAIT;
    assert!(expect_helper_finished(scenario, HelperExit::Finished, "exit").is_ok());
    let failed = expect_helper_finished(
        scenario,
        HelperExit::Failed {
            text: "round 3 wake: closed".to_owned(),
        },
        "exit",
    )
    .unwrap_err();
    assert_eq!(
        (failed.check(), failed.actual()),
        (WakeCheck::Trigger, "round 3 wake: closed")
    );
    let panicked = expect_helper_finished(scenario, HelperExit::Panicked, "exit").unwrap_err();
    assert_eq!(
        (panicked.check(), panicked.actual()),
        (WakeCheck::Deadline, "wake helper thread panicked")
    );
}

#[test]
fn wake_reports_summarize_their_results() {
    let failure = WakeFailure::new(
        WAKE_PRE_WAIT_STORM,
        WakeCheck::Drain,
        "none".to_owned(),
        "one".to_owned(),
    );
    assert_eq!(
        failure.to_text(),
        "wake.pre_wait_storm failed Drain: expected none, observed one"
    );
    let report = wake_report_of(
        &[WAKE_SAME_KEY_CLONES, WAKE_PRE_WAIT_STORM],
        vec![Ok(()), Err(failure)],
    );
    assert_eq!((report.len(), report.passed()), (2, 1));
    assert_eq!(
        report.to_text(),
        "zio wake conformance: 1/2 passed\n- wake.pre_wait_storm failed Drain: expected none, observed one"
    );
}
