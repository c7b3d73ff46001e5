//! Mutation scenarios, their scripted plans, and their checkpoints.

use zio_testkit::{
    cleanup_call, expected_after,
    model_sequence_expect::{ObservedError, PollError},
    mutation_plan,
    mutation_report::{report_of, CaseResult},
    mutation_verify::{
        expect_backend, expect_call, expect_failed_delete, expect_failed_register,
        expect_finished, expect_fresh_generation, expect_handle_id, expect_mutation,
        expect_register_call, expect_retained_capacity, expect_stale, expect_state,
        expect_uncertain_rejection,
    },
    render_backend, render_call, ArmState, BackendState, Branch, CommitStatus,
    ConformanceCheck, ConformanceFailure, DeleteFailure, InterestSet, Key, Mode, MutationCall,
    MutationOperation, MutationScenario, Operation, Outcome, PlannedStep, RegisterFailure,
    RegistrationId, RegistrationState, SourceKind,
};

fn id(value: u64) -> RegistrationId {
    RegistrationId { value }
}

fn error(class: PollError, text: &str) -> ObservedError {
    ObservedError {
        class,
        text: text.to_owned(),
    }
}

fn step(operation: Operation, outcome: Outcome) -> PlannedStep {
    PlannedStep { operation, outcome }
}

#[test]
fn mutation_scenarios_have_stable_names_in_stable_order() {
    let names: Vec<&str> = MutationScenario::all().iter().map(|s| s.name()).collect();
    assert_eq!(
        names,
        [
            "register.success",
            "register.not_applied",
            "register.applied",
            "register.unknown",
            "modify.success",
            "modify.not_applied",
            "modify.applied",
            "modify.unknown",
            "delete.success",
            "delete.not_applied",
            "delete.applied",
            "delete.unknown",
        ]
    );
}

#[test]
fn branch_commit_statuses_follow_the_branch() {
    assert_eq!(Branch::Success.commit(), None);
    assert_eq!(Branch::NotApplied.commit(), Some(CommitStatus::NotApplied));
    assert_eq!(Branch::Applied.commit(), Some(CommitStatus::Applied));
    assert_eq!(Branch::Unknown.commit(), Some(CommitStatus::Unknown));
    assert_eq!(MutationOperation::Delete.operation(), Operation::Delete);
}

#[test]
fn plans_exercise_the_branch_and_end_with_cleanup() {
    assert_eq!(
        mutation_plan(MutationScenario::register(Branch::NotApplied)),
        vec![
            step(Operation::Register, Outcome::NotApplied),
            step(Operation::Register, Outcome::Success),
            step(Operation::Delete, Outcome::Success),
        ]
    );
    assert_eq!(
        mutation_plan(MutationScenario::modify(Branch::NotApplied)),
        vec![
            step(Operation::Register, Outcome::Success),
            step(Operation::Modify, Outcome::NotApplied),
            step(Operation::Modify, Outcome::Success),
            step(Operation::Modify, Outcome::Success),
            step(Operation::Delete, Outcome::Success),
        ]
    );
    assert_eq!(
        mutation_plan(MutationScenario::modify(Branch::Unknown)),
        vec![
            step(Operation::Register, Outcome::Success),
            step(Operation::Modify, Outcome::Unknown),
            step(Operation::Delete, Outcome::Success),
        ]
    );
    assert_eq!(
        mutation_plan(MutationScenario::delete(Branch::Applied)),
        vec![
            step(Operation::Register, Outcome::Success),
            step(Operation::Delete, Outcome::Applied),
            step(Operation::Register, Outcome::Success),
            step(Operation::Delete, Outcome::Success),
        ]
    );
    for scenario in MutationScenario::all() {
        let plan = mutation_plan(scenario);
        assert_eq!(
            plan.last(),
            Some(&step(Operation::Delete, Outcome::Success)),
            "{}",
            scenario.name()
        );
    }
}

#[test]
fn an_applied_failure_leaves_what_a_success_leaves() {
    for operation in [
        MutationOperation::Register,
        MutationOperation::Modify,
        MutationOperation::Delete,
    ] {
        assert_eq!(
            expected_after(MutationScenario::new(operation, Branch::Applied)),
            expected_after(MutationScenario::new(operation, Branch::Success))
        );
        assert_eq!(
            expected_after(MutationScenario::new(operation, Branch::Unknown)),
            (Some(RegistrationState::Uncertain), BackendState::Unknown)
        );
    }
    assert_eq!(
        expected_after(MutationScenario::modify(Branch::NotApplied)),
        (
            Some(RegistrationState::Registered {
                arm: ArmState::Disarmed
            }),
            BackendState::Registered {
                interest: InterestSet::readable(),
                mode: Mode::OneShot,
                arm: ArmState::Disarmed,
            }
        )
    );
    assert_eq!(
        expected_after(MutationScenario::register(Branch::NotApplied)),
        (None, BackendState::Absent)
    );
    assert_eq!(
        cleanup_call(MutationScenario::modify(Branch::Success)),
        (
            InterestSet::writable(),
            RegistrationState::Registered {
                arm: ArmState::Armed
            }
        )
    );
}

#[test]
fn the_expected_mutation_error_is_accepted() {
    let scenario = MutationScenario::modify(Branch::Applied);
    let accepted = error(
        PollError::Mutation {
            operation: Operation::Modify,
            commit: CommitStatus::Applied,
            kind: SourceKind::TimedOut,
        },
        "Mutation(..)",
    );
    assert!(expect_mutation(scenario, &accepted).is_ok());
}

#[test]
fn each_mutation_error_mismatch_names_its_checkpoint() {
    let scenario = MutationScenario::modify(Branch::Applied);
    let other = expect_mutation(scenario, &error(PollError::InvalidInterest, "InvalidInterest"))
        .unwrap_err();
    assert_eq!(other.check(), ConformanceCheck::Result);
    assert_eq!(other.expected(), "\"Error::Mutation\"");
    assert_eq!(other.actual(), "\"InvalidInterest\"");

    let wrong_operation = expect_mutation(
        scenario,
        &error(
            PollError::Mutation {
                operation: Operation::Delete,
                commit: CommitStatus::Applied,
                kind: SourceKind::TimedOut,
            },
            "",
        ),
    )
    .unwrap_err();
    assert_eq!(wrong_operation.check(), ConformanceCheck::Operation);
    assert_eq!(
        (wrong_operation.expected(), wrong_operation.actual()),
        ("Modify", "Delete")
    );

    let wrong_commit = expect_mutation(
        scenario,
        &error(
            PollError::Mutation {
                operation: Operation::Modify,
                commit: CommitStatus::Unknown,
                kind: SourceKind::TimedOut,
            },
            "",
        ),
    )
    .unwrap_err();
    assert_eq!(wrong_commit.check(), ConformanceCheck::Commit);
    assert_eq!(
        (wrong_commit.expected(), wrong_commit.actual()),
        ("Applied", "Unknown")
    );

    let wrong_source = expect_mutation(
        scenario,
        &error(
            PollError::Mutation {
                operation: Operation::Modify,
                commit: CommitStatus::Applied,
                kind: SourceKind::BrokenPipe,
            },
            "",
        ),
    )
    .unwrap_err();
    assert_eq!(wrong_source.check(), ConformanceCheck::Source);
    assert_eq!(
        (wrong_source.expected(), wrong_source.actual()),
        ("TimedOut", "BrokenPipe")
    );

    let success_branch = expect_mutation(
        MutationScenario::modify(Branch::Success),
        &error(
            PollError::Mutation {
                operation: Operation::Modify,
                commit: CommitStatus::Applied,
                kind: SourceKind::TimedOut,
            },
            "",
        ),
    )
    .unwrap_err();
    assert_eq!(success_branch.check(), ConformanceCheck::Commit);
    assert_eq!(
        (success_branch.expected(), success_branch.actual()),
        ("failed branch", "success branch")
    );
}

#[test]
fn state_backend_and_call_mismatches_render_debug_texts() {
    let scenario = MutationScenario::register(Branch::Success);
    let armed = RegistrationState::Registered {
        arm: ArmState::Armed,
    };
    assert!(expect_state(scenario, armed, &Ok(armed)).is_ok());
    let state = expect_state(scenario, armed, &Ok(RegistrationState::Uncertain)).unwrap_err();
    assert_eq!(state.check(), ConformanceCheck::State);
    assert_eq!(
        (state.expected(), state.actual()),
        ("Registered { arm: Armed }", "Uncertain")
    );

    let backend = expect_backend(
        scenario,
        BackendState::Registered {
            interest: InterestSet::readable(),
            mode: Mode::OneShot,
            arm: ArmState::Armed,
        },
        BackendState::Absent,
    )
    .unwrap_err();
    assert_eq!(
        backend.expected(),
        "Registered { interest: Interest(1), mode: OneShot, arm: Armed }"
    );
    assert_eq!(backend.actual(), "Absent");

    let call = MutationCall::Register {
        registration: id(3),
        key: Key::new(101),
        interest: InterestSet::readable(),
        mode: Mode::OneShot,
    };
    assert_eq!(
        render_call(call),
        "Register { registration: RegistrationId(3), key: Key(101), interest: Interest(1), mode: OneShot }"
    );
    assert!(expect_call(scenario, &[call], 0, call).is_ok());
    let missing = expect_call(scenario, &[call], 1, call).unwrap_err();
    assert_eq!(missing.check(), ConformanceCheck::Script);
    assert_eq!(missing.actual(), "\"no call at index 1\"");
    assert_eq!(
        render_backend(BackendState::Registered {
            interest: InterestSet::readable().union(InterestSet::writable()),
            mode: Mode::Level,
            arm: ArmState::Disarmed,
        }),
        "Registered { interest: Interest(3), mode: Level, arm: Disarmed }"
    );
}

#[test]
fn registration_calls_give_back_their_generation() {
    let scenario = MutationScenario::register(Branch::Success);
    let call = MutationCall::Register {
        registration: id(7),
        key: Key::new(101),
        interest: InterestSet::readable(),
        mode: Mode::OneShot,
    };
    assert_eq!(
        expect_register_call(scenario, &[call], 0, Key::new(101), InterestSet::readable(), Mode::OneShot)
            .unwrap(),
        id(7)
    );
    let wrong = expect_register_call(
        scenario,
        &[call],
        0,
        Key::new(202),
        InterestSet::readable(),
        Mode::OneShot,
    )
    .unwrap_err();
    assert_eq!(
        wrong.expected(),
        "\"Register { key: Key(202), interest: Interest(1), mode: OneShot }\""
    );
    let absent = expect_register_call(
        scenario,
        &[],
        0,
        Key::new(101),
        InterestSet::readable(),
        Mode::OneShot,
    )
    .unwrap_err();
    assert_eq!(
        (absent.expected(), absent.actual()),
        ("\"register call\"", "\"no call at index 0\"")
    );
}

#[test]
fn failed_registrations_must_lend_and_return_the_expected_handle() {
    let scenario = MutationScenario::register(Branch::Applied);
    let failure = |borrowed, returned| RegisterFailure {
        text: "registration refused".to_owned(),
        cause: error(PollError::Other, "cause"),
        borrowed,
        returned,
        returned_text: String::new(),
    };
    assert!(expect_failed_register(scenario, &Err(failure(Some(id(1)), Some(id(1)))), Some(id(1))).is_ok());
    let lent = expect_failed_register(scenario, &Err(failure(None, Some(id(1)))), Some(id(1)))
        .unwrap_err();
    assert_eq!(lent.check(), ConformanceCheck::Handle);
    assert_eq!((lent.expected(), lent.actual()), ("Some(RegistrationId(1))", "None"));
    let parts = expect_failed_register(scenario, &Err(failure(Some(id(1)), None)), Some(id(1)))
        .unwrap_err();
    assert_eq!(parts.check(), ConformanceCheck::IntoParts);
    let succeeded = expect_failed_register(scenario, &Ok(id(4)), Some(id(1))).unwrap_err();
    assert_eq!(succeeded.check(), ConformanceCheck::Result);
    assert_eq!(succeeded.actual(), "\"success with RegistrationId(4)\"");
}

#[test]
fn failed_deletions_must_return_the_handle_and_the_mutation_error() {
    let scenario = MutationScenario::delete(Branch::NotApplied);
    let cause = PollError::Mutation {
        operation: Operation::Delete,
        commit: CommitStatus::NotApplied,
        kind: SourceKind::BrokenPipe,
    };
    let failure = |borrowed, returned| DeleteFailure {
        cause: error(cause, "cause"),
        borrowed,
        returned,
        handles_text: String::new(),
    };
    assert!(expect_failed_delete(scenario, &Err(failure(id(2), id(2))), id(2)).is_ok());
    let returned = expect_failed_delete(scenario, &Err(failure(id(2), id(5))), id(2)).unwrap_err();
    assert_eq!(returned.check(), ConformanceCheck::IntoParts);
    assert_eq!(
        (returned.expected(), returned.actual()),
        ("RegistrationId(2)", "RegistrationId(5)")
    );
    let succeeded = expect_failed_delete(scenario, &Ok(()), id(2)).unwrap_err();
    assert_eq!(
        (succeeded.expected(), succeeded.actual()),
        ("\"deletion failure\"", "\"success\"")
    );
}

#[test]
fn retained_registrations_keep_consuming_capacity() {
    let scenario = MutationScenario::modify(Branch::Success);
    let rejected = |class| RegisterFailure {
        text: "registration refused".to_owned(),
        cause: error(class, "Capacity { limit: 2 }"),
        borrowed: None,
        returned: None,
        returned_text: String::new(),
    };
    assert!(expect_retained_capacity(
        scenario,
        4,
        4,
        &Err(rejected(PollError::RegistrationCapacity { limit: 1 }))
    )
    .is_ok());
    let backend = expect_retained_capacity(
        scenario,
        4,
        5,
        &Err(rejected(PollError::RegistrationCapacity { limit: 1 })),
    )
    .unwrap_err();
    assert_eq!(backend.check(), ConformanceCheck::CapacityRetention);
    assert_eq!(backend.actual(), "\"backend call\"");
    let limit = expect_retained_capacity(
        scenario,
        4,
        4,
        &Err(rejected(PollError::RegistrationCapacity { limit: 2 })),
    )
    .unwrap_err();
    assert_eq!(
        (limit.expected(), limit.actual()),
        ("\"Capacity { limit: 1 }\"", "\"Capacity { limit: 2 }\"")
    );
    let accepted = expect_retained_capacity(scenario, 4, 4, &Ok(id(9))).unwrap_err();
    assert_eq!(accepted.actual(), "\"registration succeeded\"");
}

#[test]
fn uncertain_and_stale_rejections_are_exact() {
    let scenario = MutationScenario::register(Branch::Unknown);
    let uncertain = Err(error(PollError::Uncertain { registration: id(1) }, ""));
    assert!(expect_uncertain_rejection(scenario, id(1), &uncertain, "", 3, 3).is_ok());
    let backend = expect_uncertain_rejection(scenario, id(1), &uncertain, "", 3, 4).unwrap_err();
    assert_eq!(backend.check(), ConformanceCheck::Script);
    let accepted = expect_uncertain_rejection(scenario, id(1), &Ok(()), "Ok(())", 3, 3).unwrap_err();
    assert_eq!(
        (accepted.expected(), accepted.actual()),
        ("\"Uncertain(RegistrationId(1))\"", "\"Ok(())\"")
    );

    let stale = Err(error(PollError::Stale { registration: id(6) }, ""));
    assert!(expect_stale(scenario, id(6), &stale, "").is_ok());
    let live = expect_stale(
        scenario,
        id(6),
        &Ok(RegistrationState::Uncertain),
        "Ok(Uncertain)",
    )
    .unwrap_err();
    assert_eq!(live.expected(), "\"Stale(RegistrationId(6))\"");
}

#[test]
fn handles_generations_and_scripts_are_checked() {
    let scenario = MutationScenario::delete(Branch::Success);
    assert!(expect_handle_id(scenario, id(1), id(1)).is_ok());
    let handle = expect_handle_id(scenario, id(2), id(1)).unwrap_err();
    assert_eq!(
        (handle.expected(), handle.actual()),
        ("RegistrationId(1)", "RegistrationId(2)")
    );
    assert!(expect_fresh_generation(scenario, ConformanceCheck::Handle, id(1), id(2)).is_ok());
    let reused = expect_fresh_generation(scenario, ConformanceCheck::Handle, id(1), id(1)).unwrap_err();
    assert_eq!(reused.expected(), "\"fresh registration generation\"");
    assert!(expect_finished(scenario, None).is_ok());
    let script = expect_finished(scenario, Some("1 remaining step")).unwrap_err();
    assert_eq!(
        (script.check(), script.expected(), script.actual()),
        (ConformanceCheck::Script, "fully consumed script", "1 remaining step")
    );
}

#[test]
fn failure_and_report_texts_are_stable() {
    let failure = ConformanceFailure::new(
        MutationScenario::delete(Branch::Unknown),
        ConformanceCheck::State,
        "Uncertain".to_owned(),
        "Absent".to_owned(),
    );
    assert_eq!(
        failure.to_text(),
        "delete.unknown failed State: expected Uncertain, observed Absent"
    );
    let scenarios = [
        MutationScenario::register(Branch::Success),
        MutationScenario::delete(Branch::Unknown),
    ];
    let report = report_of(&scenarios, vec![Ok(()), Err(failure.clone())]);
    assert_eq!(report.len(), 2);
    assert_eq!(report.passed(), 1);
    assert!(!report.is_conformant());
    assert_eq!(report.failures(), vec![&failure]);
    assert_eq!(
        report.to_text(),
        "zio mutation conformance: 1/2 passed\n- delete.unknown failed State: expected Uncertain, observed Absent"
    );
    assert_eq!(report.results()[0].scenario(), scenarios[0]);
    let (scenario, kept) = CaseResult::failed(failure.clone()).into_parts();
    assert_eq!((scenario, kept), (scenarios[1], Some(failure)));
    assert!(report_of(&scenarios[..1], vec![Ok(())]).into_result().is_ok());
}
