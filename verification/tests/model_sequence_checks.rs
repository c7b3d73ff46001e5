//! Step judgments of generated model sequences.

use zio_testkit::{
    model_sequence_expect::{
        expect_call_count, expect_delete_error, expect_invalid_interest, expect_mutation_result,
        expect_rejected_state, expect_rejection, expect_returned_handle, failed_register,
        last_register_id, successful_register, verify_active_state, verify_backend,
        verify_calls, verify_retired, DeleteFailure, ObservedError, PollError, RegisterFailure,
        Rejection,
    },
    planned_step, script_for, stranger_interest, stranger_key, stranger_mode, unconsumed_script,
    verify_stranger, ModelSequencePhase,
    Action, ArmState, BackendState, CommitStatus, InterestSet, Key, Mode, ModelSequenceCheck,
    MutationCall, Operation, Outcome, PlannedStep, ReferenceModel, RegistrationId,
    RegistrationState, SourceKind,
};

fn id(value: u64) -> RegistrationId {
    RegistrationId { value }
}

fn error(class: PollError, text: &str) -> ObservedError {
    ObservedError {
        class,
        text: text.to_owned(),
    }
}

fn mutation(operation: Operation, commit: CommitStatus, kind: SourceKind) -> PollError {
    PollError::Mutation {
        operation,
        commit,
        kind,
    }
}

#[test]
fn action_names_and_scripts_are_stable() {
    let register = Action::Register {
        outcome: Outcome::Applied,
        key: Key::new(0xab),
        interest: InterestSet::readable().union(InterestSet::writable()),
        mode: Mode::OneShot,
    };
    assert_eq!(
        register.name(),
        "register.applied.read_write.one_shot.key_00000000000000ab"
    );
    assert_eq!(Action::ProbeWrongPoller.name(), "probe.wrong_poller");
    assert_eq!(
        Action::ModifyInvalid { mode: Mode::Level }.name(),
        "modify.invalid_interest.level"
    );
    assert_eq!(
        planned_step(register),
        Some(PlannedStep {
            operation: Operation::Register,
            outcome: Outcome::Applied
        })
    );
    assert_eq!(planned_step(Action::Disarm), None);
    let actions = vec![
        register,
        Action::Disarm,
        Action::Delete {
            outcome: Outcome::Unknown,
        },
    ];
    assert_eq!(
        script_for(&actions),
        vec![
            PlannedStep {
                operation: Operation::Register,
                outcome: Outcome::Applied
            },
            PlannedStep {
                operation: Operation::Delete,
                outcome: Outcome::Unknown
            },
        ]
    );
}

#[test]
fn call_counts_and_invalid_interests_are_checked() {
    assert!(expect_call_count(3, 3, "set_key").is_ok());
    let changed = expect_call_count(3, 4, "set_key").unwrap_err();
    assert_eq!(changed.check, ModelSequenceCheck::Calls);
    assert_eq!(
        (changed.expected.as_str(), changed.actual.as_str()),
        ("3 calls before set_key", "4 calls after set_key")
    );
    assert!(expect_invalid_interest(&error(PollError::InvalidInterest, "")).is_ok());
    let other = expect_invalid_interest(&error(PollError::Other, "Invariant")).unwrap_err();
    assert_eq!(
        (other.check, other.expected.as_str(), other.actual.as_str()),
        (ModelSequenceCheck::Result, "\"InvalidInterest\"", "Invariant")
    );
}

#[test]
fn mutation_results_follow_the_planned_outcome() {
    assert!(expect_mutation_result(Ok(()), Outcome::Success, Operation::Modify, SourceKind::TimedOut).is_ok());
    let failed = expect_mutation_result(
        Err(error(PollError::Other, "Invariant")),
        Outcome::Success,
        Operation::Modify,
        SourceKind::TimedOut,
    )
    .unwrap_err();
    assert_eq!(failed.check, ModelSequenceCheck::Result);
    let planned = mutation(Operation::Modify, CommitStatus::Unknown, SourceKind::TimedOut);
    assert!(expect_mutation_result(
        Err(error(planned, "")),
        Outcome::Unknown,
        Operation::Modify,
        SourceKind::TimedOut
    )
    .is_ok());
    let commit = expect_mutation_result(
        Err(error(
            mutation(Operation::Modify, CommitStatus::Applied, SourceKind::TimedOut),
            "Mutation(Applied)",
        )),
        Outcome::Unknown,
        Operation::Modify,
        SourceKind::TimedOut,
    )
    .unwrap_err();
    assert_eq!(
        (commit.check, commit.expected.as_str(), commit.actual.as_str()),
        (ModelSequenceCheck::Commit, "Modify/Unknown/TimedOut", "Mutation(Applied)")
    );
    let succeeded = expect_mutation_result(Ok(()), Outcome::NotApplied, Operation::Modify, SourceKind::TimedOut)
        .unwrap_err();
    assert_eq!(succeeded.expected, "\"mutation failure\"");
}

#[test]
fn registrations_keep_their_generation_and_handles() {
    assert_eq!(successful_register(Ok(id(2)), id(2)).unwrap(), id(2));
    let other = successful_register(Ok(id(3)), id(2)).unwrap_err();
    assert_eq!(other.check, ModelSequenceCheck::Handle);
    let failure = |returned| RegisterFailure {
        text: "registration refused".to_owned(),
        cause: error(
            mutation(Operation::Register, CommitStatus::Applied, SourceKind::PermissionDenied),
            "",
        ),
        borrowed: returned,
        returned,
        returned_text: String::new(),
    };
    assert_eq!(
        failed_register(Err(failure(Some(id(5)))), Outcome::Applied, id(5)).unwrap(),
        Some(id(5))
    );
    let lost = failed_register(Err(failure(None)), Outcome::Applied, id(5)).unwrap_err();
    assert_eq!(
        (lost.check, lost.actual.as_str()),
        (ModelSequenceCheck::Handle, "\"no handle\"")
    );
    let succeeded = failed_register(Ok(id(5)), Outcome::Applied, id(5)).unwrap_err();
    assert_eq!(succeeded.check, ModelSequenceCheck::Result);

    let call = MutationCall::Register {
        registration: id(5),
        key: Key::new(16),
        interest: InterestSet::writable(),
        mode: Mode::Level,
    };
    assert_eq!(
        last_register_id(Some(call), "", Key::new(16), InterestSet::writable(), Mode::Level).unwrap(),
        id(5)
    );
    let wrong = last_register_id(None, "None", Key::new(16), InterestSet::writable(), Mode::Level)
        .unwrap_err();
    assert_eq!(
        (wrong.check, wrong.expected.as_str(), wrong.actual.as_str()),
        (ModelSequenceCheck::Calls, "Register(Key(16), Interest(2), Level)", "None")
    );
}

#[test]
fn deletions_and_probes_are_rejected_exactly() {
    let cause = mutation(Operation::Delete, CommitStatus::NotApplied, SourceKind::BrokenPipe);
    let failure = |returned| DeleteFailure {
        cause: error(cause, ""),
        borrowed: id(1),
        returned,
        handles_text: "RegistrationId(1) / RegistrationId(2)".to_owned(),
    };
    assert!(expect_delete_error(Err(failure(id(1))), Outcome::NotApplied, id(1)).is_ok());
    let swapped = expect_delete_error(Err(failure(id(2))), Outcome::NotApplied, id(1)).unwrap_err();
    assert_eq!(
        (swapped.check, swapped.actual.as_str()),
        (ModelSequenceCheck::Handle, "RegistrationId(1) / RegistrationId(2)")
    );

    let stale = Err(error(PollError::Stale { registration: id(1) }, ""));
    assert!(expect_rejection(Rejection::Stale, stale, "", id(1)).is_ok());
    let wrong = expect_rejection(Rejection::WrongPoller, Ok(()), "Ok(())", id(1)).unwrap_err();
    assert_eq!(
        (wrong.expected.as_str(), wrong.actual.as_str()),
        ("\"WrongPoller(RegistrationId(1))\"", "\"Ok(())\"")
    );
    let live = expect_rejected_state(
        Rejection::Stale,
        Ok(RegistrationState::Uncertain),
        "Uncertain",
        id(1),
    )
    .unwrap_err();
    assert_eq!(live.expected, "\"Stale state error\"");
    assert!(expect_returned_handle(id(1), id(1)).is_ok());
    assert!(expect_returned_handle(id(1), id(2)).is_err());
}

#[test]
fn full_state_comparisons_follow_the_model() {
    let mut model = ReferenceModel::new();
    let key = Key::new(1);
    model
        .record_register(id(1), key, InterestSet::readable(), Mode::Level)
        .unwrap();
    model
        .complete_register(Outcome::Success, Some(id(1)), key, InterestSet::readable(), Mode::Level)
        .unwrap();
    let calls = model.calls().to_vec();
    assert!(verify_calls(&model, &calls, "model", "backend").is_ok());
    let diverged = verify_calls(&model, &[], "model", "backend").unwrap_err();
    assert_eq!(
        (diverged.check, diverged.expected.as_str(), diverged.actual.as_str()),
        (ModelSequenceCheck::Calls, "model", "backend")
    );
    let armed = RegistrationState::Registered {
        arm: ArmState::Armed,
    };
    assert!(verify_active_state(&model, Ok(armed), "").is_ok());
    let uncertain = verify_active_state(&model, Ok(RegistrationState::Uncertain), "Ok(Uncertain)")
        .unwrap_err();
    assert_eq!(uncertain.expected, "Registered { arm: Armed }");
    let installed = BackendState::Registered {
        interest: InterestSet::readable(),
        mode: Mode::Level,
        arm: ArmState::Armed,
    };
    assert!(verify_backend(&model, id(1), installed, "", "").is_ok());
    assert_eq!(
        verify_backend(&model, id(1), BackendState::Absent, "e", "a")
            .unwrap_err()
            .check,
        ModelSequenceCheck::Backend
    );
    let retired = verify_retired(id(1), Ok(armed), "Ok(..)").unwrap_err();
    assert_eq!(retired.expected, "Stale(RegistrationId(1))");
    assert!(verify_retired(id(1), Err(error(PollError::Stale { registration: id(1) }, "")), "").is_ok());
}

#[test]
fn the_stranger_poller_stays_untouched() {
    assert_eq!(stranger_key(), Key::new(0x5a10_ffff_ffff_ffff));
    let installed = BackendState::Registered {
        interest: stranger_interest(),
        mode: stranger_mode(),
        arm: ArmState::Armed,
    };
    let armed = Ok(RegistrationState::Registered {
        arm: ArmState::Armed,
    });
    assert!(verify_stranger(&armed, installed, 1).is_ok());
    let touched = verify_stranger(&armed, installed, 2).unwrap_err();
    assert_eq!(
        (touched.check, touched.expected.as_str(), touched.actual.as_str()),
        (ModelSequenceCheck::Calls, "one stranger setup call", "2 calls")
    );
    let removed = verify_stranger(&armed, BackendState::Absent, 1).unwrap_err();
    assert_eq!(
        removed.expected,
        "Registered { interest: Interest(1), mode: Level, arm: Armed }"
    );
    let lost = verify_stranger(&Err(error(PollError::Other, "Invariant")), installed, 1).unwrap_err();
    assert_eq!(
        (lost.check, lost.expected.as_str()),
        (ModelSequenceCheck::Result, "\"registered stranger handle\"")
    );
}

#[test]
fn an_unconsumed_script_fails_the_finalize_phase() {
    let trace = vec!["probe.stale".to_owned()];
    let main = unconsumed_script(11, &trace, false, "ScriptIncomplete");
    assert_eq!(main.phase(), ModelSequencePhase::Finalize);
    assert_eq!(main.check(), ModelSequenceCheck::Calls);
    assert_eq!(main.expected(), "\"consumed script\"");
    assert_eq!(main.actual(), "ScriptIncomplete");
    assert_eq!(main.trace(), trace.as_slice());
    let stranger = unconsumed_script(11, &trace, true, "ScriptIncomplete");
    assert_eq!(stranger.expected(), "\"consumed stranger script\"");
    assert_eq!(stranger.step(), None);
}
