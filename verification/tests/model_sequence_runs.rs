//! Generated model sequences driven on zio's own scripted pollers through
//! the library's action steps.

use zio::test_support::{
    MutationCall as ZioCall, MutationOutcome, MutationStep, ScriptedBackendState, ScriptedPoll,
};
use zio_testkit::{
    corpus_seed, generate,
    model_sequence_expect::{
        render_id, verify_active_state, verify_backend, verify_calls, verify_retired,
    },
    model_sequence_sentinel_seeds,
    model_sequence_step as step,
    render_backend, script_for, stranger_interest, stranger_key, stranger_mode, unconsumed_script,
    verification_queries, verify_stranger, Action, ArmState, BackendState, CommitStatus,
    DeleteFailure, Divergence, InterestSet, Key, Mode, ModelSequenceCheck, ModelSequenceFailure,
    ModelSequencePhase, MutationCall, ObservedError, Operation, Outcome, PlannedStep, PollError,
    ProbeAnswers, ReferenceModel, RegisterFailure, RegistrationId, RegistrationState, Rejection,
    SequenceQuery, SourceKind, CORPUS_SIZE,
};

#[derive(Default)]
struct Ids {
    known: Vec<zio::RegistrationId>,
}

impl Ids {
    fn id(&mut self, id: zio::RegistrationId) -> RegistrationId {
        let index = match self.known.iter().position(|known| *known == id) {
            Some(index) => index,
            None => {
                self.known.push(id);
                self.known.len() - 1
            }
        };
        RegistrationId {
            value: index as u64 + 1,
        }
    }

}

fn native_interest(interest: InterestSet) -> zio::Interest {
    let mut native = zio::Interest::EMPTY;
    if interest.readable {
        native = native.union(zio::Interest::READABLE);
    }
    if interest.writable {
        native = native.union(zio::Interest::WRITABLE);
    }
    native
}

fn interest_from(interest: zio::Interest) -> InterestSet {
    InterestSet {
        readable: interest.contains(zio::Interest::READABLE),
        writable: interest.contains(zio::Interest::WRITABLE),
    }
}

fn native_mode(mode: Mode) -> zio::Mode {
    match mode {
        Mode::Level => zio::Mode::Level,
        Mode::OneShot => zio::Mode::OneShot,
    }
}

fn mode_from(mode: zio::Mode) -> Mode {
    match mode {
        zio::Mode::Level => Mode::Level,
        zio::Mode::OneShot => Mode::OneShot,
    }
}

fn arm_from(arm: zio::ArmState) -> ArmState {
    match arm {
        zio::ArmState::Armed => ArmState::Armed,
        zio::ArmState::Disarmed => ArmState::Disarmed,
    }
}

fn state_from(state: zio::RegistrationState) -> RegistrationState {
    match state {
        zio::RegistrationState::Registered { arm } => RegistrationState::Registered {
            arm: arm_from(arm),
        },
        zio::RegistrationState::Uncertain => RegistrationState::Uncertain,
    }
}

fn backend_from(state: ScriptedBackendState) -> BackendState {
    match state {
        ScriptedBackendState::Absent => BackendState::Absent,
        ScriptedBackendState::Registered {
            interest,
            mode,
            arm,
        } => BackendState::Registered {
            interest: interest_from(interest),
            mode: mode_from(mode),
            arm: arm_from(arm),
        },
        ScriptedBackendState::Unknown => BackendState::Unknown,
    }
}

fn calls_from(ids: &mut Ids, calls: &[ZioCall]) -> Vec<MutationCall> {
    calls
        .iter()
        .map(|call| match *call {
            ZioCall::Register {
                registration,
                key,
                interest,
                mode,
            } => MutationCall::Register {
                registration: ids.id(registration),
                key: Key::new(key.get()),
                interest: interest_from(interest),
                mode: mode_from(mode),
            },
            ZioCall::Modify {
                registration,
                previous_interest,
                previous_mode,
                previous_arm,
                desired_interest,
                desired_mode,
            } => MutationCall::Modify {
                registration: ids.id(registration),
                previous_interest: interest_from(previous_interest),
                previous_mode: mode_from(previous_mode),
                previous_arm: arm_from(previous_arm),
                desired_interest: interest_from(desired_interest),
                desired_mode: mode_from(desired_mode),
            },
            ZioCall::Delete {
                registration,
                interest,
                state,
            } => MutationCall::Delete {
                registration: ids.id(registration),
                interest: interest_from(interest),
                state: state_from(state),
            },
            ZioCall::EstablishDisarmed { registration } => MutationCall::EstablishDisarmed {
                registration: ids.id(registration),
            },
        })
        .collect()
}

fn error_from(ids: &mut Ids, error: &zio::Error) -> ObservedError {
    let class = match error {
        zio::Error::Mutation(mutation) => {
            let operation = match mutation.operation() {
                zio::Operation::Register => Some(Operation::Register),
                zio::Operation::Modify => Some(Operation::Modify),
                zio::Operation::Delete => Some(Operation::Delete),
                _ => None,
            };
            match operation {
                Some(operation) => PollError::Mutation {
                    operation,
                    commit: match mutation.commit() {
                        zio::CommitStatus::NotApplied => CommitStatus::NotApplied,
                        zio::CommitStatus::Applied => CommitStatus::Applied,
                        zio::CommitStatus::Unknown => CommitStatus::Unknown,
                    },
                    kind: match mutation.source().kind() {
                        std::io::ErrorKind::PermissionDenied => SourceKind::PermissionDenied,
                        std::io::ErrorKind::TimedOut => SourceKind::TimedOut,
                        std::io::ErrorKind::BrokenPipe => SourceKind::BrokenPipe,
                        _ => SourceKind::Other,
                    },
                },
                None => PollError::Other,
            }
        }
        zio::Error::InvalidInterest => PollError::InvalidInterest,
        zio::Error::Stale { registration } => PollError::Stale {
            registration: ids.id(*registration),
        },
        zio::Error::WrongPoller { registration } => PollError::WrongPoller {
            registration: ids.id(*registration),
        },
        zio::Error::Uncertain { registration } => PollError::Uncertain {
            registration: ids.id(*registration),
        },
        zio::Error::Capacity { limit } => PollError::RegistrationCapacity {
            limit: *limit as u64,
        },
        _ => PollError::Other,
    };
    ObservedError {
        class,
        text: format!("{error:?}"),
    }
}

fn unit_result(ids: &mut Ids, result: &Result<(), zio::Error>) -> Result<(), ObservedError> {
    result.as_ref().map(|_| ()).map_err(|error| error_from(ids, error))
}

fn register_result(
    ids: &mut Ids,
    result: Result<zio::Registration, zio::RegisterError>,
) -> (
    Result<RegistrationId, RegisterFailure>,
    Option<zio::Registration>,
) {
    match result {
        Ok(registration) => (Ok(ids.id(registration.id())), Some(registration)),
        Err(error) => {
            let text = format!("{error:?}");
            let borrowed = error.registration().map(|registration| ids.id(registration.id()));
            let (cause, returned) = error.into_parts();
            let failure = RegisterFailure {
                text,
                cause: error_from(ids, &cause),
                borrowed,
                returned: returned.as_ref().map(|registration| ids.id(registration.id())),
                returned_text: format!("{returned:?}"),
            };
            (Err(failure), returned)
        }
    }
}

fn native_step(step: PlannedStep) -> MutationStep {
    let outcome = match step.outcome {
        Outcome::Success => MutationOutcome::Success,
        failed => MutationOutcome::Failure {
            commit: match failed {
                Outcome::NotApplied => zio::CommitStatus::NotApplied,
                Outcome::Applied => zio::CommitStatus::Applied,
                _ => zio::CommitStatus::Unknown,
            },
            kind: match step.operation {
                Operation::Register => std::io::ErrorKind::PermissionDenied,
                Operation::Modify => std::io::ErrorKind::TimedOut,
                Operation::Delete => std::io::ErrorKind::BrokenPipe,
            },
        },
    };
    match step.operation {
        Operation::Register => MutationStep::Register(outcome),
        Operation::Modify => MutationStep::Modify(outcome),
        Operation::Delete => MutationStep::Delete(outcome),
    }
}

struct Context {
    poll: ScriptedPoll,
    stranger: ScriptedPoll,
    stranger_registration: zio::Registration,
    model: ReferenceModel,
    ids: Ids,
    handles: Vec<(RegistrationId, zio::Registration)>,
    pipes: Vec<(mio::unix::pipe::Sender, mio::unix::pipe::Receiver)>,
}

impl Context {
    fn new(actions: &[Action]) -> Context {
        let steps: Vec<_> = script_for(&actions.to_vec()).into_iter().map(native_step).collect();
        let poll = ScriptedPoll::with_capacity(1, steps).expect("scripted poll");
        let mut stranger = ScriptedPoll::with_capacity(
            1,
            [native_step(PlannedStep {
                operation: Operation::Register,
                outcome: Outcome::Success,
            })],
        )
        .expect("stranger poll");
        let pipe = mio::unix::pipe::new().expect("pipe");
        let stranger_registration = stranger
            .register(
                &pipe.0,
                zio::Key::new(stranger_key().get()),
                native_interest(stranger_interest()),
                native_mode(stranger_mode()),
            )
            .expect("stranger registration");
        Context {
            poll,
            stranger,
            stranger_registration,
            model: ReferenceModel::new(),
            ids: Ids::default(),
            handles: Vec::new(),
            pipes: vec![pipe],
        }
    }

    fn handle(&self, id: RegistrationId) -> zio::Registration {
        self.handles
            .iter()
            .find(|(known, _)| *known == id)
            .map(|(_, registration)| *registration)
            .expect("known handle")
    }

    fn retain(&mut self, registration: zio::Registration) {
        let id = self.ids.id(registration.id());
        if !self.handles.iter().any(|(known, _)| *known == id) {
            self.handles.push((id, registration));
        }
    }

    fn source(&mut self) -> usize {
        self.pipes.push(mio::unix::pipe::new().expect("pipe"));
        self.pipes.len() - 1
    }
}

fn delete_result(
    context: &mut Context,
    result: Result<(), zio::DeleteError>,
) -> Result<(), DeleteFailure> {
    match result {
        Ok(()) => Ok(()),
        Err(error) => {
            let borrowed = error.registration().id();
            let (cause, returned) = error.into_parts();
            let failure = DeleteFailure {
                cause: error_from(&mut context.ids, &cause),
                borrowed: context.ids.id(borrowed),
                returned: context.ids.id(returned.id()),
                handles_text: format!("{borrowed:?} / {:?}", returned.id()),
            };
            context.retain(returned);
            Err(failure)
        }
    }
}

fn probe(
    ids: &mut Ids,
    poll: &mut ScriptedPoll,
    handle: zio::Registration,
    rejection: Rejection,
) -> ProbeAnswers {
    let calls_before = poll.calls().len();
    let state = poll.registration_state(&handle);
    let state_text = format!("{state:?}");
    let state = match &state {
        Ok(state) => Ok(state_from(*state)),
        Err(error) => Err(error_from(ids, error)),
    };
    let (interest, mode) = step::probe_modification(rejection);
    let modified = poll.modify(&handle, native_interest(interest), native_mode(mode));
    let modified_text = format!("{modified:?}");
    let modified = unit_result(ids, &modified);
    let (deleted, deleted_text) = match poll.delete(handle) {
        Ok(()) => (None, String::new()),
        Err(error) => {
            let (cause, returned) = error.into_parts();
            let text = format!("{:?}", Err::<(), _>(&cause));
            let returned = ids.id(returned.id());
            (Some((returned, error_from(ids, &cause))), text)
        }
    };
    let calls_after = poll.calls().len();
    ProbeAnswers {
        state,
        state_text,
        modified,
        modified_text,
        deleted,
        deleted_text,
        calls_before,
        calls_after,
    }
}

fn execute(context: &mut Context, action: Action) -> Result<(), Divergence> {
    match action {
        Action::Register {
            outcome,
            key,
            interest,
            mode,
        } => {
            step::vacant_slot(&context.model)?;
            let source = context.source();
            let result = context.poll.register(
                &context.pipes[source].0,
                zio::Key::new(key.get()),
                native_interest(interest),
                native_mode(mode),
            );
            let last = context.poll.calls().last().copied();
            let last_text = format!("{last:?}");
            let last = last.map(|call| calls_from(&mut context.ids, &[call])[0]);
            let (converted, handle) = register_result(&mut context.ids, result);
            if let Some(handle) = handle {
                context.retain(handle);
            }
            step::register_step(&mut context.model, outcome, key, interest, mode, last, &last_text, converted)
        }
        Action::RegisterInvalid { key, mode } => {
            step::vacant_slot(&context.model)?;
            let source = context.source();
            let before = context.poll.calls().len();
            let result = context.poll.register(
                &context.pipes[source].0,
                zio::Key::new(key.get()),
                zio::Interest::EMPTY,
                native_mode(mode),
            );
            let after = context.poll.calls().len();
            let (converted, _) = register_result(&mut context.ids, result);
            step::register_invalid_step(&converted, before, after)
        }
        Action::Disarm => {
            let id = step::disarm_step(&mut context.model)?;
            let result = context.poll.establish_disarmed(&context.handle(id));
            let result = unit_result(&mut context.ids, &result);
            step::disarm_answer(&result)
        }
        Action::SetKey { key } => step::set_key_step(&mut context.model, key),
        Action::Modify {
            outcome,
            interest,
            mode,
        } => {
            let entry = step::modify_step(&mut context.model, interest, mode)?;
            let result = context.poll.modify(
                &context.handle(entry.registration),
                native_interest(interest),
                native_mode(mode),
            );
            let result = unit_result(&mut context.ids, &result);
            step::modify_answer(&mut context.model, outcome, interest, mode, result)
        }
        Action::ModifyInvalid { mode } => {
            let id = step::modify_invalid_step(&context.model)?;
            let before = context.poll.calls().len();
            let result = context
                .poll
                .modify(&context.handle(id), zio::Interest::EMPTY, native_mode(mode));
            let after = context.poll.calls().len();
            let result = unit_result(&mut context.ids, &result);
            step::modify_invalid_answer(&result, before, after)
        }
        Action::Delete { outcome } => {
            let entry = step::delete_step(&mut context.model)?;
            let result = context.poll.delete(context.handle(entry.registration));
            let error_text = match &result {
                Ok(()) => String::new(),
                Err(error) => format!("{error:?}"),
            };
            let result = delete_result(context, result);
            step::delete_answer(&mut context.model, outcome, result, &error_text)
        }
        Action::ProbeStale => {
            let id = step::stale_probe_step(&context.model)?;
            let handle = context.handle(id);
            let answers = probe(&mut context.ids, &mut context.poll, handle, Rejection::Stale);
            step::probe_answer(Rejection::Stale, id, answers)
        }
        Action::ProbeWrongPoller => {
            let id = step::wrong_poller_probe_step(&context.model)?;
            let handle = context.handle(id);
            let answers = probe(&mut context.ids, &mut context.stranger, handle, Rejection::WrongPoller);
            step::probe_answer(Rejection::WrongPoller, id, answers)
        }
    }
}

fn verify(context: &mut Context) -> Result<(), Divergence> {
    for query in verification_queries(&context.model) {
        match query {
            SequenceQuery::Calls => {
                let actual = calls_from(&mut context.ids, context.poll.calls());
                let expected_text = format!("{:?}", context.model.calls());
                let actual_text = format!("{:?}", context.poll.calls());
                verify_calls(&context.model, &actual, &expected_text, &actual_text)?;
            }
            SequenceQuery::ActiveState(id) => {
                let state = context.poll.registration_state(&context.handle(id));
                let text = format!("{state:?}");
                let state = match &state {
                    Ok(state) => Ok(state_from(*state)),
                    Err(error) => Err(error_from(&mut context.ids, error)),
                };
                verify_active_state(&context.model, state, &text)?;
            }
            SequenceQuery::Backend(id) => {
                let expected = context.model.expected_backend(id);
                let actual = match context.handles.iter().find(|(known, _)| *known == id) {
                    Some((_, registration)) => {
                        backend_from(context.poll.backend_state(registration.id()))
                    }
                    None => BackendState::Absent,
                };
                let label = render_id(id);
                let expected_text = format!("{label}: {}", render_backend(expected));
                let actual_text = format!("{label}: {}", render_backend(actual));
                verify_backend(&context.model, id, actual, &expected_text, &actual_text)?;
            }
            SequenceQuery::Retired(id) => {
                let state = context.poll.registration_state(&context.handle(id));
                let text = format!("{state:?}");
                let state = match &state {
                    Ok(state) => Ok(state_from(*state)),
                    Err(error) => Err(error_from(&mut context.ids, error)),
                };
                verify_retired(id, state, &text)?;
            }
            SequenceQuery::Stranger => {
                let state = context
                    .stranger
                    .registration_state(&context.stranger_registration);
                let state = match &state {
                    Ok(state) => Ok(state_from(*state)),
                    Err(error) => Err(error_from(&mut context.ids, error)),
                };
                let backend = backend_from(
                    context
                        .stranger
                        .backend_state(context.stranger_registration.id()),
                );
                verify_stranger(&state, backend, context.stranger.calls().len())?;
            }
        }
    }
    Ok(())
}

fn run_program(seed: u64, actions: &[Action]) -> Result<(), ModelSequenceFailure> {
    let mut trace: Vec<String> = Vec::new();
    let mut context = Context::new(actions);
    for (index, action) in actions.iter().copied().enumerate() {
        trace.push(action.name());
        let phase = ModelSequencePhase::Action { index };
        execute(&mut context, action)
            .map_err(|divergence| ModelSequenceFailure::from_divergence(seed, phase, &trace, divergence))?;
        verify(&mut context)
            .map_err(|divergence| ModelSequenceFailure::from_divergence(seed, phase, &trace, divergence))?;
    }
    for (poll, stranger) in [(&context.poll, false), (&context.stranger, true)] {
        if let Err(error) = poll.finish() {
            return Err(unconsumed_script(seed, &trace, stranger, &format!("{error:?}")));
        }
    }
    Ok(())
}

#[test]
fn failing_sequence_keeps_seed_and_minimal_replay_prefix() {
    let seed = model_sequence_sentinel_seeds()[0];
    let actions = [Action::Disarm, Action::ProbeStale];
    let first = run_program(seed, &actions).expect_err("deterministic failure");
    let second = run_program(seed, &actions).expect_err("deterministic failure");
    assert_eq!(first.to_text(), second.to_text(), "deterministic failure");
    assert_eq!(first.seed(), seed, "replay seed");
    assert_eq!(first.step(), Some(0), "first failing step");
    assert_eq!(first.phase(), ModelSequencePhase::Action { index: 0 }, "failure phase");
    assert_eq!(first.trace(), ["delivery.disarm".to_owned()].as_slice(), "minimal replay prefix");
    assert_eq!(first.check(), ModelSequenceCheck::Precondition, "failure checkpoint");
}

#[test]
fn sentinel_sequences_pass_on_the_scripted_poller() {
    for seed in model_sequence_sentinel_seeds() {
        let program = generate(seed);
        if let Err(failure) = run_program(seed, &program.actions) {
            panic!("{}", failure.to_text());
        }
    }
}

#[test]
fn corpus_sequences_pass_on_the_scripted_poller() {
    for index in 0..CORPUS_SIZE {
        let seed = corpus_seed(index);
        let program = generate(seed);
        if let Err(failure) = run_program(seed, &program.actions) {
            panic!("{}", failure.to_text());
        }
    }
}

#[test]
fn a_stale_probe_without_a_retired_handle_is_a_precondition_failure() {
    let failure = run_program(7, &[Action::ProbeStale]).expect_err("no retired handle");
    assert_eq!(failure.check(), ModelSequenceCheck::Precondition);
    assert_eq!(failure.expected(), "\"retired handle\"");
    assert_eq!(failure.actual(), "\"no retired handle\"");
}

fn scripted(steps: &[MutationStep]) -> ScriptedPoll {
    ScriptedPoll::with_capacity(1, steps.to_vec()).expect("scripted poll")
}

#[test]
fn invalid_register_does_not_consume_a_generation() {
    let steps = [MutationStep::Register(MutationOutcome::Success)];
    let mut subject = scripted(&steps);
    let mut control = scripted(&steps);
    let (subject_source, _subject_reader) = mio::unix::pipe::new().expect("pipe");
    let (control_source, _control_reader) = mio::unix::pipe::new().expect("pipe");
    let key = zio::Key::new(0x5a10_0000_0000_0001);
    let mut ids = Ids::default();

    let before = subject.calls().len();
    let result = subject.register(&subject_source, key, zio::Interest::EMPTY, zio::Mode::Level);
    let after = subject.calls().len();
    let (converted, returned) = register_result(&mut ids, result);
    assert!(returned.is_none(), "invalid registration return");
    step::register_invalid_step(&converted, before, after).expect("invalid registration judged");
    assert_eq!(subject.calls().len(), 0, "invalid registration calls");

    let subject_registration = subject
        .register(&subject_source, key, zio::Interest::READABLE, zio::Mode::Level)
        .expect("subject registration");
    let control_registration = control
        .register(&control_source, key, zio::Interest::READABLE, zio::Mode::Level)
        .expect("control registration");
    assert_eq!(
        subject_registration.id(),
        control_registration.id(),
        "first valid generation after invalid preflight"
    );
    assert_eq!(subject.calls(), control.calls(), "valid registration call");
    subject.finish().expect("subject script");
    control.finish().expect("control script");
}

#[test]
fn invalid_modify_preserves_the_exact_prior_tuple() {
    let steps = [
        MutationStep::Register(MutationOutcome::Success),
        MutationStep::Modify(MutationOutcome::Success),
    ];
    let mut poll = scripted(&steps);
    let (source, _reader) = mio::unix::pipe::new().expect("pipe");
    let registration = poll
        .register(
            &source,
            zio::Key::new(0x5a10_0000_0000_0002),
            zio::Interest::READABLE,
            zio::Mode::OneShot,
        )
        .expect("registration");
    poll.establish_disarmed(&registration).expect("disarm");

    let prior_state = poll.registration_state(&registration).expect("prior state");
    let prior_backend = poll.backend_state(registration.id());
    let prior_calls = poll.calls().to_vec();
    assert_eq!(
        prior_state,
        zio::RegistrationState::Registered {
            arm: zio::ArmState::Disarmed
        },
        "disarmed portable state"
    );
    assert_eq!(
        prior_backend,
        ScriptedBackendState::Registered {
            interest: zio::Interest::READABLE,
            mode: zio::Mode::OneShot,
            arm: zio::ArmState::Disarmed,
        },
        "disarmed backend tuple"
    );

    let mut ids = Ids::default();
    let before = poll.calls().len();
    let result = poll.modify(&registration, zio::Interest::EMPTY, zio::Mode::Level);
    let after = poll.calls().len();
    assert!(result.is_err(), "invalid modification unexpectedly succeeded");
    let result = unit_result(&mut ids, &result);
    step::modify_invalid_answer(&result, before, after).expect("invalid modification judged");
    assert_eq!(
        poll.registration_state(&registration).expect("state"),
        prior_state,
        "portable state after invalid modification"
    );
    assert_eq!(
        poll.backend_state(registration.id()),
        prior_backend,
        "backend tuple after invalid modification"
    );
    assert_eq!(poll.calls(), prior_calls.as_slice(), "calls after invalid modification");

    poll.modify(&registration, zio::Interest::WRITABLE, zio::Mode::Level)
        .expect("valid modification");
    poll.finish().expect("script");
}

#[test]
fn a_registration_answered_by_another_call_diverges_on_the_calls() {
    let mut model = ReferenceModel::new();
    let key = Key::new(9);
    let readable = InterestSet::readable();
    let last = Some(MutationCall::Register {
        registration: RegistrationId { value: 1 },
        key: Key::new(10),
        interest: readable,
        mode: Mode::Level,
    });
    let divergence = step::register_step(
        &mut model,
        Outcome::Success,
        key,
        readable,
        Mode::Level,
        last,
        "Some(Register { .. })",
        Ok(RegistrationId { value: 1 }),
    )
    .expect_err("mismatched call");
    assert_eq!(divergence.check, ModelSequenceCheck::Calls);
    assert_eq!(divergence.expected, "Register(Key(9), Interest(1), Level)");
    assert_eq!(divergence.actual, "Some(Register { .. })");
    assert!(model.active().is_none());
}

#[test]
fn an_applied_registration_installs_an_armed_entry() {
    let mut model = ReferenceModel::new();
    let key = Key::new(9);
    let readable = InterestSet::readable();
    let id = RegistrationId { value: 3 };
    let last = Some(MutationCall::Register {
        registration: id,
        key,
        interest: readable,
        mode: Mode::OneShot,
    });
    let failure = RegisterFailure {
        text: "registration refused".to_owned(),
        cause: ObservedError {
            class: PollError::Mutation {
                operation: Operation::Register,
                commit: CommitStatus::Applied,
                kind: SourceKind::PermissionDenied,
            },
            text: "applied".to_owned(),
        },
        borrowed: Some(id),
        returned: Some(id),
        returned_text: String::new(),
    };
    step::register_step(&mut model, Outcome::Applied, key, readable, Mode::OneShot, last, "", Err(failure))
        .expect("applied registration");
    let entry = model.active().expect("active entry");
    assert_eq!(entry.registration, id);
    assert_eq!(
        entry.state,
        RegistrationState::Registered {
            arm: ArmState::Armed
        }
    );
    assert_eq!(model.issued(), [id].as_slice());
    assert_eq!(step::disarm_step(&mut model).expect("one-shot disarm"), id);
    let divergence = step::disarm_step(&mut model).expect_err("already disarmed");
    assert_eq!(divergence.check, ModelSequenceCheck::Precondition);
    assert_eq!(divergence.expected, "\"armed one-shot handle\"");
    assert_eq!(
        divergence.actual,
        "\"disarm requires an armed one-shot registration\""
    );
}

#[test]
fn queries_follow_the_model() {
    let mut model = ReferenceModel::new();
    assert_eq!(
        verification_queries(&model),
        vec![SequenceQuery::Calls, SequenceQuery::Stranger]
    );
    let key = Key::new(4);
    let readable = InterestSet::readable();
    let id = RegistrationId { value: 1 };
    let last = Some(MutationCall::Register {
        registration: id,
        key,
        interest: readable,
        mode: Mode::Level,
    });
    step::register_step(&mut model, Outcome::Success, key, readable, Mode::Level, last, "", Ok(id))
        .expect("registration");
    assert_eq!(
        verification_queries(&model),
        vec![
            SequenceQuery::Calls,
            SequenceQuery::ActiveState(id),
            SequenceQuery::Backend(id),
            SequenceQuery::Stranger,
        ]
    );
    step::delete_step(&mut model).expect("deletion");
    step::delete_answer(&mut model, Outcome::Success, Ok(()), "").expect("deleted");
    assert_eq!(
        verification_queries(&model),
        vec![
            SequenceQuery::Calls,
            SequenceQuery::Backend(id),
            SequenceQuery::Retired(id),
            SequenceQuery::Stranger,
        ]
    );
    let divergence = step::delete_step(&mut model).expect_err("vacant slot");
    assert_eq!(divergence.actual, "\"delete requires a handle\"");
}
