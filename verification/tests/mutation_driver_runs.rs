//! The mutation driver's plans, and every scenario driven on zio's own
//! scripted poller.

use zio::test_support::{
    MutationCall as ZioCall, MutationOutcome, MutationStep, ScriptedBackendState, ScriptedPoll,
};
use zio_testkit::{
    driver_plan,
    mutation_driver::{
        DeleteExpectation, ModifyExpectation, MutationDriver, RegisterExpectation,
    },
    mutation_plan, ArmState, BackendState, Branch, CommitStatus, ConformanceCheck,
    ConformanceFailure, DeleteFailure, DriverRequest, DriverStep, InterestSet, Key, Mode,
    MutationCall, MutationOperation, MutationScenario, ObservedError, Operation, Outcome,
    PlannedStep, PollError, RegisterFailure, RegistrationId, RegistrationState, SourceKind,
};

#[derive(Default)]
struct Ids {
    known: Vec<zio::RegistrationId>,
}

impl Ids {
    fn id(&mut self, id: zio::RegistrationId) -> RegistrationId {
        let index = match self.known.iter().position(|known| *known == id) {
            Some(index) => index,
            None => {
                self.known.push(id);
                self.known.len() - 1
            }
        };
        RegistrationId {
            value: index as u64 + 1,
        }
    }

    fn native(&self, id: RegistrationId) -> zio::RegistrationId {
        self.known[id.value as usize - 1]
    }
}

fn native_interest(interest: InterestSet) -> zio::Interest {
    let mut native = zio::Interest::EMPTY;
    if interest.readable {
        native = native.union(zio::Interest::READABLE);
    }
    if interest.writable {
        native = native.union(zio::Interest::WRITABLE);
    }
    native
}

fn interest_from(interest: zio::Interest) -> InterestSet {
    InterestSet {
        readable: interest.contains(zio::Interest::READABLE),
        writable: interest.contains(zio::Interest::WRITABLE),
    }
}

fn native_mode(mode: Mode) -> zio::Mode {
    match mode {
        Mode::Level => zio::Mode::Level,
        Mode::OneShot => zio::Mode::OneShot,
    }
}

fn mode_from(mode: zio::Mode) -> Mode {
    match mode {
        zio::Mode::Level => Mode::Level,
        zio::Mode::OneShot => Mode::OneShot,
    }
}

fn arm_from(arm: zio::ArmState) -> ArmState {
    match arm {
        zio::ArmState::Armed => ArmState::Armed,
        zio::ArmState::Disarmed => ArmState::Disarmed,
    }
}

fn state_from(state: zio::RegistrationState) -> RegistrationState {
    match state {
        zio::RegistrationState::Registered { arm } => RegistrationState::Registered {
            arm: arm_from(arm),
        },
        zio::RegistrationState::Uncertain => RegistrationState::Uncertain,
    }
}

fn backend_from(state: ScriptedBackendState) -> BackendState {
    match state {
        ScriptedBackendState::Absent => BackendState::Absent,
        ScriptedBackendState::Registered {
            interest,
            mode,
            arm,
        } => BackendState::Registered {
            interest: interest_from(interest),
            mode: mode_from(mode),
            arm: arm_from(arm),
        },
        ScriptedBackendState::Unknown => BackendState::Unknown,
    }
}

fn calls_from(ids: &mut Ids, calls: &[ZioCall]) -> Vec<MutationCall> {
    calls
        .iter()
        .map(|call| match *call {
            ZioCall::Register {
                registration,
                key,
                interest,
                mode,
            } => MutationCall::Register {
                registration: ids.id(registration),
                key: Key::new(key.get()),
                interest: interest_from(interest),
                mode: mode_from(mode),
            },
            ZioCall::Modify {
                registration,
                previous_interest,
                previous_mode,
                previous_arm,
                desired_interest,
                desired_mode,
            } => MutationCall::Modify {
                registration: ids.id(registration),
                previous_interest: interest_from(previous_interest),
                previous_mode: mode_from(previous_mode),
                previous_arm: arm_from(previous_arm),
                desired_interest: interest_from(desired_interest),
                desired_mode: mode_from(desired_mode),
            },
            ZioCall::Delete {
                registration,
                interest,
                state,
            } => MutationCall::Delete {
                registration: ids.id(registration),
                interest: interest_from(interest),
                state: state_from(state),
            },
            ZioCall::EstablishDisarmed { registration } => MutationCall::EstablishDisarmed {
                registration: ids.id(registration),
            },
        })
        .collect()
}

fn error_from(ids: &mut Ids, error: &zio::Error) -> ObservedError {
    let class = match error {
        zio::Error::Mutation(mutation) => {
            let operation = match mutation.operation() {
                zio::Operation::Register => Some(Operation::Register),
                zio::Operation::Modify => Some(Operation::Modify),
                zio::Operation::Delete => Some(Operation::Delete),
                _ => None,
            };
            match operation {
                Some(operation) => PollError::Mutation {
                    operation,
                    commit: match mutation.commit() {
                        zio::CommitStatus::NotApplied => CommitStatus::NotApplied,
                        zio::CommitStatus::Applied => CommitStatus::Applied,
                        zio::CommitStatus::Unknown => CommitStatus::Unknown,
                    },
                    kind: match mutation.source().kind() {
                        std::io::ErrorKind::PermissionDenied => SourceKind::PermissionDenied,
                        std::io::ErrorKind::TimedOut => SourceKind::TimedOut,
                        std::io::ErrorKind::BrokenPipe => SourceKind::BrokenPipe,
                        _ => SourceKind::Other,
                    },
                },
                None => PollError::Other,
            }
        }
        zio::Error::InvalidInterest => PollError::InvalidInterest,
        zio::Error::Stale { registration } => PollError::Stale {
            registration: ids.id(*registration),
        },
        zio::Error::WrongPoller { registration } => PollError::WrongPoller {
            registration: ids.id(*registration),
        },
        zio::Error::Uncertain { registration } => PollError::Uncertain {
            registration: ids.id(*registration),
        },
        zio::Error::Capacity { limit } => PollError::RegistrationCapacity {
            limit: *limit as u64,
        },
        _ => PollError::Other,
    };
    ObservedError {
        class,
        text: format!("{error:?}"),
    }
}

fn unit_result(ids: &mut Ids, result: &Result<(), zio::Error>) -> Result<(), ObservedError> {
    result.as_ref().map(|_| ()).map_err(|error| error_from(ids, error))
}

fn register_result(
    ids: &mut Ids,
    result: Result<zio::Registration, zio::RegisterError>,
) -> (
    Result<RegistrationId, RegisterFailure>,
    Option<zio::Registration>,
) {
    match result {
        Ok(registration) => (Ok(ids.id(registration.id())), Some(registration)),
        Err(error) => {
            let text = format!("{error:?}");
            let borrowed = error.registration().map(|registration| ids.id(registration.id()));
            let (cause, returned) = error.into_parts();
            let failure = RegisterFailure {
                text,
                cause: error_from(ids, &cause),
                borrowed,
                returned: returned.as_ref().map(|registration| ids.id(registration.id())),
                returned_text: format!("{returned:?}"),
            };
            (Err(failure), returned)
        }
    }
}

fn script(scenario: MutationScenario) -> Vec<MutationStep> {
    mutation_plan(scenario)
        .into_iter()
        .map(|step| {
            let outcome = match step.outcome {
                Outcome::Success => MutationOutcome::Success,
                failed => MutationOutcome::Failure {
                    commit: match failed {
                        Outcome::NotApplied => zio::CommitStatus::NotApplied,
                        Outcome::Applied => zio::CommitStatus::Applied,
                        _ => zio::CommitStatus::Unknown,
                    },
                    kind: match step.operation {
                        Operation::Register => std::io::ErrorKind::PermissionDenied,
                        Operation::Modify => std::io::ErrorKind::TimedOut,
                        Operation::Delete => std::io::ErrorKind::BrokenPipe,
                    },
                },
            };
            match step.operation {
                Operation::Register => MutationStep::Register(outcome),
                Operation::Modify => MutationStep::Modify(outcome),
                Operation::Delete => MutationStep::Delete(outcome),
            }
        })
        .collect()
}

fn text<T, E: std::fmt::Display>(result: &Result<T, E>) -> String {
    result.as_ref().err().map(ToString::to_string).unwrap_or_default()
}

/// Drives one scenario on zio's scripted poller and returns the driver's
/// verdict and the requests it made.
fn drive(scenario: MutationScenario) -> (Result<(), ConformanceFailure>, Vec<DriverRequest>) {
    let mut poll = ScriptedPoll::with_capacity(1, script(scenario)).expect("scripted poll");
    let (source, _reader) = mio::unix::pipe::new().expect("pipe");
    let mut ids = Ids::default();
    let mut held: Option<zio::Registration> = None;
    let mut driver = MutationDriver::new(scenario);
    let mut requests = Vec::new();
    while let Some(request) = driver.request() {
        requests.push(request);
        let verdict = match request {
            DriverRequest::Register {
                key,
                interest,
                mode,
            } => {
                let before = poll.calls().len();
                let result = poll.register(
                    &source,
                    zio::Key::new(key.get()),
                    native_interest(interest),
                    native_mode(mode),
                );
                let error_text = text(&result);
                let (converted, handle) = register_result(&mut ids, result);
                held = handle;
                let calls = calls_from(&mut ids, poll.calls());
                driver.observe_register(&converted, &error_text, &calls, before)
            }
            DriverRequest::EstablishDisarmed => {
                let result = poll.establish_disarmed(held.as_ref().expect("held handle"));
                let error_text = text(&result);
                let converted = unit_result(&mut ids, &result);
                let calls = calls_from(&mut ids, poll.calls());
                driver.observe_disarm(&converted, &error_text, &calls)
            }
            DriverRequest::Modify { interest, mode } => {
                let before = poll.calls().len();
                let result = poll.modify(
                    held.as_ref().expect("held handle"),
                    native_interest(interest),
                    native_mode(mode),
                );
                let result_text = format!("{result:?}");
                let error_text = text(&result);
                let converted = unit_result(&mut ids, &result);
                let calls = calls_from(&mut ids, poll.calls());
                driver.observe_modify(&converted, &result_text, &error_text, &calls, before)
            }
            DriverRequest::Delete => {
                let registration = held.take().expect("held handle");
                let handle_text = format!("{:?}", registration.id());
                let before = poll.calls().len();
                let result = poll.delete(registration);
                let error_text = text(&result);
                let converted = match result {
                    Ok(()) => Ok(()),
                    Err(error) => {
                        let borrowed = ids.id(error.registration().id());
                        let (cause, returned) = error.into_parts();
                        let failure = DeleteFailure {
                            cause: error_from(&mut ids, &cause),
                            borrowed,
                            returned: ids.id(returned.id()),
                            handles_text: String::new(),
                        };
                        held = Some(returned);
                        Err(failure)
                    }
                };
                let calls = calls_from(&mut ids, poll.calls());
                driver.observe_delete(&converted, &error_text, &handle_text, &calls, before)
            }
            DriverRequest::QueryState => {
                let actual = poll.registration_state(held.as_ref().expect("held handle"));
                let state_text = format!("{actual:?}");
                let converted = match &actual {
                    Ok(state) => Ok(state_from(*state)),
                    Err(error) => Err(error_from(&mut ids, error)),
                };
                driver.observe_state(&converted, &state_text)
            }
            DriverRequest::QueryBackend { registration } => {
                let state = poll.backend_state(ids.native(registration));
                driver.observe_backend(backend_from(state))
            }
            DriverRequest::ProbeCapacity {
                key,
                interest,
                mode,
            } => {
                let before = poll.calls().len();
                let result = poll.register(
                    &source,
                    zio::Key::new(key.get()),
                    native_interest(interest),
                    native_mode(mode),
                );
                let after = poll.calls().len();
                let (converted, _) = register_result(&mut ids, result);
                driver.observe_capacity(&converted, before, after)
            }
            DriverRequest::Finish => {
                let finished = poll.finish().err().map(|error| error.to_string());
                driver.observe_finish(finished.as_deref())
            }
        };
        if verdict.is_err() {
            assert_eq!(driver.request(), None, "a rejected step ends the scenario");
            return (verdict, requests);
        }
    }
    (Ok(()), requests)
}

#[test]
fn every_scenario_passes_on_the_scripted_poller() {
    for scenario in MutationScenario::all() {
        let (verdict, requests) = drive(scenario);
        if let Err(failure) = &verdict {
            panic!("{}", failure.to_text());
        }
        assert_eq!(requests.len(), driver_plan(scenario).len(), "{}", scenario.name());
        assert_eq!(requests.last(), Some(&DriverRequest::Finish));
    }
}

#[test]
fn plans_follow_their_scripts() {
    for scenario in MutationScenario::all() {
        let scripted: Vec<PlannedStep> = driver_plan(scenario)
            .into_iter()
            .filter_map(|driver_step| {
                let outcome = match scenario.branch() {
                    Branch::Success => Outcome::Success,
                    Branch::NotApplied => Outcome::NotApplied,
                    Branch::Applied => Outcome::Applied,
                    Branch::Unknown => Outcome::Unknown,
                };
                match driver_step {
                    DriverStep::Register(RegisterExpectation::Success)
                    | DriverStep::Register(RegisterExpectation::NotApplied)
                    | DriverStep::Register(RegisterExpectation::Retained) => Some(PlannedStep {
                        operation: Operation::Register,
                        outcome,
                    }),
                    DriverStep::Register(_) => Some(PlannedStep {
                        operation: Operation::Register,
                        outcome: Outcome::Success,
                    }),
                    DriverStep::Modify(ModifyExpectation::Scenario) => Some(PlannedStep {
                        operation: Operation::Modify,
                        outcome,
                    }),
                    DriverStep::Modify(ModifyExpectation::Uncertain) => None,
                    DriverStep::Modify(_) => Some(PlannedStep {
                        operation: Operation::Modify,
                        outcome: Outcome::Success,
                    }),
                    DriverStep::Delete(DeleteExpectation::Scenario) => Some(PlannedStep {
                        operation: Operation::Delete,
                        outcome,
                    }),
                    DriverStep::Delete(DeleteExpectation::Cleanup) => Some(PlannedStep {
                        operation: Operation::Delete,
                        outcome: Outcome::Success,
                    }),
                    _ => None,
                }
            })
            .collect();
        assert_eq!(scripted, mutation_plan(scenario), "{}", scenario.name());
    }
}

#[test]
fn a_modification_plan_is_exact() {
    let desired = BackendState::Registered {
        interest: InterestSet::writable(),
        mode: Mode::Level,
        arm: ArmState::Armed,
    };
    assert_eq!(
        driver_plan(MutationScenario::modify(Branch::NotApplied)),
        vec![
            DriverStep::Register(RegisterExpectation::Setup),
            DriverStep::EstablishDisarmed,
            DriverStep::Modify(ModifyExpectation::Scenario),
            DriverStep::State(RegistrationState::Registered {
                arm: ArmState::Disarmed
            }),
            DriverStep::Backend(BackendState::Registered {
                interest: InterestSet::readable(),
                mode: Mode::OneShot,
                arm: ArmState::Disarmed,
            }),
            DriverStep::Modify(ModifyExpectation::Retry),
            DriverStep::State(RegistrationState::Registered {
                arm: ArmState::Armed
            }),
            DriverStep::Backend(desired),
            DriverStep::Modify(ModifyExpectation::Confirm),
            DriverStep::Capacity,
            DriverStep::Delete(DeleteExpectation::Cleanup),
            DriverStep::Backend(BackendState::Absent),
            DriverStep::Finish,
        ]
    );
}

#[test]
fn an_applied_deletion_plans_a_stale_check_and_a_replacement() {
    assert_eq!(
        driver_plan(MutationScenario::delete(Branch::Applied)),
        vec![
            DriverStep::Register(RegisterExpectation::Setup),
            DriverStep::EstablishDisarmed,
            DriverStep::Delete(DeleteExpectation::Scenario),
            DriverStep::Stale,
            DriverStep::Backend(BackendState::Absent),
            DriverStep::Register(RegisterExpectation::Replacement),
            DriverStep::Delete(DeleteExpectation::Cleanup),
            DriverStep::Backend(BackendState::Absent),
            DriverStep::Finish,
        ]
    );
}

#[test]
fn the_driver_requests_its_plan_in_order() {
    let scenario = MutationScenario::register(Branch::Success);
    let mut driver = MutationDriver::new(scenario);
    assert_eq!(
        driver.request(),
        Some(DriverRequest::Register {
            key: Key::new(101),
            interest: InterestSet::readable(),
            mode: Mode::OneShot,
        })
    );
    let calls = [MutationCall::Register {
        registration: RegistrationId { value: 7 },
        key: Key::new(101),
        interest: InterestSet::readable(),
        mode: Mode::OneShot,
    }];
    assert_eq!(
        driver.observe_register(&Ok(RegistrationId { value: 7 }), "", &calls, 0),
        Ok(())
    );
    assert_eq!(driver.request(), Some(DriverRequest::QueryState));
    assert_eq!(
        driver.observe_state(
            &Ok(RegistrationState::Registered {
                arm: ArmState::Armed
            }),
            ""
        ),
        Ok(())
    );
    assert_eq!(
        driver.request(),
        Some(DriverRequest::QueryBackend {
            registration: RegistrationId { value: 7 }
        })
    );
    let verdict = driver.observe_backend(BackendState::Absent).unwrap_err();
    assert_eq!(verdict.check(), ConformanceCheck::State);
    assert_eq!(
        verdict.expected(),
        "Registered { interest: Interest(1), mode: OneShot, arm: Armed }"
    );
    assert_eq!(verdict.actual(), "Absent");
    assert_eq!(driver.request(), None);
}

#[test]
fn a_registration_on_the_wrong_handle_is_rejected() {
    let scenario = MutationScenario::register(Branch::Success);
    let mut driver = MutationDriver::new(scenario);
    let calls = [MutationCall::Register {
        registration: RegistrationId { value: 1 },
        key: Key::new(101),
        interest: InterestSet::readable(),
        mode: Mode::OneShot,
    }];
    let failure = driver
        .observe_register(&Ok(RegistrationId { value: 2 }), "", &calls, 0)
        .unwrap_err();
    assert_eq!(failure.check(), ConformanceCheck::Handle);
    assert_eq!(failure.expected(), "RegistrationId(1)");
    assert_eq!(failure.actual(), "RegistrationId(2)");
    assert_eq!(driver.request(), None);
}

#[test]
fn a_failed_retry_registration_reports_its_error() {
    let scenario = MutationScenario::register(Branch::NotApplied);
    let mut driver = MutationDriver::new(scenario);
    let calls = [MutationCall::Register {
        registration: RegistrationId { value: 1 },
        key: Key::new(101),
        interest: InterestSet::readable(),
        mode: Mode::OneShot,
    }];
    let not_applied = Err(RegisterFailure {
        text: "registration refused".to_owned(),
        cause: ObservedError {
            class: PollError::Mutation {
                operation: Operation::Register,
                commit: CommitStatus::NotApplied,
                kind: SourceKind::PermissionDenied,
            },
            text: "denied".to_owned(),
        },
        borrowed: None,
        returned: None,
        returned_text: "None".to_owned(),
    });
    assert_eq!(driver.observe_register(&not_applied, "denied", &calls, 0), Ok(()));
    assert_eq!(
        driver.request(),
        Some(DriverRequest::QueryBackend {
            registration: RegistrationId { value: 1 }
        })
    );
    assert_eq!(driver.observe_backend(BackendState::Absent), Ok(()));
    let failure = driver
        .observe_register(&not_applied, "registration refused", &calls, 1)
        .unwrap_err();
    assert_eq!(failure.check(), ConformanceCheck::Retry);
    assert_eq!(failure.expected(), "successful registration retry");
    assert_eq!(failure.actual(), "registration refused");
}

#[test]
fn an_uncertain_registration_probe_uses_the_desired_configuration() {
    let scenario = MutationScenario::new(MutationOperation::Delete, Branch::Unknown);
    let plan = driver_plan(scenario);
    let position = plan
        .iter()
        .position(|driver_step| *driver_step == DriverStep::Modify(ModifyExpectation::Uncertain))
        .expect("uncertain probe");
    assert_eq!(plan[position - 1], DriverStep::Capacity);
    let (verdict, requests) = drive(scenario);
    assert_eq!(verdict, Ok(()));
    assert_eq!(
        requests[position],
        DriverRequest::Modify {
            interest: InterestSet::writable(),
            mode: Mode::Level,
        }
    );
}
