//! Pipe readiness scenarios driven on zio's native poller through the
//! library's plans and checkpoints.

use std::{
    io::{Read, Write},
    time::Duration,
};

use zio::Wait;
use zio_testkit::{
    closure_for, expected_for, observation_from_hints, readiness_plan,
    readiness_verify::{
        expect_drained, expect_staged_data, reject_recovery, resource_key, single_readiness,
        verify_arm, verify_broken_pipe, verify_eof, verify_expected, verify_payload, with_cleanup,
    },
    ArmState, DeliveredEvent, ExpectedObservation, Key, Mode, Observation, ObservedError,
    PollError, ReadinessCheck, ReadinessFailure, ReadinessScenario, ReadinessStep,
    RegistrationState, SourceKind,
};

const PAYLOAD: &[u8] = b"zio-pipe";

fn native_interest(readable: bool, writable: bool) -> zio::Interest {
    let mut native = zio::Interest::EMPTY;
    if readable {
        native = native.union(zio::Interest::READABLE);
    }
    if writable {
        native = native.union(zio::Interest::WRITABLE);
    }
    native
}

fn delivered(events: &zio::Events) -> Vec<DeliveredEvent> {
    events
        .as_slice()
        .iter()
        .map(|event| match *event {
            zio::Event::Resource { key, readiness } => DeliveredEvent::Resource {
                key: Key::new(key.get()),
                readiness: observation_from_hints(
                    readiness.is_readable(),
                    readiness.is_writable(),
                    readiness.is_read_closed(),
                    readiness.is_write_closed(),
                    readiness.is_error(),
                    false,
                ),
            },
            zio::Event::Wake { key } => DeliveredEvent::Wake {
                key: Key::new(key.get()),
            },
        })
        .collect()
}

fn failure(scenario: ReadinessScenario, check: ReadinessCheck, expected: &str, actual: impl std::fmt::Display) -> ReadinessFailure {
    ReadinessFailure::new(scenario, check, expected.to_owned(), actual.to_string())
}

struct Session {
    poll: zio::Poll,
    events: zio::Events,
    registration: zio::Registration,
    scenario: ReadinessScenario,
}

type Register<F> = fn(&mut zio::Poll, &F, zio::Key, zio::Interest, zio::Mode) -> zio::Registration;

impl Session {
    fn open<F>(source: &F, register: Register<F>, scenario: ReadinessScenario) -> Session {
        let mut poll = zio::Poll::with_capacity(4, 1).expect("poller");
        let interest = scenario.interest();
        let registration = register(
            &mut poll,
            source,
            zio::Key::new(resource_key().get()),
            native_interest(interest.readable, interest.writable),
            match scenario.mode() {
                Mode::Level => zio::Mode::Level,
                Mode::OneShot => zio::Mode::OneShot,
            },
        );
        let events = poll.events().expect("events");
        Session {
            poll,
            events,
            registration,
            scenario,
        }
    }

    fn wait(&mut self, expected: ExpectedObservation) -> Result<Observation, ReadinessFailure> {
        let scenario = self.scenario;
        let report = self
            .poll
            .wait(&mut self.events, Wait::For(Duration::from_secs(1)))
            .map_err(|error| failure(scenario, ReadinessCheck::Wait, "successful wait", error))?;
        let events = delivered(&self.events);
        let readiness = single_readiness(scenario, &events)?;
        verify_expected(scenario, expected, readiness)?;
        let recovery = report.into_recovery().map(|recovery| recovery.to_string());
        reject_recovery(scenario, recovery.as_deref(), &events)?;
        Ok(readiness)
    }

    fn verify_arm(&mut self, arm: ArmState) -> Result<(), ReadinessFailure> {
        let state = match self.poll.registration_state(&self.registration) {
            Ok(zio::RegistrationState::Registered { arm }) => Ok(RegistrationState::Registered {
                arm: match arm {
                    zio::ArmState::Armed => ArmState::Armed,
                    zio::ArmState::Disarmed => ArmState::Disarmed,
                },
            }),
            Ok(zio::RegistrationState::Uncertain) => Ok(RegistrationState::Uncertain),
            Err(error) => Err(ObservedError {
                class: PollError::Other,
                text: format!("{error:?}"),
            }),
        };
        verify_arm(self.scenario, arm, &state)
    }

    fn drain(&mut self) -> Result<(), ReadinessFailure> {
        let scenario = self.scenario;
        let report = self
            .poll
            .wait(&mut self.events, Wait::NoBlock)
            .map_err(|error| failure(scenario, ReadinessCheck::Wait, "successful one-shot drain", error))?;
        let events = delivered(&self.events);
        expect_drained(scenario, &events)?;
        let recovery = report.into_recovery().map(|recovery| recovery.to_string());
        reject_recovery(scenario, recovery.as_deref(), &events)
    }

    fn rearm(&mut self) -> Result<(), ReadinessFailure> {
        let scenario = self.scenario;
        let interest = scenario.interest();
        self.poll
            .modify(
                &self.registration,
                native_interest(interest.readable, interest.writable),
                zio::Mode::OneShot,
            )
            .map_err(|error| failure(scenario, ReadinessCheck::State, "explicit one-shot rearm", error))
    }

    fn close(mut self, result: Result<(), ReadinessFailure>) -> Result<(), ReadinessFailure> {
        let scenario = self.scenario;
        let cleanup = self
            .poll
            .delete(self.registration)
            .map_err(|error| failure(scenario, ReadinessCheck::Cleanup, "deleted registration", error));
        with_cleanup(result, cleanup)
    }
}

fn run<F>(
    source: &mut F,
    register: Register<F>,
    scenario: ReadinessScenario,
    mut fixture_step: impl FnMut(&mut F, ReadinessStep) -> Result<(), ReadinessFailure>,
) -> (Result<(), ReadinessFailure>, Vec<ReadinessStep>) {
    let mut session = Session::open(&*source, register, scenario);
    let mut performed = Vec::new();
    let result = (|| {
        let initial = session.wait(expected_for(scenario))?;
        for step in readiness_plan(scenario, initial) {
            performed.push(step);
            match step {
                ReadinessStep::CheckArm(arm) => session.verify_arm(arm)?,
                ReadinessStep::Drain => session.drain()?,
                ReadinessStep::ExpectStaged => expect_staged_data(scenario, initial)?,
                ReadinessStep::Rearm => session.rearm()?,
                ReadinessStep::AwaitClosure => {
                    session.wait(closure_for(scenario))?;
                }
                other => fixture_step(source, other)?,
            }
        }
        Ok(())
    })();
    (session.close(result), performed)
}

fn pending_eof(scenario: ReadinessScenario) -> (Result<(), ReadinessFailure>, Vec<ReadinessStep>) {
    let (mut source, mut peer) = std::io::pipe().expect("pipe");
    peer.write_all(PAYLOAD).expect("buffered payload");
    drop(peer);
    let register: Register<std::io::PipeReader> =
        |poll, source, key, interest, mode| poll.register(source, key, interest, mode).expect("registration");
    run(&mut source, register, scenario, |source, step| match step {
        ReadinessStep::ReadPayload => {
            let mut actual = vec![0_u8; PAYLOAD.len()];
            source
                .read_exact(&mut actual)
                .map_err(|error| failure(scenario, ReadinessCheck::Operation, "complete pending payload", error))?;
            verify_payload(scenario, PAYLOAD, &actual)
        }
        ReadinessStep::ReadEof => {
            let mut tail = [0_u8; 1];
            let read = source.read(&mut tail).map_err(|error| ObservedError {
                class: PollError::Other,
                text: format!("{error:?}"),
            });
            verify_eof(scenario, &read)
        }
        other => Err(failure(scenario, ReadinessCheck::Setup, "a pipe step", format!("{other:?}"))),
    })
}

fn reader_closed(scenario: ReadinessScenario) -> (Result<(), ReadinessFailure>, Vec<ReadinessStep>) {
    let (peer, mut source) = std::io::pipe().expect("pipe");
    drop(peer);
    let register: Register<std::io::PipeWriter> =
        |poll, source, key, interest, mode| poll.register(source, key, interest, mode).expect("registration");
    run(&mut source, register, scenario, |source, step| {
        assert_eq!(step, ReadinessStep::Operation);
        let written = source.write(b"closed");
        let text = format!("{written:?}");
        let written = written.map_err(|error| match error.kind() {
            std::io::ErrorKind::BrokenPipe => SourceKind::BrokenPipe,
            _ => SourceKind::Other,
        });
        verify_broken_pipe(scenario, &written, &text)
    })
}

#[test]
fn pipe_pending_data_is_delivered_then_read_to_end() {
    for scenario in [ReadinessScenario::PipePendingEofLevel, ReadinessScenario::PipePendingEofOneShot] {
        let (verdict, performed) = pending_eof(scenario);
        if let Err(failure) = verdict {
            panic!("{}", failure.to_text());
        }
        assert_eq!(performed.first(), Some(&ReadinessStep::CheckArm(if scenario.mode() == Mode::OneShot {
            ArmState::Disarmed
        } else {
            ArmState::Armed
        })));
        assert_eq!(performed.last(), Some(&ReadinessStep::ReadEof));
    }
}

#[test]
fn a_pipe_whose_reader_closed_refuses_writes() {
    for scenario in [ReadinessScenario::PipeReaderClosedLevel, ReadinessScenario::PipeReaderClosedOneShot] {
        let (verdict, performed) = reader_closed(scenario);
        if let Err(failure) = verdict {
            panic!("{}", failure.to_text());
        }
        assert_eq!(performed.last(), Some(&ReadinessStep::Operation));
    }
}
