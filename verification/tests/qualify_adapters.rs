//! Adversarial adapters run through the library's case driver: the order of
//! phases, the profile schedule, the quiet windows, and the judged
//! observations.

use std::time::{Duration, Instant};

use zio_testkit::{
    configured_delivery, CaseDriver, CaseOutcome, CaseRequest, CaseResult, EventBatch,
    Implementation, Observation, QualificationPhase, Scenario,
};

const ALWAYS_READY: u8 = 1;
const DUPLICATE_AND_CLEANUP: u8 = 2;
const EMPTY: u8 = 3;
const UNEXPECTED_KEY: u8 = 4;
const CLEANUP: u8 = 5;
const DISARM_LEAK: u8 = 6;
const REARM_SILENT: u8 = 7;
const WRONG_REARMED_OBSERVATION: u8 = 8;

const WAIT_LIMIT: Duration = Duration::from_secs(1);
const QUIET_WINDOW: Duration = Duration::from_millis(20);

/// Lets `timeout` pass without an event, as an idle poller would.
fn idle(timeout: Duration) -> EventBatch {
    let start = Instant::now();
    while start.elapsed() < timeout {}
    EventBatch::empty()
}

struct FakeSession {
    script: u8,
    rearmed: bool,
    waits: usize,
}

impl FakeSession {
    fn wait(&mut self, timeout: Duration) -> Result<EventBatch, String> {
        self.waits += 1;
        if self.script == ALWAYS_READY {
            return Ok(EventBatch::one(Observation::readable()));
        }
        if self.waits == 1 {
            return Ok(idle(timeout));
        }
        if matches!(self.script, DISARM_LEAK | REARM_SILENT | WRONG_REARMED_OBSERVATION) {
            if self.waits == 2 || self.script == DISARM_LEAK {
                return Ok(EventBatch::one(Observation::readable()));
            }
            if !self.rearmed || self.script == REARM_SILENT {
                return Ok(idle(timeout));
            }
            return Ok(EventBatch::one(Observation::writable()));
        }
        match self.script {
            DUPLICATE_AND_CLEANUP => Ok(EventBatch {
                matched_events: 2,
                observation: Observation::readable(),
            }),
            EMPTY => Ok(idle(timeout)),
            UNEXPECTED_KEY => Err("unexpected key 99".to_owned()),
            CLEANUP => Ok(EventBatch::one(Observation::readable())),
            _ => Err("unknown fake script".to_owned()),
        }
    }

    fn delete(&mut self) -> Result<(), String> {
        if matches!(self.script, DUPLICATE_AND_CLEANUP | CLEANUP) {
            Err("injected cleanup failure".to_owned())
        } else {
            Ok(())
        }
    }
}

/// Runs one scenario against a fake adapter whose fixture activates and
/// whose operation succeeds, performing what the library's case driver
/// requests and keeping the time of its windows and deadlines.
fn qualify_case(script: u8, scenario: Scenario) -> CaseResult {
    let implementation = Implementation::Zio;
    let mut session = FakeSession {
        script,
        rearmed: false,
        waits: 0,
    };
    let mut case = CaseDriver::begin(
        implementation,
        scenario,
        configured_delivery(implementation, scenario.profile()),
    );
    let mut deadline = Instant::now();
    loop {
        match case.request() {
            CaseRequest::QuietWait { opens } => {
                if opens {
                    deadline = Instant::now() + QUIET_WINDOW;
                }
                let waited = session.wait(deadline.saturating_duration_since(Instant::now()));
                case.quiet_waited(waited, Instant::now() >= deadline);
            }
            CaseRequest::AwaitEvent { opens } => {
                if opens {
                    deadline = Instant::now() + WAIT_LIMIT;
                }
                let waited = session.wait(deadline.saturating_duration_since(Instant::now()));
                case.event_awaited(waited, Instant::now() >= deadline);
            }
            CaseRequest::Activate => case.activated(Ok(())),
            CaseRequest::Rearm => {
                session.rearmed = true;
                case.rearmed(Ok(()));
            }
            CaseRequest::Delete => case.deleted(session.delete()),
            CaseRequest::VerifyOperation => case.operation_verified(Ok(())),
            CaseRequest::Finish => return case.finish(),
        }
    }
}

fn qualify(script: u8) -> CaseResult {
    qualify_case(script, Scenario::UnixReadableInitial)
}

fn has_phase(result: &CaseResult, phase: QualificationPhase) -> bool {
    result.failures().iter().any(|failure| failure.phase() == phase)
}

fn assert_failed_phase(script: u8, phase: QualificationPhase) {
    let result = qualify(script);
    assert!(
        matches!(result.outcome(), CaseOutcome::Failed(_)),
        "adversarial adapter unexpectedly passed"
    );
    assert!(has_phase(&result, phase), "expected failure phase was absent");
}

#[test]
fn always_ready_adapter_is_rejected_before_activation() {
    assert_failed_phase(ALWAYS_READY, QualificationPhase::Quiescence);
}

#[test]
fn duplicate_batch_and_cleanup_failures_are_both_retained() {
    let result = qualify(DUPLICATE_AND_CLEANUP);
    assert!(
        has_phase(&result, QualificationPhase::Cardinality),
        "duplicate matching events were accepted"
    );
    assert!(
        has_phase(&result, QualificationPhase::Cleanup),
        "cleanup failure was discarded after an earlier failure"
    );
    assert!(
        result.failures().len() == 2,
        "qualification did not retain both independent failures"
    );
    assert!(
        result.observations() == [Observation::readable()],
        "translated duplicate-batch observation was not retained"
    );
}

#[test]
fn empty_adapter_is_rejected_at_wait() {
    assert_failed_phase(EMPTY, QualificationPhase::Wait);
}

#[test]
fn unexpected_key_adapter_is_rejected_at_wait() {
    assert_failed_phase(UNEXPECTED_KEY, QualificationPhase::Wait);
}

#[test]
fn cleanup_only_failure_is_rejected() {
    assert_failed_phase(CLEANUP, QualificationPhase::Cleanup);
}

#[test]
fn one_shot_redelivery_while_disarmed_is_rejected() {
    let result = qualify_case(DISARM_LEAK, Scenario::UnixReadableOneShot);
    assert!(
        has_phase(&result, QualificationPhase::Disarm),
        "one-shot adapter redelivered before rearm"
    );
    assert!(
        result.observations() == [Observation::readable()],
        "first observation was not retained before disarm failure"
    );
}

#[test]
fn one_shot_rearm_without_redelivery_is_rejected() {
    let result = qualify_case(REARM_SILENT, Scenario::UnixReadableOneShot);
    assert!(
        has_phase(&result, QualificationPhase::Rearm),
        "one-shot adapter passed without rearmed delivery"
    );
    assert!(
        result.observations() == [Observation::readable()],
        "rearm failure corrupted the first observation"
    );
}

#[test]
fn one_shot_rearmed_observation_must_match_the_contract() {
    let result = qualify_case(WRONG_REARMED_OBSERVATION, Scenario::UnixReadableOneShot);
    assert!(
        has_phase(&result, QualificationPhase::Contract),
        "wrong rearmed observation passed the contract"
    );
    assert!(
        result.observations() == [Observation::readable(), Observation::writable()],
        "rearmed observation was not retained exactly"
    );
}

fn driver_for(scenario: Scenario) -> CaseDriver {
    let implementation = Implementation::Zio;
    CaseDriver::begin(implementation, scenario, configured_delivery(implementation, scenario.profile()))
}

#[test]
fn one_shot_case_requests_each_phase_in_order() {
    let mut case = driver_for(Scenario::UnixReadableOneShot);
    assert_eq!(case.request(), CaseRequest::QuietWait { opens: true });
    case.quiet_waited(Ok(EventBatch::empty()), false);
    assert_eq!(case.request(), CaseRequest::QuietWait { opens: false });
    case.quiet_waited(Ok(EventBatch::empty()), true);
    assert_eq!(case.request(), CaseRequest::Activate);
    case.activated(Ok(()));
    assert_eq!(case.request(), CaseRequest::AwaitEvent { opens: true });
    case.event_awaited(Ok(EventBatch::empty()), false);
    assert_eq!(case.request(), CaseRequest::AwaitEvent { opens: false });
    case.event_awaited(Ok(EventBatch::one(Observation::readable())), false);
    assert_eq!(case.request(), CaseRequest::QuietWait { opens: true });
    case.quiet_waited(Ok(EventBatch::empty()), true);
    assert_eq!(case.request(), CaseRequest::Rearm);
    case.rearmed(Ok(()));
    assert_eq!(case.request(), CaseRequest::AwaitEvent { opens: true });
    case.event_awaited(Ok(EventBatch::one(Observation::readable())), false);
    assert_eq!(case.request(), CaseRequest::QuietWait { opens: true });
    case.quiet_waited(Ok(EventBatch::empty()), true);
    assert_eq!(case.request(), CaseRequest::Delete);
    case.deleted(Ok(()));
    assert_eq!(case.request(), CaseRequest::VerifyOperation);
    case.operation_verified(Ok(()));
    assert_eq!(case.request(), CaseRequest::Finish);
    let result = case.finish();
    assert_eq!(result.outcome(), &CaseOutcome::Passed);
    assert_eq!(result.observations(), [Observation::readable(), Observation::readable()]);
}

#[test]
fn failed_activation_skips_the_schedule_but_cleans_up() {
    let mut case = driver_for(Scenario::UnixReadableLevel);
    case.quiet_waited(Ok(EventBatch::empty()), true);
    assert_eq!(case.request(), CaseRequest::Activate);
    case.activated(Err("peer closed".to_owned()));
    assert_eq!(case.request(), CaseRequest::Delete);
    case.deleted(Err("already gone".to_owned()));
    assert_eq!(case.request(), CaseRequest::VerifyOperation);
    case.operation_verified(Err("would block".to_owned()));
    assert_eq!(case.request(), CaseRequest::Finish);
    let result = case.finish();
    let phases: Vec<QualificationPhase> = result.failures().iter().map(|failure| failure.phase()).collect();
    assert_eq!(
        phases,
        [QualificationPhase::Activation, QualificationPhase::Cleanup, QualificationPhase::Operation]
    );
    let failure = &result.failures()[0];
    assert_eq!(failure.expected(), "fixture transitioned from quiet to ready");
    assert_eq!(failure.actual(), "peer closed");
    assert_eq!(result.failures()[1].expected(), "deleted registration before fixture drop");
    assert_eq!(
        result.failures()[2].expected(),
        "matching nonblocking operation returns fixture bytes"
    );
    assert!(result.observations().is_empty());
}

#[test]
fn noisy_quiescence_still_activates_and_observes() {
    let mut case = driver_for(Scenario::UnixReadableInitial);
    case.quiet_waited(Ok(EventBatch::one(Observation::readable())), false);
    assert_eq!(case.request(), CaseRequest::Activate);
    case.activated(Ok(()));
    assert_eq!(case.request(), CaseRequest::AwaitEvent { opens: true });
    case.event_awaited(Ok(EventBatch::one(Observation::readable())), false);
    assert_eq!(case.request(), CaseRequest::Delete);
    case.deleted(Ok(()));
    case.operation_verified(Ok(()));
    let result = case.finish();
    assert_eq!(result.failures().len(), 1);
    let failure = &result.failures()[0];
    assert_eq!(failure.phase(), QualificationPhase::Quiescence);
    assert_eq!(failure.expected(), "no readiness before fixture activation");
    assert_eq!(failure.actual(), "1 matching events with readable");
    assert_eq!(result.observations(), [Observation::readable()]);
}

#[test]
fn failed_rearm_skips_the_rearmed_observation() {
    let mut case = driver_for(Scenario::UnixReadableOneShot);
    case.quiet_waited(Ok(EventBatch::empty()), true);
    case.activated(Ok(()));
    case.event_awaited(Ok(EventBatch::one(Observation::readable())), false);
    case.quiet_waited(Err("poll failed".to_owned()), false);
    assert_eq!(case.request(), CaseRequest::Delete);
    case.deleted(Ok(()));
    case.operation_verified(Ok(()));
    let result = case.finish();
    assert_eq!(result.failures().len(), 1);
    let failure = &result.failures()[0];
    assert_eq!(failure.phase(), QualificationPhase::Disarm);
    assert_eq!(
        failure.expected(),
        "successful quiet-window wait: no delivery before explicit rearm"
    );
    assert_eq!(failure.actual(), "poll failed");

    let mut case = driver_for(Scenario::UnixReadableOneShot);
    case.quiet_waited(Ok(EventBatch::empty()), true);
    case.activated(Ok(()));
    case.event_awaited(Ok(EventBatch::one(Observation::readable())), false);
    case.quiet_waited(Ok(EventBatch::empty()), true);
    assert_eq!(case.request(), CaseRequest::Rearm);
    case.rearmed(Err("rearm refused".to_owned()));
    assert_eq!(case.request(), CaseRequest::Delete);
    case.deleted(Ok(()));
    case.operation_verified(Ok(()));
    let result = case.finish();
    let failure = &result.failures()[0];
    assert_eq!(failure.phase(), QualificationPhase::Rearm);
    assert_eq!(failure.expected(), "explicit native rearm");
    assert_eq!(result.observations(), [Observation::readable()]);
}

#[test]
fn an_expired_deadline_fails_the_awaited_observation() {
    let mut case = driver_for(Scenario::UnixReadableLevel);
    case.quiet_waited(Ok(EventBatch::empty()), true);
    case.activated(Ok(()));
    case.event_awaited(Ok(EventBatch::one(Observation::readable())), false);
    assert_eq!(case.request(), CaseRequest::AwaitEvent { opens: true });
    case.event_awaited(Ok(EventBatch::empty()), true);
    assert_eq!(case.request(), CaseRequest::Delete);
    case.deleted(Ok(()));
    case.operation_verified(Ok(()));
    let result = case.finish();
    let failure = &result.failures()[0];
    assert_eq!(failure.phase(), QualificationPhase::LevelDelivery);
    assert_eq!(failure.expected(), "one readiness observation before deadline");
    assert_eq!(failure.actual(), "deadline elapsed");
}
