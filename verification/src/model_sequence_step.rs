//! The steps of a generated action on the reference model.
//!
//! Each action first checks its precondition on the reference model and
//! records the backend call it expects, then, once the caller performed the
//! request on the scripted poller, judges the answer and completes the
//! model's transition. After every action the caller queries what
//! `verification_queries` lists and hands each answer to its judgment.

use vstd::prelude::*;

use crate::model_sequence::{ArmState, InterestSet, Key, Mode, Operation, Outcome};
use crate::model_sequence_expect::{
    divergence, divergence_observed, expect_call_count, expect_delete_error, expect_invalid_interest,
    calls_changed, expect_mutation_result, expect_rejected_state, expect_rejection, expect_returned_handle,
    failed_register, id_text, last_register_id, mutation_expectation, option_id_text, quote, quoted,
    register_call_text, rejection_text, successful_register,
    DeleteFailure, ObservedError, PollError, RegisterFailure, Rejection, SourceKind,
};
use crate::model_sequence_failure::{divergence_is, Divergence, ModelSequenceCheck};
use crate::model_sequence_model::{
    spec_after_delete, spec_after_disarm, spec_after_modify, spec_after_register, Entry, MutationCall,
    ReferenceModel, RegistrationId, RegistrationState,
};

verus! {

/// Whether `verdict` diverged at `check` with the two texts.
pub open spec fn diverged<T>(
    verdict: Result<T, Divergence>,
    check: ModelSequenceCheck,
    expected: Seq<char>,
    actual: Seq<char>,
) -> bool {
    verdict matches Err(d) && divergence_is(d, check, expected, actual)
}

fn precondition<T>(expected: &str, actual: &str) -> (verdict: Result<T, Divergence>)
    ensures
        diverged(verdict, ModelSequenceCheck::Precondition, quoted(expected@), quoted(actual@)),
{
    Err(divergence(ModelSequenceCheck::Precondition, expected, actual))
}

/// Requires the registration slot to be vacant before a registration.
pub fn vacant_slot(model: &ReferenceModel) -> (verdict: Result<(), Divergence>)
    ensures
        (verdict is Ok) <==> model.spec_active() is None,
        verdict is Err ==> diverged(
            verdict,
            ModelSequenceCheck::Precondition,
            quoted("vacant registration slot"@),
            quoted("active handle"@),
        ),
{
    if model.active().is_some() {
        precondition("vacant registration slot", "active handle")
    } else {
        Ok(())
    }
}

/// The generation the last backend call registered with `key`, `interest`
/// and `mode`; none when that call is missing or another.
pub open spec fn registered_by(
    last: Option<MutationCall>,
    key: Key,
    interest: InterestSet,
    mode: Mode,
) -> Option<RegistrationId> {
    match last {
        Some(MutationCall::Register { registration, key: k, interest: i, mode: m }) => if k == key && i
            == interest && m == mode {
            Some(registration)
        } else {
            None
        },
        _ => None,
    }
}

/// Whether a generated registration with `outcome` conforms: the backend
/// registered a fresh generation with the requested configuration, and the
/// result is that generation on success, or the scripted registration error
/// lending and returning the same handle, that generation exactly when the
/// outcome retains it.
pub open spec fn register_passes(
    issued: Seq<RegistrationId>,
    outcome: Outcome,
    key: Key,
    interest: InterestSet,
    mode: Mode,
    last: Option<MutationCall>,
    result: Result<RegistrationId, RegisterFailure>,
) -> bool {
    match registered_by(last, key, interest, mode) {
        None => false,
        Some(id) => {
            &&& !issued.contains(id)
            &&& match outcome {
                Outcome::Success => result == Ok::<RegistrationId, RegisterFailure>(id),
                _ => result matches Err(failure) && failure.cause.class == (PollError::Mutation {
                    operation: Operation::Register,
                    commit: outcome.spec_commit()->0,
                    kind: SourceKind::PermissionDenied,
                }) && failure.borrowed == failure.returned && failure.returned == (if outcome
                    == Outcome::NotApplied {
                    None
                } else {
                    Some(id)
                }),
            }
        },
    }
}

/// How the answer to a registration of the fresh generation `id` with
/// `outcome` is judged: success must carry that generation; a failure must
/// carry the scripted registration error, lend and return the same handle,
/// and return that generation exactly when the outcome retains it.
pub open spec fn register_result_judged(
    outcome: Outcome,
    id: RegistrationId,
    result: Result<RegistrationId, RegisterFailure>,
    verdict: Result<(), Divergence>,
) -> bool {
    match outcome {
        Outcome::Success => match result {
            Err(failure) => diverged(verdict, ModelSequenceCheck::Result, quoted("successful register"@), failure.text@),
            Ok(other) => if other == id {
                verdict is Ok
            } else {
                diverged(verdict, ModelSequenceCheck::Handle, id_text(id), id_text(other))
            },
        },
        _ => match result {
            Ok(_) => diverged(verdict, ModelSequenceCheck::Result, quoted("register failure"@), quoted("success"@)),
            Err(failure) => {
                let commit = outcome.spec_commit()->0;
                if failure.cause.class != (PollError::Mutation {
                    operation: Operation::Register,
                    commit,
                    kind: SourceKind::PermissionDenied,
                }) {
                    diverged(
                        verdict,
                        ModelSequenceCheck::Commit,
                        mutation_expectation(Operation::Register, commit, SourceKind::PermissionDenied),
                        failure.cause.text@,
                    )
                } else if failure.borrowed != failure.returned {
                    diverged(
                        verdict,
                        ModelSequenceCheck::Handle,
                        quoted(option_id_text(failure.borrowed)),
                        quoted(option_id_text(failure.returned)),
                    )
                } else if outcome == Outcome::NotApplied {
                    if failure.returned is None {
                        verdict is Ok
                    } else {
                        diverged(
                            verdict,
                            ModelSequenceCheck::Handle,
                            quoted("no handle for not-applied register"@),
                            option_id_text(failure.returned),
                        )
                    }
                } else {
                    match failure.returned {
                        None => diverged(verdict, ModelSequenceCheck::Handle, id_text(id), quoted("no handle"@)),
                        Some(returned) => if returned == id {
                            verdict is Ok
                        } else {
                            diverged(verdict, ModelSequenceCheck::Handle, id_text(id), id_text(returned))
                        },
                    }
                }
            },
        },
    }
}

/// Judges a generated registration on a vacant slot: `last` is the last
/// backend call after it, with diagnostic text `last_text`. On success the
/// model issued the generation, expects its call, and holds the entry the
/// outcome installs.
pub fn register_step(
    model: &mut ReferenceModel,
    outcome: Outcome,
    key: Key,
    interest: InterestSet,
    mode: Mode,
    last: Option<MutationCall>,
    last_text: &str,
    result: Result<RegistrationId, RegisterFailure>,
) -> (verdict: Result<(), Divergence>)
    requires
        old(model).wf(),
        old(model).spec_active() is None,
    ensures
        final(model).wf(),
        (verdict is Ok) <==> register_passes(old(model).spec_issued(), outcome, key, interest, mode, last, result),
        registered_by(last, key, interest, mode) is None ==> diverged(
            verdict,
            ModelSequenceCheck::Calls,
            register_call_text(key, interest, mode),
            last_text@,
        ),
        registered_by(last, key, interest, mode) matches Some(id) ==> if old(model).spec_issued().contains(id) {
            diverged(
                verdict,
                ModelSequenceCheck::Generation,
                quoted("fresh registration generation"@),
                quoted("register repeated an issued generation"@),
            )
        } else {
            register_result_judged(outcome, id, result, verdict)
        },
        verdict is Ok ==> ({
            let id = registered_by(last, key, interest, mode)->0;
            &&& final(model).spec_active() == spec_after_register(outcome, id, key, interest, mode)
            &&& final(model).spec_issued() == old(model).spec_issued().push(id)
            &&& final(model).spec_calls() == old(model).spec_calls().push(
                MutationCall::Register { registration: id, key, interest, mode },
            )
            &&& final(model).spec_retired() == old(model).spec_retired()
        }),
{
    let id = match last_register_id(last, last_text, key, interest, mode) {
        Ok(id) => id,
        Err(d) => {
            return Err(d);
        },
    };
    match model.record_register(id, key, interest, mode) {
        Ok(()) => {},
        Err(actual) => {
            return Err(divergence(ModelSequenceCheck::Generation, "fresh registration generation", actual));
        },
    }
    let registration = match outcome {
        Outcome::Success => match successful_register(result, id) {
            Ok(id) => Some(id),
            Err(d) => {
                return Err(d);
            },
        },
        _ => match failed_register(result, outcome, id) {
            Ok(registration) => registration,
            Err(d) => {
                return Err(d);
            },
        },
    };
    match model.complete_register(outcome, registration, key, interest, mode) {
        Ok(()) => Ok(()),
        Err(actual) => precondition("valid register transition", actual),
    }
}

/// How an answer that must be the invalid-interest error without backend
/// work is judged, once it is an error: the error, then the call count
/// around `action`.
pub open spec fn invalid_interest_judged(
    error: ObservedError,
    calls_before: usize,
    calls_after: usize,
    action: Seq<char>,
    verdict: Result<(), Divergence>,
) -> bool {
    if error.class != PollError::InvalidInterest {
        diverged(verdict, ModelSequenceCheck::Result, quoted("InvalidInterest"@), error.text@)
    } else if calls_before != calls_after {
        diverged(
            verdict,
            ModelSequenceCheck::Calls,
            calls_changed(calls_before, calls_after, action).0,
            calls_changed(calls_before, calls_after, action).1,
        )
    } else {
        verdict is Ok
    }
}

/// Judges a registration with empty interest: it must fail with the
/// invalid-interest error, return no handle, and reach no backend;
/// `calls_before` and `calls_after` count the backend calls around it.
pub fn register_invalid_step(
    result: &Result<RegistrationId, RegisterFailure>,
    calls_before: usize,
    calls_after: usize,
) -> (verdict: Result<(), Divergence>)
    ensures
        (verdict is Ok) <==> (result matches Err(failure) && failure.returned is None && failure.cause.class
            == PollError::InvalidInterest && calls_before == calls_after),
        result is Ok ==> diverged(
            verdict,
            ModelSequenceCheck::Result,
            quoted("InvalidInterest register error"@),
            quoted("success"@),
        ),
        result matches Err(failure) ==> if failure.returned is Some {
            diverged(
                verdict,
                ModelSequenceCheck::Handle,
                quoted("no registration capability"@),
                failure.returned_text@,
            )
        } else {
            invalid_interest_judged(failure.cause, calls_before, calls_after, "invalid register"@, verdict)
        },
{
    match result {
        Ok(_) => Err(divergence(ModelSequenceCheck::Result, "InvalidInterest register error", "success")),
        Err(failure) => {
            if failure.returned.is_some() {
                return Err(
                    Divergence::new(
                        ModelSequenceCheck::Handle,
                        quote("no registration capability"),
                        String::from_str(failure.returned_text.as_str()),
                    ),
                );
            }
            match expect_invalid_interest(&failure.cause) {
                Ok(()) => expect_call_count(calls_before, calls_after, "invalid register"),
                Err(d) => Err(d),
            }
        },
    }
}

/// Records a delivered one-shot disarm of the active registration and
/// returns its generation, which the caller disarms on the poller.
pub fn disarm_step(model: &mut ReferenceModel) -> (verdict: Result<RegistrationId, Divergence>)
    requires
        old(model).wf(),
    ensures
        final(model).wf(),
        match old(model).spec_active() {
            None => diverged(
                verdict,
                ModelSequenceCheck::Precondition,
                quoted("armed one-shot handle"@),
                quoted("vacant slot"@),
            ),
            Some(entry) => if entry.mode == Mode::OneShot && entry.state == (RegistrationState::Registered {
                arm: ArmState::Armed,
            }) {
                &&& verdict == Ok::<RegistrationId, Divergence>(entry.registration)
                &&& final(model).spec_active() == Some(spec_after_disarm(entry))
                &&& final(model).spec_calls() == old(model).spec_calls().push(
                    MutationCall::EstablishDisarmed { registration: entry.registration },
                )
            } else {
                diverged(
                    verdict,
                    ModelSequenceCheck::Precondition,
                    quoted("armed one-shot handle"@),
                    quoted("disarm requires an armed one-shot registration"@),
                )
            },
        },
        final(model).spec_issued() == old(model).spec_issued(),
        final(model).spec_retired() == old(model).spec_retired(),
{
    if model.active().is_none() {
        return precondition("armed one-shot handle", "vacant slot");
    }
    match model.disarm() {
        Ok(registration) => Ok(registration),
        Err(actual) => precondition("armed one-shot handle", actual),
    }
}

/// Judges the poller's answer to a disarm: it must succeed.
pub fn disarm_answer(result: &Result<(), ObservedError>) -> (verdict: Result<(), Divergence>)
    ensures
        (verdict is Ok) <==> result is Ok,
        result matches Err(error) ==> diverged(
            verdict,
            ModelSequenceCheck::Result,
            quoted("successful delivered one-shot disarm"@),
            error.text@,
        ),
{
    match result {
        Ok(()) => Ok(()),
        Err(error) => Err(
            divergence_observed(ModelSequenceCheck::Result, "successful delivered one-shot disarm", error.text.as_str()),
        ),
    }
}

/// Replaces the active registration's key; no backend call is expected.
pub fn set_key_step(model: &mut ReferenceModel, key: Key) -> (verdict: Result<(), Divergence>)
    requires
        old(model).wf(),
    ensures
        final(model).wf(),
        final(model).spec_issued() == old(model).spec_issued(),
        final(model).spec_retired() == old(model).spec_retired(),
        final(model).spec_calls() == old(model).spec_calls(),
        match old(model).spec_active() {
            None => diverged(
                verdict,
                ModelSequenceCheck::Precondition,
                quoted("active handle"@),
                quoted("vacant slot"@),
            ),
            Some(entry) => verdict is Ok && final(model).spec_active() == Some(Entry { key, ..entry }),
        },
{
    if model.active().is_none() {
        return precondition("active handle", "vacant slot");
    }
    match model.set_key(key) {
        Ok(()) => Ok(()),
        Err(actual) => precondition("active handle", actual),
    }
}

/// Records a modification of the active registration to `interest` and
/// `mode`, and returns the entry it modifies.
pub fn modify_step(model: &mut ReferenceModel, interest: InterestSet, mode: Mode) -> (verdict: Result<Entry, Divergence>)
    requires
        old(model).wf(),
    ensures
        final(model).wf(),
        final(model).spec_active() == old(model).spec_active(),
        final(model).spec_issued() == old(model).spec_issued(),
        final(model).spec_retired() == old(model).spec_retired(),
        match old(model).spec_active() {
            None => diverged(
                verdict,
                ModelSequenceCheck::Precondition,
                quoted("proven registered handle"@),
                quoted("modify requires a handle"@),
            ),
            Some(entry) => match entry.state {
                RegistrationState::Uncertain => diverged(
                    verdict,
                    ModelSequenceCheck::Precondition,
                    quoted("proven registered handle"@),
                    quoted("modify requires a proven registered state"@),
                ),
                RegistrationState::Registered { arm } => {
                    &&& verdict == Ok::<Entry, Divergence>(entry)
                    &&& final(model).spec_calls() == old(model).spec_calls().push(
                        MutationCall::Modify {
                            registration: entry.registration,
                            previous_interest: entry.interest,
                            previous_mode: entry.mode,
                            previous_arm: arm,
                            desired_interest: interest,
                            desired_mode: mode,
                        },
                    )
                },
            },
        },
{
    match model.record_modify(interest, mode) {
        Ok(entry) => Ok(entry),
        Err(actual) => precondition("proven registered handle", actual),
    }
}

/// Whether a generated modification's result follows its outcome: success
/// for a success, otherwise the scripted modification error.
pub open spec fn modify_result_passes(outcome: Outcome, result: Result<(), ObservedError>) -> bool {
    match (outcome, result) {
        (Outcome::Success, Ok(())) => true,
        (_, Err(error)) => outcome != Outcome::Success && error.class == (PollError::Mutation {
            operation: Operation::Modify,
            commit: outcome.spec_commit()->0,
            kind: SourceKind::TimedOut,
        }),
        _ => false,
    }
}

/// How the answer to a generated modification with `outcome` is judged:
/// success for a success, otherwise the scripted modification error.
pub open spec fn modify_result_judged(
    outcome: Outcome,
    result: Result<(), ObservedError>,
    verdict: Result<(), Divergence>,
) -> bool {
    match (outcome, result) {
        (Outcome::Success, Ok(())) => verdict is Ok,
        (Outcome::Success, Err(error)) => diverged(
            verdict,
            ModelSequenceCheck::Result,
            quoted("successful mutation"@),
            error.text@,
        ),
        (_, Ok(())) => diverged(verdict, ModelSequenceCheck::Result, quoted("mutation failure"@), quoted("success"@)),
        (_, Err(error)) => {
            let commit = outcome.spec_commit()->0;
            if error.class == (PollError::Mutation { operation: Operation::Modify, commit, kind: SourceKind::TimedOut }) {
                verdict is Ok
            } else {
                diverged(
                    verdict,
                    ModelSequenceCheck::Commit,
                    mutation_expectation(Operation::Modify, commit, SourceKind::TimedOut),
                    error.text@,
                )
            }
        },
    }
}

/// Judges the poller's answer to a recorded modification and completes
/// the model's transition.
pub fn modify_answer(
    model: &mut ReferenceModel,
    outcome: Outcome,
    interest: InterestSet,
    mode: Mode,
    result: Result<(), ObservedError>,
) -> (verdict: Result<(), Divergence>)
    requires
        old(model).wf(),
        old(model).spec_active() is Some,
    ensures
        final(model).wf(),
        (verdict is Ok) <==> modify_result_passes(outcome, result),
        modify_result_judged(outcome, result, verdict),
        verdict is Ok ==> final(model).spec_active() == Some(
            spec_after_modify(old(model).spec_active()->0, outcome, None, interest, mode),
        ),
        final(model).spec_issued() == old(model).spec_issued(),
        final(model).spec_retired() == old(model).spec_retired(),
        final(model).spec_calls() == old(model).spec_calls(),
{
    match expect_mutation_result(result, outcome, Operation::Modify, SourceKind::TimedOut) {
        Ok(()) => {},
        Err(d) => {
            return Err(d);
        },
    }
    match model.complete_modify(outcome, None, interest, mode) {
        Ok(()) => Ok(()),
        Err(actual) => precondition("valid modify transition", actual),
    }
}

/// Returns the active registration's generation for a modification with
/// empty interest.
pub fn modify_invalid_step(model: &ReferenceModel) -> (verdict: Result<RegistrationId, Divergence>)
    ensures
        match model.spec_active() {
            None => diverged(
                verdict,
                ModelSequenceCheck::Precondition,
                quoted("active handle"@),
                quoted("vacant slot"@),
            ),
            Some(entry) => verdict == Ok::<RegistrationId, Divergence>(entry.registration),
        },
{
    match model.active() {
        None => precondition("active handle", "vacant slot"),
        Some(entry) => Ok(entry.registration),
    }
}

/// Judges a modification with empty interest: it must fail with the
/// invalid-interest error and reach no backend.
pub fn modify_invalid_answer(
    result: &Result<(), ObservedError>,
    calls_before: usize,
    calls_after: usize,
) -> (verdict: Result<(), Divergence>)
    ensures
        (verdict is Ok) <==> (result matches Err(error) && error.class == PollError::InvalidInterest
            && calls_before == calls_after),
        match result {
            Ok(()) => diverged(
                verdict,
                ModelSequenceCheck::Result,
                quoted("InvalidInterest modify error"@),
                quoted("success"@),
            ),
            Err(error) => invalid_interest_judged(*error, calls_before, calls_after, "invalid modify"@, verdict),
        },
{
    match result {
        Ok(()) => Err(divergence(ModelSequenceCheck::Result, "InvalidInterest modify error", "success")),
        Err(error) => match expect_invalid_interest(error) {
            Ok(()) => expect_call_count(calls_before, calls_after, "invalid modify"),
            Err(d) => Err(d),
        },
    }
}

/// Records a deletion of the active registration and returns the entry it
/// deletes.
pub fn delete_step(model: &mut ReferenceModel) -> (verdict: Result<Entry, Divergence>)
    requires
        old(model).wf(),
    ensures
        final(model).wf(),
        final(model).spec_active() == old(model).spec_active(),
        final(model).spec_issued() == old(model).spec_issued(),
        final(model).spec_retired() == old(model).spec_retired(),
        match old(model).spec_active() {
            None => diverged(
                verdict,
                ModelSequenceCheck::Precondition,
                quoted("active handle"@),
                quoted("delete requires a handle"@),
            ),
            Some(entry) => {
                &&& verdict == Ok::<Entry, Divergence>(entry)
                &&& final(model).spec_calls() == old(model).spec_calls().push(
                    MutationCall::Delete {
                        registration: entry.registration,
                        interest: entry.interest,
                        state: entry.state,
                    },
                )
            },
        },
{
    match model.record_delete() {
        Ok(entry) => Ok(entry),
        Err(actual) => precondition("active handle", actual),
    }
}

/// Whether a generated deletion of `registration` conforms: success for a
/// success, otherwise the scripted deletion error lending and returning
/// the deleted handle.
pub open spec fn delete_passes(
    outcome: Outcome,
    registration: RegistrationId,
    result: Result<(), DeleteFailure>,
) -> bool {
    match outcome {
        Outcome::Success => result is Ok,
        _ => result matches Err(failure) && failure.borrowed == registration && failure.returned
            == registration && failure.cause.class == (PollError::Mutation {
            operation: Operation::Delete,
            commit: outcome.spec_commit()->0,
            kind: SourceKind::BrokenPipe,
        }),
    }
}

/// How the answer to a generated deletion of `registration` with
/// `outcome` is judged; `error_text` is the diagnostic text of a failure.
pub open spec fn delete_result_judged(
    outcome: Outcome,
    registration: RegistrationId,
    result: Result<(), DeleteFailure>,
    error_text: Seq<char>,
    verdict: Result<(), Divergence>,
) -> bool {
    match (outcome, result) {
        (Outcome::Success, Ok(())) => verdict is Ok,
        (Outcome::Success, Err(_)) => diverged(verdict, ModelSequenceCheck::Result, quoted("successful delete"@), error_text),
        (_, Ok(())) => diverged(verdict, ModelSequenceCheck::Result, quoted("delete failure"@), quoted("success"@)),
        (_, Err(failure)) => {
            let commit = outcome.spec_commit()->0;
            if failure.borrowed != registration || failure.returned != registration {
                diverged(verdict, ModelSequenceCheck::Handle, id_text(registration), failure.handles_text@)
            } else if failure.cause.class == (PollError::Mutation {
                operation: Operation::Delete,
                commit,
                kind: SourceKind::BrokenPipe,
            }) {
                verdict is Ok
            } else {
                diverged(
                    verdict,
                    ModelSequenceCheck::Commit,
                    mutation_expectation(Operation::Delete, commit, SourceKind::BrokenPipe),
                    failure.cause.text@,
                )
            }
        },
    }
}

/// Judges the poller's answer to a recorded deletion of the active
/// registration and completes the model's transition; `error_text` is the
/// diagnostic text of a failure.
pub fn delete_answer(
    model: &mut ReferenceModel,
    outcome: Outcome,
    result: Result<(), DeleteFailure>,
    error_text: &str,
) -> (verdict: Result<(), Divergence>)
    requires
        old(model).wf(),
        old(model).spec_active() is Some,
    ensures
        final(model).wf(),
        (verdict is Ok) <==> delete_passes(outcome, old(model).spec_active()->0.registration, result),
        delete_result_judged(outcome, old(model).spec_active()->0.registration, result, error_text@, verdict),
        verdict is Ok ==> {
            &&& final(model).spec_active() == spec_after_delete(old(model).spec_active()->0, outcome)
            &&& final(model).spec_retired() == if outcome == Outcome::Success || outcome == Outcome::Applied {
                old(model).spec_retired().push(old(model).spec_active()->0.registration)
            } else {
                old(model).spec_retired()
            }
        },
        final(model).spec_issued() == old(model).spec_issued(),
        final(model).spec_calls() == old(model).spec_calls(),
{
    let registration = match model.active() {
        Some(entry) => entry.registration,
        None => {
            return precondition("active handle", "vacant slot");
        },
    };
    match outcome {
        Outcome::Success => {
            if result.is_err() {
                return Err(divergence_observed(ModelSequenceCheck::Result, "successful delete", error_text));
            }
        },
        _ => match expect_delete_error(result, outcome, registration) {
            Ok(()) => {},
            Err(d) => {
                return Err(d);
            },
        },
    }
    match model.complete_delete(outcome) {
        Ok(()) => Ok(()),
        Err(actual) => precondition("valid delete transition", actual),
    }
}

/// Returns the most recently retired generation for a stale probe.
pub fn stale_probe_step(model: &ReferenceModel) -> (verdict: Result<RegistrationId, Divergence>)
    ensures
        if model.spec_retired().len() == 0 {
            diverged(
                verdict,
                ModelSequenceCheck::Precondition,
                quoted("retired handle"@),
                quoted("no retired handle"@),
            )
        } else {
            verdict == Ok::<RegistrationId, Divergence>(model.spec_retired().last())
        },
{
    match model.stale() {
        None => precondition("retired handle", "no retired handle"),
        Some(id) => Ok(id),
    }
}

/// Returns the active generation for a probe through a stranger poller.
pub fn wrong_poller_probe_step(model: &ReferenceModel) -> (verdict: Result<RegistrationId, Divergence>)
    ensures
        match model.spec_active() {
            None => diverged(
                verdict,
                ModelSequenceCheck::Precondition,
                quoted("active handle"@),
                quoted("vacant slot"@),
            ),
            Some(entry) => verdict == Ok::<RegistrationId, Divergence>(entry.registration),
        },
{
    modify_invalid_step(model)
}

/// The modification a rejection probe requests: readable one-shot of a
/// retired handle, writable level through the stranger poller.
pub open spec fn spec_probe_modification(rejection: Rejection) -> (InterestSet, Mode) {
    match rejection {
        Rejection::Stale => (InterestSet { readable: true, writable: false }, Mode::OneShot),
        Rejection::WrongPoller => (InterestSet { readable: false, writable: true }, Mode::Level),
    }
}

/// Returns the modification a rejection probe requests.
pub fn probe_modification(rejection: Rejection) -> (request: (InterestSet, Mode))
    ensures
        request == spec_probe_modification(rejection),
{
    match rejection {
        Rejection::Stale => (InterestSet { readable: true, writable: false }, Mode::OneShot),
        Rejection::WrongPoller => (InterestSet { readable: false, writable: true }, Mode::Level),
    }
}

/// The answers to a rejection probe: the state query, a modification, and
/// a deletion, whose rejection carries the returned handle and its cause,
/// each with its diagnostic text.
pub struct ProbeAnswers {
    /// The state query's result.
    pub state: Result<RegistrationState, ObservedError>,
    /// Diagnostic text of the state query's result.
    pub state_text: String,
    /// The modification's result.
    pub modified: Result<(), ObservedError>,
    /// Diagnostic text of the modification's result.
    pub modified_text: String,
    /// The deletion's rejection: the returned handle and its cause; none
    /// when the deletion succeeded.
    pub deleted: Option<(RegistrationId, ObservedError)>,
    /// Diagnostic text of the deletion's cause.
    pub deleted_text: String,
    /// Backend calls before the probe.
    pub calls_before: usize,
    /// Backend calls after the probe.
    pub calls_after: usize,
}

/// Whether `result` is `rejection` of `registration`.
pub open spec fn rejected_as<T>(
    rejection: Rejection,
    registration: RegistrationId,
    result: Result<T, ObservedError>,
) -> bool {
    result matches Err(error) && rejection.spec_matches(error.class, registration)
}

/// How the answers to a rejection probe of `registration` are judged, in
/// order: the state query, the modification, the deletion and the handle
/// it returns, its cause, and the call count.
pub open spec fn probe_judged(
    rejection: Rejection,
    registration: RegistrationId,
    answers: ProbeAnswers,
    verdict: Result<(), Divergence>,
) -> bool {
    let expected = quoted(rejection_text(rejection, registration));
    let action = if rejection == Rejection::Stale {
        "stale probe"@
    } else {
        "wrong-poller probe"@
    };
    if answers.state is Ok {
        diverged(
            verdict,
            ModelSequenceCheck::Result,
            quoted(rejection.spec_label() + " state error"@),
            answers.state_text@,
        )
    } else if !rejected_as(rejection, registration, answers.state) {
        diverged(verdict, ModelSequenceCheck::Result, expected, quoted(answers.state_text@))
    } else if !rejected_as(rejection, registration, answers.modified) {
        diverged(verdict, ModelSequenceCheck::Result, expected, quoted(answers.modified_text@))
    } else {
        match answers.deleted {
            None => diverged(
                verdict,
                ModelSequenceCheck::Result,
                quoted(
                    if rejection == Rejection::Stale {
                        "stale delete rejection"@
                    } else {
                        "wrong-poller delete rejection"@
                    },
                ),
                quoted("success"@),
            ),
            Some((returned, cause)) => if returned != registration {
                diverged(verdict, ModelSequenceCheck::Handle, id_text(registration), id_text(returned))
            } else if !rejection.spec_matches(cause.class, registration) {
                diverged(verdict, ModelSequenceCheck::Result, expected, quoted(answers.deleted_text@))
            } else if answers.calls_before != answers.calls_after {
                diverged(
                    verdict,
                    ModelSequenceCheck::Calls,
                    calls_changed(answers.calls_before, answers.calls_after, action).0,
                    calls_changed(answers.calls_before, answers.calls_after, action).1,
                )
            } else {
                verdict is Ok
            },
        }
    }
}

/// Judges a rejection probe of `registration`: the state query, the
/// modification and the deletion must each be rejected as `rejection`, the
/// deletion must return the probed handle, and no backend call may happen.
pub fn probe_answer(
    rejection: Rejection,
    registration: RegistrationId,
    answers: ProbeAnswers,
) -> (verdict: Result<(), Divergence>)
    ensures
        (verdict is Ok) <==> ({
            &&& rejected_as(rejection, registration, answers.state)
            &&& rejected_as(rejection, registration, answers.modified)
            &&& answers.deleted matches Some((returned, cause)) && returned == registration
                && rejection.spec_matches(cause.class, registration)
            &&& answers.calls_before == answers.calls_after
        }),
        probe_judged(rejection, registration, answers, verdict),
{
    let ProbeAnswers { state, state_text, modified, modified_text, deleted, deleted_text, calls_before, calls_after } =
        answers;
    match expect_rejected_state(rejection, state, state_text.as_str(), registration) {
        Ok(()) => {},
        Err(d) => {
            return Err(d);
        },
    }
    match expect_rejection(rejection, modified, modified_text.as_str(), registration) {
        Ok(()) => {},
        Err(d) => {
            return Err(d);
        },
    }
    let stale = rejection == Rejection::Stale;
    let (returned, cause) = match deleted {
        None => {
            return if stale {
                Err(divergence(ModelSequenceCheck::Result, "stale delete rejection", "success"))
            } else {
                Err(divergence(ModelSequenceCheck::Result, "wrong-poller delete rejection", "success"))
            };
        },
        Some((returned, cause)) => (returned, cause),
    };
    match expect_returned_handle(registration, returned) {
        Ok(()) => {},
        Err(d) => {
            return Err(d);
        },
    }
    match expect_rejection(rejection, Err(cause), deleted_text.as_str(), registration) {
        Ok(()) => {},
        Err(d) => {
            return Err(d);
        },
    }
    if stale {
        expect_call_count(calls_before, calls_after, "stale probe")
    } else {
        expect_call_count(calls_before, calls_after, "wrong-poller probe")
    }
}

/// What the caller queries after every action.
#[derive(Clone, Copy, Debug, Eq, PartialEq, Structural)]
pub enum SequenceQuery {
    /// The backend calls so far.
    Calls,
    /// The active registration's portable state.
    ActiveState(RegistrationId),
    /// The backend state of an issued generation.
    Backend(RegistrationId),
    /// The portable state of a retired handle.
    Retired(RegistrationId),
    /// The stranger poller's registration, backend and calls.
    Stranger,
}

/// The queries after an action: the calls, the active registration's
/// state, the backend state of every issued generation, the state of every
/// retired handle, and the untouched stranger poller, in that order.
pub open spec fn spec_verification_queries(
    active: Option<Entry>,
    issued: Seq<RegistrationId>,
    retired: Seq<RegistrationId>,
) -> Seq<SequenceQuery> {
    let active_queries = match active {
        Some(entry) => seq![SequenceQuery::ActiveState(entry.registration)],
        None => Seq::empty(),
    };
    seq![SequenceQuery::Calls] + active_queries + issued.map_values(|id: RegistrationId| SequenceQuery::Backend(id))
        + retired.map_values(|id: RegistrationId| SequenceQuery::Retired(id)) + seq![SequenceQuery::Stranger]
}

/// Returns the queries after an action on `model`.
pub fn verification_queries(model: &ReferenceModel) -> (queries: Vec<SequenceQuery>)
    ensures
        queries@ == spec_verification_queries(model.spec_active(), model.spec_issued(), model.spec_retired()),
{
    let mut queries: Vec<SequenceQuery> = Vec::new();
    queries.push(SequenceQuery::Calls);
    match model.active() {
        Some(entry) => queries.push(SequenceQuery::ActiveState(entry.registration)),
        None => {},
    }
    let ghost head = queries@;
    let issued = model.issued();
    let mut i: usize = 0;
    while i < issued.len()
        invariant
            i <= issued@.len(),
            queries@ == head + issued@.take(i as int).map_values(|id: RegistrationId| SequenceQuery::Backend(id)),
        decreases issued@.len() - i,
    {
        queries.push(SequenceQuery::Backend(issued[i]));
        assert(issued@.take(i + 1).map_values(|id: RegistrationId| SequenceQuery::Backend(id)) =~= issued@.take(
            i as int,
        ).map_values(|id: RegistrationId| SequenceQuery::Backend(id)).push(SequenceQuery::Backend(issued@[i as int])));
        i = i + 1;
    }
    assert(issued@.take(issued@.len() as int) =~= issued@);
    let ghost middle = queries@;
    let retired = model.retired();
    let mut j: usize = 0;
    while j < retired.len()
        invariant
            j <= retired@.len(),
            queries@ == middle + retired@.take(j as int).map_values(|id: RegistrationId| SequenceQuery::Retired(id)),
        decreases retired@.len() - j,
    {
        queries.push(SequenceQuery::Retired(retired[j]));
        assert(retired@.take(j + 1).map_values(|id: RegistrationId| SequenceQuery::Retired(id)) =~= retired@.take(
            j as int,
        ).map_values(|id: RegistrationId| SequenceQuery::Retired(id)).push(SequenceQuery::Retired(retired@[j as int])));
        j = j + 1;
    }
    assert(retired@.take(retired@.len() as int) =~= retired@);
    queries.push(SequenceQuery::Stranger);
    assert(queries@ =~= spec_verification_queries(model.spec_active(), model.spec_issued(), model.spec_retired()));
    queries
}

/// After every action the calls are checked first and the stranger poller
/// last; the active registration's state is checked exactly when one is
/// active; the backend state of every issued generation is checked in issue
/// order; and every retired handle is probed for staleness, in retirement
/// order, with no probe for a handle that was not retired.
pub proof fn law_queries_probe_every_handle(
    active: Option<Entry>,
    issued: Seq<RegistrationId>,
    retired: Seq<RegistrationId>,
)
    ensures
        ({
            let queries = spec_verification_queries(active, issued, retired);
            let first: int = if active is Some {
                2
            } else {
                1
            };
            &&& queries.len() == first + issued.len() + retired.len() + 1
            &&& queries[0] == SequenceQuery::Calls
            &&& queries.last() == SequenceQuery::Stranger
            &&& active matches Some(entry) ==> queries[1] == SequenceQuery::ActiveState(entry.registration)
            &&& forall|k: int|
                0 <= k < issued.len() ==> queries[first + k] == SequenceQuery::Backend(#[trigger] issued[k])
            &&& forall|k: int|
                0 <= k < retired.len() ==> queries[first + issued.len() + k] == SequenceQuery::Retired(
                    #[trigger] retired[k],
                )
            &&& forall|id: RegistrationId|
                #![trigger queries.contains(SequenceQuery::Retired(id))]
                queries.contains(SequenceQuery::Retired(id)) <==> retired.contains(id)
        }),
{
    let queries = spec_verification_queries(active, issued, retired);
    let first: int = if active is Some {
        2
    } else {
        1
    };
    let offset = first + issued.len();
    assert forall|id: RegistrationId| #![trigger queries.contains(SequenceQuery::Retired(id))]
        queries.contains(SequenceQuery::Retired(id)) <==> retired.contains(id) by {
        if queries.contains(SequenceQuery::Retired(id)) {
            let i = choose|i: int| 0 <= i < queries.len() && queries[i] == SequenceQuery::Retired(id);
            assert(offset <= i < offset + retired.len());
            assert(retired[i - offset] == id);
        }
        if retired.contains(id) {
            let k = choose|k: int| 0 <= k < retired.len() && retired[k] == id;
            assert(queries[offset + k] == SequenceQuery::Retired(id));
        }
    }
}

} // verus!
