//! Result, identity, and call judgments for generated mutation actions.
//!
//! The caller performs each scripted-poller request and hands its
//! classified outcome here, with the diagnostic text of the outside values;
//! these functions decide whether the step diverged and how.

use vstd::prelude::*;

use crate::model_sequence::{CommitStatus, InterestSet, Key, Mode, Operation, Outcome};
use crate::model_sequence_failure::{divergence_is, Divergence, ModelSequenceCheck};
use crate::model_sequence_model::{
    BackendState, MutationCall, ReferenceModel, RegistrationId, RegistrationState,
};
use crate::mutation_text::{
    interest_debug, key_debug, mode_debug, render_interest, render_key, render_mode,
};
use crate::text::{decimal, escape, escaped, push_decimal};

verus! {

/// The I/O error kind a scripted mutation failure carries.
#[derive(Clone, Copy, Debug, Eq, PartialEq, Structural)]
pub enum SourceKind {
    /// Permission denied: the kind scripted for registrations.
    PermissionDenied,
    /// Timed out: the kind scripted for modifications.
    TimedOut,
    /// Broken pipe: the kind scripted for deletions.
    BrokenPipe,
    /// Any other kind.
    Other,
}

/// The portable classification of a poller error.
#[derive(Clone, Copy, Debug, Eq, PartialEq, Structural)]
pub enum PollError {
    /// A backend mutation failed with an exact commit status.
    Mutation { operation: Operation, commit: CommitStatus, kind: SourceKind },
    /// The requested interest is empty.
    InvalidInterest,
    /// The registration generation is no longer retained.
    Stale { registration: RegistrationId },
    /// The registration belongs to another poller.
    WrongPoller { registration: RegistrationId },
    /// The registration's backend state cannot be proven.
    Uncertain { registration: RegistrationId },
    /// The poller's fixed registration capacity is exhausted.
    RegistrationCapacity { limit: u64 },
    /// Any other failure.
    Other,
}

/// A classified poller error and its diagnostic text.
#[derive(Debug)]
pub struct ObservedError {
    /// The classification.
    pub class: PollError,
    /// The diagnostic text of the classified error.
    pub text: String,
}

/// A failed registration: its cause, the handle the error lends, the handle
/// it returns when split, and the diagnostic texts of the whole error and of
/// the returned handle.
#[derive(Debug)]
pub struct RegisterFailure {
    /// The classified cause.
    pub cause: ObservedError,
    /// Diagnostic text of the whole registration error.
    pub text: String,
    /// The handle borrowed from the error.
    pub borrowed: Option<RegistrationId>,
    /// The handle returned by splitting the error.
    pub returned: Option<RegistrationId>,
    /// Diagnostic text of the returned handle.
    pub returned_text: String,
}

/// A failed deletion: its cause, the lent and returned handles, and the
/// diagnostic text of both handles.
#[derive(Debug)]
pub struct DeleteFailure {
    /// The classified cause.
    pub cause: ObservedError,
    /// The handle borrowed from the error.
    pub borrowed: RegistrationId,
    /// The handle returned by splitting the error.
    pub returned: RegistrationId,
    /// Diagnostic text of the borrowed and returned handles.
    pub handles_text: String,
}

/// A text as its debug form shows it: escaped and wrapped in double quotes.
pub open spec fn quoted(text: Seq<char>) -> Seq<char> {
    "\""@ + escaped(text) + "\""@
}

/// Returns `text` as its debug form shows it.
pub fn quote(text: &str) -> (wrapped: String)
    ensures
        wrapped@ == quoted(text@),
{
    let mut wrapped = String::from_str("\"");
    let inner = escape(text);
    wrapped.append(inner.as_str());
    wrapped.append("\"");
    wrapped
}

/// A divergence whose expectation and outcome are quoted texts.
pub fn divergence(check: ModelSequenceCheck, expected: &str, actual: &str) -> (found: Divergence)
    ensures
        divergence_is(found, check, quoted(expected@), quoted(actual@)),
{
    Divergence::new(check, quote(expected), quote(actual))
}

/// A divergence with a quoted expectation and an already rendered outcome.
pub fn divergence_observed(check: ModelSequenceCheck, expected: &str, actual: &str) -> (found: Divergence)
    ensures
        divergence_is(found, check, quoted(expected@), actual@),
{
    Divergence::new(check, quote(expected), String::from_str(actual))
}

/// The debug text of a generation.
pub open spec fn id_text(id: RegistrationId) -> Seq<char> {
    "RegistrationId("@ + decimal(id.value as nat) + ")"@
}

/// Returns the debug text of a generation.
pub fn render_id(id: RegistrationId) -> (text: String)
    ensures
        text@ == id_text(id),
{
    let mut text = String::from_str("RegistrationId(");
    push_decimal(&mut text, id.value);
    text.append(")");
    text
}

/// The divergence of a step whose backend call count changed.
pub open spec fn calls_changed(expected: usize, actual: usize, action: Seq<char>) -> (Seq<char>, Seq<char>) {
    (
        decimal(expected as nat) + " calls before "@ + action,
        decimal(actual as nat) + " calls after "@ + action,
    )
}

/// Requires a request to leave the backend call count unchanged.
pub fn expect_call_count(expected: usize, actual: usize, action: &str) -> (verdict: Result<(), Divergence>)
    ensures
        expected == actual ==> verdict is Ok,
        expected != actual ==> (verdict matches Err(d) && divergence_is(
            d,
            ModelSequenceCheck::Calls,
            calls_changed(expected, actual, action@).0,
            calls_changed(expected, actual, action@).1,
        )),
{
    if actual == expected {
        Ok(())
    } else {
        let mut before = String::new();
        push_decimal(&mut before, expected as u64);
        before.append(" calls before ");
        before.append(action);
        let mut after = String::new();
        push_decimal(&mut after, actual as u64);
        after.append(" calls after ");
        after.append(action);
        Err(Divergence::new(ModelSequenceCheck::Calls, before, after))
    }
}

/// Requires an empty-interest rejection.
pub fn expect_invalid_interest(error: &ObservedError) -> (verdict: Result<(), Divergence>)
    ensures
        error.class == PollError::InvalidInterest ==> verdict is Ok,
        error.class != PollError::InvalidInterest ==> (verdict matches Err(d) && divergence_is(
            d,
            ModelSequenceCheck::Result,
            quoted("InvalidInterest"@),
            error.text@,
        )),
{
    match error.class {
        PollError::InvalidInterest => Ok(()),
        _ => Err(divergence_observed(ModelSequenceCheck::Result, "InvalidInterest", error.text.as_str())),
    }
}

impl Operation {
    /// The operation's debug name.
    pub open spec fn spec_label(self) -> Seq<char> {
        match self {
            Operation::Register => "Register"@,
            Operation::Modify => "Modify"@,
            Operation::Delete => "Delete"@,
        }
    }

    /// Returns the operation's debug name.
    pub fn label(self) -> (label: &'static str)
        ensures
            label@ == self.spec_label(),
    {
        match self {
            Operation::Register => "Register",
            Operation::Modify => "Modify",
            Operation::Delete => "Delete",
        }
    }
}

impl CommitStatus {
    /// The status's debug name.
    pub open spec fn spec_label(self) -> Seq<char> {
        match self {
            CommitStatus::NotApplied => "NotApplied"@,
            CommitStatus::Applied => "Applied"@,
            CommitStatus::Unknown => "Unknown"@,
        }
    }

    /// Returns the status's debug name.
    pub fn label(self) -> (label: &'static str)
        ensures
            label@ == self.spec_label(),
    {
        match self {
            CommitStatus::NotApplied => "NotApplied",
            CommitStatus::Applied => "Applied",
            CommitStatus::Unknown => "Unknown",
        }
    }
}

impl SourceKind {
    /// The kind's debug name.
    pub open spec fn spec_label(self) -> Seq<char> {
        match self {
            SourceKind::PermissionDenied => "PermissionDenied"@,
            SourceKind::TimedOut => "TimedOut"@,
            SourceKind::BrokenPipe => "BrokenPipe"@,
            SourceKind::Other => "Other"@,
        }
    }

    /// Returns the kind's debug name.
    pub fn label(self) -> (label: &'static str)
        ensures
            label@ == self.spec_label(),
    {
        match self {
            SourceKind::PermissionDenied => "PermissionDenied",
            SourceKind::TimedOut => "TimedOut",
            SourceKind::BrokenPipe => "BrokenPipe",
            SourceKind::Other => "Other",
        }
    }
}

/// The error kind scripted for each operation's failures.
pub open spec fn spec_source_kind(operation: Operation) -> SourceKind {
    match operation {
        Operation::Register => SourceKind::PermissionDenied,
        Operation::Modify => SourceKind::TimedOut,
        Operation::Delete => SourceKind::BrokenPipe,
    }
}

/// Returns the error kind scripted for each operation's failures.
pub fn source_kind(operation: Operation) -> (kind: SourceKind)
    ensures
        kind == spec_source_kind(operation),
{
    match operation {
        Operation::Register => SourceKind::PermissionDenied,
        Operation::Modify => SourceKind::TimedOut,
        Operation::Delete => SourceKind::BrokenPipe,
    }
}

/// The expectation text of a mutation error.
pub open spec fn mutation_expectation(
    operation: Operation,
    commit: CommitStatus,
    kind: SourceKind,
) -> Seq<char> {
    operation.spec_label() + "/"@ + commit.spec_label() + "/"@ + kind.spec_label()
}

/// Requires a failed outcome's exact mutation error: operation, commit
/// status, and error kind.
pub fn expect_mutation_error(
    error: &ObservedError,
    outcome: Outcome,
    operation: Operation,
    kind: SourceKind,
) -> (verdict: Result<(), Divergence>)
    ensures
        match outcome.spec_commit() {
            None => verdict matches Err(d) && divergence_is(
                d,
                ModelSequenceCheck::Result,
                quoted("failed mutation outcome"@),
                quoted("success"@),
            ),
            Some(commit) => if error.class == (PollError::Mutation { operation, commit, kind }) {
                verdict is Ok
            } else {
                verdict matches Err(d) && divergence_is(
                    d,
                    ModelSequenceCheck::Commit,
                    mutation_expectation(operation, commit, kind),
                    error.text@,
                )
            },
        },
{
    let commit = match outcome.commit() {
        None => {
            return Err(divergence(ModelSequenceCheck::Result, "failed mutation outcome", "success"));
        },
        Some(commit) => commit,
    };
    if error.class == (PollError::Mutation { operation, commit, kind }) {
        Ok(())
    } else {
        let mut expected = String::from_str(operation.label());
        expected.append("/");
        expected.append(commit.label());
        expected.append("/");
        expected.append(kind.label());
        Err(Divergence::new(ModelSequenceCheck::Commit, expected, String::from_str(error.text.as_str())))
    }
}

/// Requires a modification's result to follow its planned outcome.
pub fn expect_mutation_result(
    result: Result<(), ObservedError>,
    outcome: Outcome,
    operation: Operation,
    kind: SourceKind,
) -> (verdict: Result<(), Divergence>)
    ensures
        match (outcome, result) {
            (Outcome::Success, Ok(())) => verdict is Ok,
            (Outcome::Success, Err(error)) => verdict matches Err(d) && divergence_is(
                d,
                ModelSequenceCheck::Result,
                quoted("successful mutation"@),
                error.text@,
            ),
            (_, Ok(())) => verdict matches Err(d) && divergence_is(
                d,
                ModelSequenceCheck::Result,
                quoted("mutation failure"@),
                quoted("success"@),
            ),
            (_, Err(error)) => (verdict is Ok <==> error.class == (PollError::Mutation {
                operation,
                commit: outcome.spec_commit()->0,
                kind,
            })) && (verdict matches Err(d) ==> divergence_is(
                d,
                ModelSequenceCheck::Commit,
                mutation_expectation(operation, outcome.spec_commit()->0, kind),
                error.text@,
            )),
        },
{
    match (outcome, result) {
        (Outcome::Success, Ok(())) => Ok(()),
        (Outcome::Success, Err(error)) => Err(
            divergence_observed(ModelSequenceCheck::Result, "successful mutation", error.text.as_str()),
        ),
        (_, Ok(())) => Err(divergence(ModelSequenceCheck::Result, "mutation failure", "success")),
        (_, Err(error)) => expect_mutation_error(&error, outcome, operation, kind),
    }
}


/// The debug text of an optional generation.
pub open spec fn option_id_text(id: Option<RegistrationId>) -> Seq<char> {
    match id {
        None => "None"@,
        Some(id) => "Some("@ + id_text(id) + ")"@,
    }
}

/// Returns the debug text of an optional generation.
pub fn render_option_id(id: Option<RegistrationId>) -> (text: String)
    ensures
        text@ == option_id_text(id),
{
    match id {
        None => String::from_str("None"),
        Some(id) => {
            let mut text = String::from_str("Some(");
            let inner = render_id(id);
            text.append(inner.as_str());
            text.append(")");
            text
        },
    }
}

/// Requires a successful registration of the generation the backend
/// observed.
pub fn successful_register(result: Result<RegistrationId, RegisterFailure>, expected: RegistrationId) -> (verdict: Result<RegistrationId, Divergence>)
    ensures
        match result {
            Err(failure) => verdict matches Err(d) && divergence_is(
                d,
                ModelSequenceCheck::Result,
                quoted("successful register"@),
                failure.text@,
            ),
            Ok(id) => if id == expected {
                verdict == Ok::<RegistrationId, Divergence>(id)
            } else {
                verdict matches Err(d) && divergence_is(
                    d,
                    ModelSequenceCheck::Handle,
                    id_text(expected),
                    id_text(id),
                )
            },
        },
{
    match result {
        Err(failure) => Err(
            divergence_observed(ModelSequenceCheck::Result, "successful register", failure.text.as_str()),
        ),
        Ok(id) => if id == expected {
            Ok(id)
        } else {
            Err(Divergence::new(ModelSequenceCheck::Handle, render_id(expected), render_id(id)))
        },
    }
}

/// Requires a failed registration with the planned mutation error, the
/// same lent and returned handle, and a handle exactly when the outcome
/// retains one: none when not applied, the observed generation when applied
/// or unknown.
pub fn failed_register(
    result: Result<RegistrationId, RegisterFailure>,
    outcome: Outcome,
    expected: RegistrationId,
) -> (verdict: Result<Option<RegistrationId>, Divergence>)
    ensures
        match result {
            Ok(_) => verdict matches Err(d) && divergence_is(
                d,
                ModelSequenceCheck::Result,
                quoted("register failure"@),
                quoted("success"@),
            ),
            Err(failure) => match outcome.spec_commit() {
                None => verdict is Err,
                Some(commit) => if failure.cause.class != (PollError::Mutation {
                    operation: Operation::Register,
                    commit,
                    kind: SourceKind::PermissionDenied,
                }) {
                    verdict matches Err(d) && divergence_is(
                        d,
                        ModelSequenceCheck::Commit,
                        mutation_expectation(Operation::Register, commit, SourceKind::PermissionDenied),
                        failure.cause.text@,
                    )
                } else if failure.borrowed != failure.returned {
                    verdict matches Err(d) && divergence_is(
                        d,
                        ModelSequenceCheck::Handle,
                        quoted(option_id_text(failure.borrowed)),
                        quoted(option_id_text(failure.returned)),
                    )
                } else {
                    match outcome {
                        Outcome::NotApplied => if failure.returned is None {
                            verdict == Ok::<Option<RegistrationId>, Divergence>(None)
                        } else {
                            verdict matches Err(d) && divergence_is(
                                d,
                                ModelSequenceCheck::Handle,
                                quoted("no handle for not-applied register"@),
                                option_id_text(failure.returned),
                            )
                        },
                        _ => match failure.returned {
                            None => verdict matches Err(d) && divergence_is(
                                d,
                                ModelSequenceCheck::Handle,
                                id_text(expected),
                                quoted("no handle"@),
                            ),
                            Some(id) => if id == expected {
                                verdict == Ok::<Option<RegistrationId>, Divergence>(Some(id))
                            } else {
                                verdict matches Err(d) && divergence_is(
                                    d,
                                    ModelSequenceCheck::Handle,
                                    id_text(expected),
                                    id_text(id),
                                )
                            },
                        },
                    }
                },
            },
        },
{
    let failure = match result {
        Ok(_) => {
            return Err(divergence(ModelSequenceCheck::Result, "register failure", "success"));
        },
        Err(failure) => failure,
    };
    match expect_mutation_error(&failure.cause, outcome, Operation::Register, SourceKind::PermissionDenied) {
        Ok(()) => {},
        Err(d) => {
            return Err(d);
        },
    }
    if failure.borrowed != failure.returned {
        let borrowed = render_option_id(failure.borrowed);
        let returned = render_option_id(failure.returned);
        return Err(Divergence::new(ModelSequenceCheck::Handle, quote(borrowed.as_str()), quote(returned.as_str())));
    }
    match outcome {
        Outcome::NotApplied => match failure.returned {
            None => Ok(None),
            Some(_) => Err(
                Divergence::new(
                    ModelSequenceCheck::Handle,
                    quote("no handle for not-applied register"),
                    render_option_id(failure.returned),
                ),
            ),
        },
        _ => match failure.returned {
            None => Err(Divergence::new(ModelSequenceCheck::Handle, render_id(expected), quote("no handle"))),
            Some(id) => if id == expected {
                Ok(Some(id))
            } else {
                Err(Divergence::new(ModelSequenceCheck::Handle, render_id(expected), render_id(id)))
            },
        },
    }
}

/// Requires a failed deletion that lends and returns the deleted handle and
/// carries the planned mutation error.
pub fn expect_delete_error(
    result: Result<(), DeleteFailure>,
    outcome: Outcome,
    expected: RegistrationId,
) -> (verdict: Result<(), Divergence>)
    ensures
        match result {
            Ok(()) => verdict matches Err(d) && divergence_is(
                d,
                ModelSequenceCheck::Result,
                quoted("delete failure"@),
                quoted("success"@),
            ),
            Err(failure) => if failure.borrowed != expected || failure.returned != expected {
                verdict matches Err(d) && divergence_is(
                    d,
                    ModelSequenceCheck::Handle,
                    id_text(expected),
                    failure.handles_text@,
                )
            } else {
                match outcome.spec_commit() {
                    None => verdict is Err,
                    Some(commit) => if failure.cause.class == (PollError::Mutation {
                        operation: Operation::Delete,
                        commit,
                        kind: SourceKind::BrokenPipe,
                    }) {
                        verdict is Ok
                    } else {
                        verdict matches Err(d) && divergence_is(
                            d,
                            ModelSequenceCheck::Commit,
                            mutation_expectation(Operation::Delete, commit, SourceKind::BrokenPipe),
                            failure.cause.text@,
                        )
                    },
                }
            },
        },
{
    let failure = match result {
        Ok(()) => {
            return Err(divergence(ModelSequenceCheck::Result, "delete failure", "success"));
        },
        Err(failure) => failure,
    };
    if failure.borrowed != expected || failure.returned != expected {
        return Err(
            Divergence::new(
                ModelSequenceCheck::Handle,
                render_id(expected),
                String::from_str(failure.handles_text.as_str()),
            ),
        );
    }
    expect_mutation_error(&failure.cause, outcome, Operation::Delete, SourceKind::BrokenPipe)
}

/// The expectation text of a registration call.
pub open spec fn register_call_text(key: Key, interest: InterestSet, mode: Mode) -> Seq<char> {
    "Register("@ + key_debug(key) + ", "@ + interest_debug(interest) + ", "@ + mode_debug(mode) + ")"@
}

/// Requires the last backend call to register `key`, `interest`, and
/// `mode`, and returns the generation it issued.
pub fn last_register_id(
    last: Option<MutationCall>,
    last_text: &str,
    key: Key,
    interest: InterestSet,
    mode: Mode,
) -> (verdict: Result<RegistrationId, Divergence>)
    ensures
        match last {
            Some(MutationCall::Register { registration, key: k, interest: i, mode: m }) if k == key
                && i == interest && m == mode => verdict == Ok::<RegistrationId, Divergence>(registration),
            _ => verdict matches Err(d) && divergence_is(
                d,
                ModelSequenceCheck::Calls,
                register_call_text(key, interest, mode),
                last_text@,
            ),
        },
{
    match last {
        Some(MutationCall::Register { registration, key: k, interest: i, mode: m }) => {
            if k == key && i == interest && m == mode {
                return Ok(registration);
            }
        },
        _ => {},
    }
    let mut expected = String::from_str("Register(");
    let key_text = render_key(key);
    expected.append(key_text.as_str());
    expected.append(", ");
    expected.append(render_interest(interest));
    expected.append(", ");
    expected.append(render_mode(mode));
    expected.append(")");
    assert(expected@ =~= register_call_text(key, interest, mode));
    Err(Divergence::new(ModelSequenceCheck::Calls, expected, String::from_str(last_text)))
}

/// Which rejection a probe expects.
#[derive(Clone, Copy, Debug, Eq, PartialEq, Structural)]
pub enum Rejection {
    /// The handle's generation was retired.
    Stale,
    /// The handle belongs to another poller.
    WrongPoller,
}

impl Rejection {
    /// The rejection's debug name.
    pub open spec fn spec_label(self) -> Seq<char> {
        match self {
            Rejection::Stale => "Stale"@,
            Rejection::WrongPoller => "WrongPoller"@,
        }
    }

    /// Returns the rejection's debug name.
    pub fn label(self) -> (label: &'static str)
        ensures
            label@ == self.spec_label(),
    {
        match self {
            Rejection::Stale => "Stale",
            Rejection::WrongPoller => "WrongPoller",
        }
    }

    /// Whether `error` is this rejection of `registration`.
    pub open spec fn spec_matches(self, error: PollError, registration: RegistrationId) -> bool {
        match self {
            Rejection::Stale => error == PollError::Stale { registration },
            Rejection::WrongPoller => error == PollError::WrongPoller { registration },
        }
    }
}

/// The expectation text of a rejection of `registration`.
pub open spec fn rejection_text(rejection: Rejection, registration: RegistrationId) -> Seq<char> {
    rejection.spec_label() + "("@ + id_text(registration) + ")"@
}

/// Requires a probe request to be rejected as `rejection` of
/// `registration`; `result_text` is the diagnostic text of the result.
pub fn expect_rejection(
    rejection: Rejection,
    result: Result<(), ObservedError>,
    result_text: &str,
    registration: RegistrationId,
) -> (verdict: Result<(), Divergence>)
    ensures
        (verdict is Ok) <==> (result matches Err(error) && rejection.spec_matches(
            error.class,
            registration,
        )),
        verdict matches Err(d) ==> divergence_is(
            d,
            ModelSequenceCheck::Result,
            quoted(rejection_text(rejection, registration)),
            quoted(result_text@),
        ),
{
    let matched = match &result {
        Err(error) => match (rejection, error.class) {
            (Rejection::Stale, PollError::Stale { registration: r }) => r == registration,
            (Rejection::WrongPoller, PollError::WrongPoller { registration: r }) => r == registration,
            _ => false,
        },
        Ok(()) => false,
    };
    if matched {
        Ok(())
    } else {
        let mut expected = String::from_str(rejection.label());
        expected.append("(");
        let id = render_id(registration);
        expected.append(id.as_str());
        expected.append(")");
        Err(Divergence::new(ModelSequenceCheck::Result, quote(expected.as_str()), quote(result_text)))
    }
}

/// Requires a probe's state query to be rejected as `rejection` of
/// `registration`.
pub fn expect_rejected_state(
    rejection: Rejection,
    result: Result<RegistrationState, ObservedError>,
    result_text: &str,
    registration: RegistrationId,
) -> (verdict: Result<(), Divergence>)
    ensures
        (verdict is Ok) <==> (result matches Err(error) && rejection.spec_matches(
            error.class,
            registration,
        )),
        result is Ok ==> (verdict matches Err(d) && divergence_is(
            d,
            ModelSequenceCheck::Result,
            quoted(rejection.spec_label() + " state error"@),
            result_text@,
        )),
        result is Err ==> (verdict matches Err(d) ==> divergence_is(
            d,
            ModelSequenceCheck::Result,
            quoted(rejection_text(rejection, registration)),
            quoted(result_text@),
        )),
{
    match result {
        Err(error) => expect_rejection(rejection, Err(error), result_text, registration),
        Ok(_) => {
            let mut expected = String::from_str(rejection.label());
            expected.append(" state error");
            Err(Divergence::new(ModelSequenceCheck::Result, quote(expected.as_str()), String::from_str(result_text)))
        },
    }
}

/// Requires a probe's delete rejection to return the probed handle.
pub fn expect_returned_handle(expected: RegistrationId, returned: RegistrationId) -> (verdict: Result<(), Divergence>)
    ensures
        expected == returned ==> verdict is Ok,
        expected != returned ==> (verdict matches Err(d) && divergence_is(
            d,
            ModelSequenceCheck::Handle,
            id_text(expected),
            id_text(returned),
        )),
{
    if expected == returned {
        Ok(())
    } else {
        Err(Divergence::new(ModelSequenceCheck::Handle, render_id(expected), render_id(returned)))
    }
}

/// The debug text of a portable state.
pub open spec fn state_text(state: RegistrationState) -> Seq<char> {
    match state {
        RegistrationState::Registered { arm } => match arm {
            crate::model_sequence::ArmState::Armed => "Registered { arm: Armed }"@,
            crate::model_sequence::ArmState::Disarmed => "Registered { arm: Disarmed }"@,
        },
        RegistrationState::Uncertain => "Uncertain"@,
    }
}

/// Returns the debug text of a portable state.
pub fn render_state(state: RegistrationState) -> (text: &'static str)
    ensures
        text@ == state_text(state),
{
    match state {
        RegistrationState::Registered { arm } => match arm {
            crate::model_sequence::ArmState::Armed => "Registered { arm: Armed }",
            crate::model_sequence::ArmState::Disarmed => "Registered { arm: Disarmed }",
        },
        RegistrationState::Uncertain => "Uncertain",
    }
}

/// Requires the backend's calls to equal the model's expected calls.
pub fn verify_calls(
    model: &ReferenceModel,
    actual: &[MutationCall],
    expected_text: &str,
    actual_text: &str,
) -> (verdict: Result<(), Divergence>)
    ensures
        (verdict is Ok) <==> (actual@ == model.spec_calls()),
        verdict matches Err(d) ==> divergence_is(
            d,
            ModelSequenceCheck::Calls,
            expected_text@,
            actual_text@,
        ),
{
    let expected = model.calls();
    let mut same = expected.len() == actual.len();
    let mut i: usize = 0;
    while same && i < expected.len()
        invariant
            expected@ == model.spec_calls(),
            i <= expected@.len(),
            same ==> expected@.len() == actual@.len(),
            same ==> forall|j: int| 0 <= j < i ==> expected@[j] == actual@[j],
            !same ==> expected@ != actual@,
        decreases expected@.len() - i,
    {
        if expected[i] != actual[i] {
            same = false;
        }
        i = i + 1;
    }
    if same {
        assert(expected@ =~= actual@);
        Ok(())
    } else {
        Err(Divergence::new(ModelSequenceCheck::Calls, String::from_str(expected_text), String::from_str(actual_text)))
    }
}

/// Requires the active handle's portable state to equal the model's.
pub fn verify_active_state(
    model: &ReferenceModel,
    observed: Result<RegistrationState, ObservedError>,
    observed_text: &str,
) -> (verdict: Result<(), Divergence>)
    ensures
        match model.spec_active() {
            None => verdict is Ok,
            Some(entry) => (verdict is Ok <==> observed == Ok::<RegistrationState, ObservedError>(entry.state) || (observed matches Ok(state) && state == entry.state)) && (verdict matches Err(d) ==> divergence_is(
                d,
                ModelSequenceCheck::State,
                state_text(entry.state),
                observed_text@,
            )),
        },
{
    match model.active() {
        None => Ok(()),
        Some(entry) => {
            let matched = match observed {
                Ok(state) => state == entry.state,
                Err(_) => false,
            };
            if matched {
                Ok(())
            } else {
                Err(Divergence::new(
                    ModelSequenceCheck::State,
                    String::from_str(render_state(entry.state)),
                    String::from_str(observed_text),
                ))
            }
        },
    }
}

/// Requires the backend state of an issued generation to equal the model's.
pub fn verify_backend(
    model: &ReferenceModel,
    id: RegistrationId,
    actual: BackendState,
    expected_text: &str,
    actual_text: &str,
) -> (verdict: Result<(), Divergence>)
    ensures
        (verdict is Ok) <==> actual == model.spec_expected_backend(id),
        verdict matches Err(d) ==> divergence_is(
            d,
            ModelSequenceCheck::Backend,
            expected_text@,
            actual_text@,
        ),
{
    if model.expected_backend(id) == actual {
        Ok(())
    } else {
        Err(Divergence::new(ModelSequenceCheck::Backend, String::from_str(expected_text), String::from_str(actual_text)))
    }
}

/// Requires a retired handle's state query to be rejected as stale.
pub fn verify_retired(
    expected: RegistrationId,
    observed: Result<RegistrationState, ObservedError>,
    observed_text: &str,
) -> (verdict: Result<(), Divergence>)
    ensures
        (verdict is Ok) <==> (observed matches Err(error) && error.class == PollError::Stale {
            registration: expected,
        }),
        verdict matches Err(d) ==> divergence_is(
            d,
            ModelSequenceCheck::State,
            rejection_text(Rejection::Stale, expected),
            observed_text@,
        ),
{
    let matched = match &observed {
        Err(error) => error.class == PollError::Stale { registration: expected },
        Ok(_) => false,
    };
    if matched {
        Ok(())
    } else {
        let mut text = String::from_str("Stale(");
        let id = render_id(expected);
        text.append(id.as_str());
        text.append(")");
        proof {
            reveal_strlit("Stale(");
            reveal_strlit("Stale");
            reveal_strlit("(");
        }
        assert(text@ =~= rejection_text(Rejection::Stale, expected));
        Err(Divergence::new(ModelSequenceCheck::State, text, String::from_str(observed_text)))
    }
}

} // verus!
