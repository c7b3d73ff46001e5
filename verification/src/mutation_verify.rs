//! Contract checkpoints of the scripted mutation scenarios.
//!
//! The caller drives the scripted poller and hands each classified
//! observation here; these functions decide whether the scenario still
//! conforms, and which checkpoint rejected it with which texts.

use vstd::prelude::*;

use crate::model_sequence::{ArmState, CommitStatus, InterestSet, Key, Mode, Operation};
use crate::model_sequence_expect::{
    id_text, option_id_text, quote, quoted, render_id, render_option_id, render_state,
    spec_source_kind, state_text, DeleteFailure, ObservedError, PollError, RegisterFailure,
};
use crate::model_sequence_model::{BackendState, MutationCall, RegistrationId, RegistrationState};
use crate::mutation::{Branch, ConformanceCheck, ConformanceFailure, MutationOperation, MutationScenario};
use crate::mutation_text::{
    backend_debug, call_debug, interest_debug, key_debug, mode_debug, render_backend, render_call,
    render_interest, render_key, render_mode,
};
use crate::text::{decimal, push_decimal};

verus! {

/// Whether `failure` names `scenario`, `check`, and the two texts.
pub open spec fn failure_is(
    failure: ConformanceFailure,
    scenario: MutationScenario,
    check: ConformanceCheck,
    expected: Seq<char>,
    actual: Seq<char>,
) -> bool {
    &&& failure.spec_scenario() == scenario
    &&& failure.spec_check() == check
    &&& failure.spec_expected() == expected
    &&& failure.spec_actual() == actual
}

/// Whether a checkpoint verdict rejected `scenario` at `check` with the
/// two texts.
pub open spec fn rejected<T>(
    verdict: Result<T, ConformanceFailure>,
    scenario: MutationScenario,
    check: ConformanceCheck,
    expected: Seq<char>,
    actual: Seq<char>,
) -> bool {
    verdict matches Err(failure) && failure_is(failure, scenario, check, expected, actual)
}

/// Interest installed before a modification or deletion: readable.
pub open spec fn spec_prior_interest() -> InterestSet {
    InterestSet { readable: true, writable: false }
}

/// Interest a modification installs: writable.
pub open spec fn spec_desired_interest() -> InterestSet {
    InterestSet { readable: false, writable: true }
}

/// Returns the interest installed before a modification or deletion.
pub fn prior_interest() -> (interest: InterestSet)
    ensures
        interest == spec_prior_interest(),
{
    InterestSet { readable: true, writable: false }
}

/// Returns the interest a modification installs.
pub fn desired_interest() -> (interest: InterestSet)
    ensures
        interest == spec_desired_interest(),
{
    InterestSet { readable: false, writable: true }
}

/// Mode installed before a modification or deletion: one-shot.
pub fn prior_mode() -> (mode: Mode)
    ensures
        mode == Mode::OneShot,
{
    Mode::OneShot
}

/// Mode a modification installs: level.
pub fn desired_mode() -> (mode: Mode)
    ensures
        mode == Mode::Level,
{
    Mode::Level
}

/// The source key each operation's scenarios register.
pub open spec fn spec_scenario_key(operation: MutationOperation) -> Key {
    match operation {
        MutationOperation::Register => Key { value: 101 },
        MutationOperation::Modify => Key { value: 202 },
        MutationOperation::Delete => Key { value: 303 },
    }
}

/// Returns the source key each operation's scenarios register.
pub fn scenario_key(operation: MutationOperation) -> (key: Key)
    ensures
        key == spec_scenario_key(operation),
{
    match operation {
        MutationOperation::Register => Key { value: 101 },
        MutationOperation::Modify => Key { value: 202 },
        MutationOperation::Delete => Key { value: 303 },
    }
}

/// The portable state (none when the handle is gone or retired) and the
/// backend state a scenario's target mutation must leave.
pub open spec fn spec_expected_after(scenario: MutationScenario) -> (Option<RegistrationState>, BackendState) {
    let armed = RegistrationState::Registered { arm: ArmState::Armed };
    let disarmed = RegistrationState::Registered { arm: ArmState::Disarmed };
    let prior = BackendState::Registered {
        interest: spec_prior_interest(),
        mode: Mode::OneShot,
        arm: ArmState::Disarmed,
    };
    match (scenario.spec_operation(), scenario.spec_branch()) {
        (_, Branch::Unknown) => (Some(RegistrationState::Uncertain), BackendState::Unknown),
        (MutationOperation::Register, Branch::NotApplied) => (None, BackendState::Absent),
        (MutationOperation::Register, _) => (
            Some(armed),
            BackendState::Registered { interest: spec_prior_interest(), mode: Mode::OneShot, arm: ArmState::Armed },
        ),
        (MutationOperation::Modify, Branch::NotApplied) => (Some(disarmed), prior),
        (MutationOperation::Modify, _) => (
            Some(armed),
            BackendState::Registered { interest: spec_desired_interest(), mode: Mode::Level, arm: ArmState::Armed },
        ),
        (MutationOperation::Delete, Branch::NotApplied) => (Some(disarmed), prior),
        (MutationOperation::Delete, _) => (None, BackendState::Absent),
    }
}

/// Returns the portable and backend states a scenario's target mutation
/// must leave.
pub fn expected_after(scenario: MutationScenario) -> (after: (Option<RegistrationState>, BackendState))
    ensures
        after == spec_expected_after(scenario),
{
    let armed = RegistrationState::Registered { arm: ArmState::Armed };
    let disarmed = RegistrationState::Registered { arm: ArmState::Disarmed };
    let prior = BackendState::Registered { interest: prior_interest(), mode: Mode::OneShot, arm: ArmState::Disarmed };
    match (scenario.operation(), scenario.branch()) {
        (_, Branch::Unknown) => (Some(RegistrationState::Uncertain), BackendState::Unknown),
        (MutationOperation::Register, Branch::NotApplied) => (None, BackendState::Absent),
        (MutationOperation::Register, _) => (
            Some(armed),
            BackendState::Registered { interest: prior_interest(), mode: Mode::OneShot, arm: ArmState::Armed },
        ),
        (MutationOperation::Modify, Branch::NotApplied) => (Some(disarmed), prior),
        (MutationOperation::Modify, _) => (
            Some(armed),
            BackendState::Registered { interest: desired_interest(), mode: Mode::Level, arm: ArmState::Armed },
        ),
        (MutationOperation::Delete, Branch::NotApplied) => (Some(disarmed), prior),
        (MutationOperation::Delete, _) => (None, BackendState::Absent),
    }
}

/// The interest and portable state the final cleanup deletion reports:
/// uncertain registrations keep the prior interest, modified ones report
/// the desired interest, and replacements report a fresh armed
/// registration.
pub open spec fn spec_cleanup_call(scenario: MutationScenario) -> (InterestSet, RegistrationState) {
    match (scenario.spec_operation(), scenario.spec_branch()) {
        (_, Branch::Unknown) => (spec_prior_interest(), RegistrationState::Uncertain),
        (MutationOperation::Modify, _) => (
            spec_desired_interest(),
            RegistrationState::Registered { arm: ArmState::Armed },
        ),
        (MutationOperation::Delete, Branch::NotApplied) => (
            spec_prior_interest(),
            RegistrationState::Registered { arm: ArmState::Disarmed },
        ),
        _ => (spec_prior_interest(), RegistrationState::Registered { arm: ArmState::Armed }),
    }
}

/// Returns the interest and portable state the cleanup deletion reports.
pub fn cleanup_call(scenario: MutationScenario) -> (call: (InterestSet, RegistrationState))
    ensures
        call == spec_cleanup_call(scenario),
{
    match (scenario.operation(), scenario.branch()) {
        (_, Branch::Unknown) => (prior_interest(), RegistrationState::Uncertain),
        (MutationOperation::Modify, _) => (desired_interest(), RegistrationState::Registered { arm: ArmState::Armed }),
        (MutationOperation::Delete, Branch::NotApplied) => (
            prior_interest(),
            RegistrationState::Registered { arm: ArmState::Disarmed },
        ),
        _ => (prior_interest(), RegistrationState::Registered { arm: ArmState::Armed }),
    }
}

/// The portable and backend states before a scenario's target mutation:
/// nothing for a registration, and the disarmed one-shot prior
/// configuration for a modification or a deletion.
pub open spec fn spec_state_before(operation: MutationOperation) -> (Option<RegistrationState>, BackendState) {
    match operation {
        MutationOperation::Register => (None, BackendState::Absent),
        _ => (
            Some(RegistrationState::Registered { arm: ArmState::Disarmed }),
            BackendState::Registered { interest: spec_prior_interest(), mode: Mode::OneShot, arm: ArmState::Disarmed },
        ),
    }
}

/// A failed mutation that applied leaves exactly what a successful one
/// leaves; one proven not applied leaves the state from before the
/// mutation; one whose effect cannot be proven leaves an uncertain
/// registration over an unknown backend.
pub proof fn law_commit_status_semantics(operation: MutationOperation)
    ensures
        spec_expected_after(MutationScenario::spec_new(operation, Branch::Applied)) == spec_expected_after(
            MutationScenario::spec_new(operation, Branch::Success),
        ),
        spec_expected_after(MutationScenario::spec_new(operation, Branch::NotApplied)) == spec_state_before(
            operation,
        ),
        spec_expected_after(MutationScenario::spec_new(operation, Branch::Unknown)) == (
            Some(RegistrationState::Uncertain),
            BackendState::Unknown,
        ),
{
    broadcast use MutationScenario::lemma_parts;
}

/// Creates the failure of `scenario` at `check` with the two texts.
fn fail(
    scenario: MutationScenario,
    check: ConformanceCheck,
    expected: String,
    actual: String,
) -> (failure: ConformanceFailure)
    ensures
        failure_is(failure, scenario, check, expected@, actual@),
{
    ConformanceFailure::new(scenario, check, expected, actual)
}

/// Requires `error` to be the mutation error of the scenario's failed
/// branch: its operation, then its commit status, then the error kind
/// scripted for the operation, checked in that order.
pub fn expect_mutation(scenario: MutationScenario, error: &ObservedError) -> (verdict: Result<(), ConformanceFailure>)
    ensures
        mutation_verdict_holds(scenario, *error, verdict),
{
    match error.class {
        PollError::Mutation { operation, commit, kind } => {
            let expected_operation = scenario.operation().operation();
            if operation != expected_operation {
                return Err(
                    fail(
                        scenario,
                        ConformanceCheck::Operation,
                        String::from_str(expected_operation.label()),
                        String::from_str(operation.label()),
                    ),
                );
            }
            let expected_commit = match scenario.branch().commit() {
                None => {
                    return Err(
                        fail(
                            scenario,
                            ConformanceCheck::Commit,
                            String::from_str("failed branch"),
                            String::from_str("success branch"),
                        ),
                    );
                },
                Some(commit) => commit,
            };
            if commit != expected_commit {
                return Err(
                    fail(
                        scenario,
                        ConformanceCheck::Commit,
                        String::from_str(expected_commit.label()),
                        String::from_str(commit.label()),
                    ),
                );
            }
            let expected_kind = crate::model_sequence_expect::source_kind(operation);
            if kind != expected_kind {
                return Err(
                    fail(
                        scenario,
                        ConformanceCheck::Source,
                        String::from_str(expected_kind.label()),
                        String::from_str(kind.label()),
                    ),
                );
            }
            Ok(())
        },
        _ => Err(fail(scenario, ConformanceCheck::Result, quote("Error::Mutation"), quote(error.text.as_str()))),
    }
}

/// Requires a failed mutation whose error is the scenario's mutation error.
pub fn expect_failed_mutation(
    scenario: MutationScenario,
    result: &Result<(), ObservedError>,
) -> (verdict: Result<(), ConformanceFailure>)
    ensures
        match result {
            Ok(()) => rejected(
                verdict,
                scenario,
                ConformanceCheck::Result,
                quoted("mutation failure"@),
                quoted("success"@),
            ),
            Err(error) => mutation_verdict_holds(scenario, *error, verdict),
        },
{
    match result {
        Ok(()) => Err(fail(scenario, ConformanceCheck::Result, quote("mutation failure"), quote("success"))),
        Err(error) => expect_mutation(scenario, error),
    }
}

/// The contract of `expect_mutation` on one error and verdict.
pub open spec fn mutation_verdict_holds(
    scenario: MutationScenario,
    error: ObservedError,
    verdict: Result<(), ConformanceFailure>,
) -> bool {
    match error.class {
        PollError::Mutation { operation, commit, kind } => {
            let expected_operation = scenario.spec_operation().spec_operation();
            if operation != expected_operation {
                rejected(
                    verdict,
                    scenario,
                    ConformanceCheck::Operation,
                    expected_operation.spec_label(),
                    operation.spec_label(),
                )
            } else {
                match scenario.spec_branch().spec_commit() {
                    None => rejected(
                        verdict,
                        scenario,
                        ConformanceCheck::Commit,
                        "failed branch"@,
                        "success branch"@,
                    ),
                    Some(expected_commit) => if commit != expected_commit {
                        rejected(
                            verdict,
                            scenario,
                            ConformanceCheck::Commit,
                            expected_commit.spec_label(),
                            commit.spec_label(),
                        )
                    } else if kind != spec_source_kind(operation) {
                        rejected(
                            verdict,
                            scenario,
                            ConformanceCheck::Source,
                            spec_source_kind(operation).spec_label(),
                            kind.spec_label(),
                        )
                    } else {
                        verdict is Ok
                    },
                }
            }
        },
        _ => rejected(verdict, scenario, ConformanceCheck::Result, quoted("Error::Mutation"@), quoted(error.text@)),
    }
}

/// Requires the handle's portable state query to report `expected`.
pub fn expect_state(
    scenario: MutationScenario,
    expected: RegistrationState,
    actual: &Result<RegistrationState, ObservedError>,
) -> (verdict: Result<(), ConformanceFailure>)
    ensures
        match actual {
            Ok(state) => if *state == expected {
                verdict is Ok
            } else {
                rejected(verdict, scenario, ConformanceCheck::State, state_text(expected), state_text(*state))
            },
            Err(error) => rejected(verdict, scenario, ConformanceCheck::State, state_text(expected), error.text@),
        },
{
    match actual {
        Ok(state) => if *state == expected {
            Ok(())
        } else {
            Err(
                fail(
                    scenario,
                    ConformanceCheck::State,
                    String::from_str(render_state(expected)),
                    String::from_str(render_state(*state)),
                ),
            )
        },
        Err(error) => Err(
            fail(
                scenario,
                ConformanceCheck::State,
                String::from_str(render_state(expected)),
                String::from_str(error.text.as_str()),
            ),
        ),
    }
}

/// The expectation text of a stale rejection of `registration`.
pub open spec fn stale_text(registration: RegistrationId) -> Seq<char> {
    "Stale("@ + id_text(registration) + ")"@
}

/// Requires the retired handle's state query to be rejected as stale;
/// `actual_text` is the diagnostic text of the query's result.
pub fn expect_stale(
    scenario: MutationScenario,
    registration: RegistrationId,
    actual: &Result<RegistrationState, ObservedError>,
    actual_text: &str,
) -> (verdict: Result<(), ConformanceFailure>)
    ensures
        (verdict is Ok) <==> (actual matches Err(error) && error.class == (PollError::Stale {
            registration,
        })),
        verdict is Err ==> rejected(
            verdict,
            scenario,
            ConformanceCheck::State,
            quoted(stale_text(registration)),
            quoted(actual_text@),
        ),
{
    let matched = match actual {
        Err(error) => error.class == (PollError::Stale { registration }),
        Ok(_) => false,
    };
    if matched {
        Ok(())
    } else {
        let mut expected = String::from_str("Stale(");
        let id = render_id(registration);
        expected.append(id.as_str());
        expected.append(")");
        Err(fail(scenario, ConformanceCheck::State, quote(expected.as_str()), quote(actual_text)))
    }
}

/// Requires the scripted backend to hold `expected` for the generation.
pub fn expect_backend(
    scenario: MutationScenario,
    expected: BackendState,
    actual: BackendState,
) -> (verdict: Result<(), ConformanceFailure>)
    ensures
        (verdict is Ok) <==> actual == expected,
        verdict is Err ==> rejected(
            verdict,
            scenario,
            ConformanceCheck::State,
            backend_debug(expected),
            backend_debug(actual),
        ),
{
    if actual == expected {
        Ok(())
    } else {
        Err(fail(scenario, ConformanceCheck::State, render_backend(expected), render_backend(actual)))
    }
}

/// The outcome text of a missing call.
pub open spec fn missing_call_text(index: usize) -> Seq<char> {
    quoted("no call at index "@ + decimal(index as nat))
}

fn render_missing_call(index: usize) -> (text: String)
    ensures
        text@ == missing_call_text(index),
{
    let mut inner = String::from_str("no call at index ");
    push_decimal(&mut inner, index as u64);
    quote(inner.as_str())
}

/// Requires the backend call at `index` to equal `expected`.
pub fn expect_call(
    scenario: MutationScenario,
    calls: &[MutationCall],
    index: usize,
    expected: MutationCall,
) -> (verdict: Result<(), ConformanceFailure>)
    ensures
        if index < calls@.len() {
            if calls@[index as int] == expected {
                verdict is Ok
            } else {
                rejected(
                    verdict,
                    scenario,
                    ConformanceCheck::Script,
                    call_debug(expected),
                    call_debug(calls@[index as int]),
                )
            }
        } else {
            rejected(verdict, scenario, ConformanceCheck::Script, call_debug(expected), missing_call_text(index))
        },
{
    if index < calls.len() {
        let actual = calls[index];
        if actual == expected {
            Ok(())
        } else {
            Err(fail(scenario, ConformanceCheck::Script, render_call(expected), render_call(actual)))
        }
    } else {
        Err(fail(scenario, ConformanceCheck::Script, render_call(expected), render_missing_call(index)))
    }
}

/// The expectation text of a registration call whose generation is not
/// known in advance.
pub open spec fn register_request_text(key: Key, interest: InterestSet, mode: Mode) -> Seq<char> {
    "Register { key: "@ + key_debug(key) + ", interest: "@ + interest_debug(interest) + ", mode: "@
        + mode_debug(mode) + " }"@
}

/// Requires the backend call at `index` to register `key`, `interest`, and
/// `mode`, and returns the generation it carried.
pub fn expect_register_call(
    scenario: MutationScenario,
    calls: &[MutationCall],
    index: usize,
    key: Key,
    interest: InterestSet,
    mode: Mode,
) -> (verdict: Result<RegistrationId, ConformanceFailure>)
    ensures
        if index < calls@.len() {
            match calls@[index as int] {
                MutationCall::Register { registration, key: k, interest: i, mode: m } if k == key && i
                    == interest && m == mode => verdict == Ok::<RegistrationId, ConformanceFailure>(
                    registration,
                ),
                actual => rejected(
                    verdict,
                    scenario,
                    ConformanceCheck::Script,
                    quoted(register_request_text(key, interest, mode)),
                    call_debug(actual),
                ),
            }
        } else {
            rejected(
                verdict,
                scenario,
                ConformanceCheck::Script,
                quoted("register call"@),
                missing_call_text(index),
            )
        },
{
    if index >= calls.len() {
        return Err(fail(scenario, ConformanceCheck::Script, quote("register call"), render_missing_call(index)));
    }
    let actual = calls[index];
    match actual {
        MutationCall::Register { registration, key: k, interest: i, mode: m } => {
            if k == key && i == interest && m == mode {
                return Ok(registration);
            }
        },
        _ => {},
    }
    let mut expected = String::from_str("Register { key: ");
    let key_text = render_key(key);
    expected.append(key_text.as_str());
    expected.append(", interest: ");
    expected.append(render_interest(interest));
    expected.append(", mode: ");
    expected.append(render_mode(mode));
    expected.append(" }");
    Err(fail(scenario, ConformanceCheck::Script, quote(expected.as_str()), render_call(actual)))
}

/// Requires a failed registration that lends and returns exactly the
/// `expected` handle (none when the registration was not applied).
pub fn expect_failed_register(
    scenario: MutationScenario,
    result: &Result<RegistrationId, RegisterFailure>,
    expected: Option<RegistrationId>,
) -> (verdict: Result<(), ConformanceFailure>)
    ensures
        match result {
            Ok(id) => rejected(
                verdict,
                scenario,
                ConformanceCheck::Result,
                quoted("registration failure"@),
                quoted("success with "@ + id_text(*id)),
            ),
            Err(failure) => if failure.borrowed != expected {
                rejected(
                    verdict,
                    scenario,
                    ConformanceCheck::Handle,
                    option_id_text(expected),
                    option_id_text(failure.borrowed),
                )
            } else if failure.returned != expected {
                rejected(
                    verdict,
                    scenario,
                    ConformanceCheck::IntoParts,
                    option_id_text(expected),
                    option_id_text(failure.returned),
                )
            } else {
                verdict is Ok
            },
        },
{
    match result {
        Ok(id) => {
            let mut actual = String::from_str("success with ");
            let id_text = render_id(*id);
            actual.append(id_text.as_str());
            Err(fail(scenario, ConformanceCheck::Result, quote("registration failure"), quote(actual.as_str())))
        },
        Err(failure) => if failure.borrowed != expected {
            Err(
                fail(
                    scenario,
                    ConformanceCheck::Handle,
                    render_option_id(expected),
                    render_option_id(failure.borrowed),
                ),
            )
        } else if failure.returned != expected {
            Err(
                fail(
                    scenario,
                    ConformanceCheck::IntoParts,
                    render_option_id(expected),
                    render_option_id(failure.returned),
                ),
            )
        } else {
            Ok(())
        },
    }
}

/// Requires a handle to carry the generation the backend observed.
pub fn expect_handle_id(
    scenario: MutationScenario,
    actual: RegistrationId,
    expected: RegistrationId,
) -> (verdict: Result<(), ConformanceFailure>)
    ensures
        (verdict is Ok) <==> actual == expected,
        verdict is Err ==> rejected(verdict, scenario, ConformanceCheck::Handle, id_text(expected), id_text(actual)),
{
    if actual == expected {
        Ok(())
    } else {
        Err(fail(scenario, ConformanceCheck::Handle, render_id(expected), render_id(actual)))
    }
}

/// Requires a failed deletion that lends and returns the `expected` handle
/// and carries the scenario's mutation error.
pub fn expect_failed_delete(
    scenario: MutationScenario,
    result: &Result<(), DeleteFailure>,
    expected: RegistrationId,
) -> (verdict: Result<(), ConformanceFailure>)
    ensures
        match result {
            Ok(()) => rejected(
                verdict,
                scenario,
                ConformanceCheck::Result,
                quoted("deletion failure"@),
                quoted("success"@),
            ),
            Err(failure) => if failure.borrowed != expected {
                rejected(
                    verdict,
                    scenario,
                    ConformanceCheck::Handle,
                    id_text(expected),
                    id_text(failure.borrowed),
                )
            } else if failure.returned != expected {
                rejected(
                    verdict,
                    scenario,
                    ConformanceCheck::IntoParts,
                    id_text(expected),
                    id_text(failure.returned),
                )
            } else {
                mutation_verdict_holds(scenario, failure.cause, verdict)
            },
        },
{
    match result {
        Ok(()) => Err(fail(scenario, ConformanceCheck::Result, quote("deletion failure"), quote("success"))),
        Err(failure) => if failure.borrowed != expected {
            Err(fail(scenario, ConformanceCheck::Handle, render_id(expected), render_id(failure.borrowed)))
        } else if failure.returned != expected {
            Err(fail(scenario, ConformanceCheck::IntoParts, render_id(expected), render_id(failure.returned)))
        } else {
            expect_mutation(scenario, &failure.cause)
        },
    }
}

/// Requires a registration attempt beyond the fixed capacity of one to be
/// rejected before reaching the backend, with no handle and the exhausted
/// registration capacity as its cause: a retained registration still
/// occupies its slot.
pub fn expect_retained_capacity(
    scenario: MutationScenario,
    calls_before: usize,
    calls_after: usize,
    result: &Result<RegistrationId, RegisterFailure>,
) -> (verdict: Result<(), ConformanceFailure>)
    ensures
        match result {
            Ok(_) => rejected(
                verdict,
                scenario,
                ConformanceCheck::CapacityRetention,
                quoted("fixed-capacity rejection"@),
                quoted("registration succeeded"@),
            ),
            Err(failure) => if calls_after != calls_before {
                rejected(
                    verdict,
                    scenario,
                    ConformanceCheck::CapacityRetention,
                    quoted("capacity rejected before backend"@),
                    quoted("backend call"@),
                )
            } else if failure.returned is Some {
                rejected(
                    verdict,
                    scenario,
                    ConformanceCheck::IntoParts,
                    quoted("no returned capability"@),
                    quoted("unexpected handle"@),
                )
            } else if failure.cause.class == (PollError::RegistrationCapacity { limit: 1 }) {
                verdict is Ok
            } else {
                rejected(
                    verdict,
                    scenario,
                    ConformanceCheck::CapacityRetention,
                    quoted("Capacity { limit: 1 }"@),
                    quoted(failure.cause.text@),
                )
            },
        },
{
    match result {
        Ok(_) => Err(
            fail(
                scenario,
                ConformanceCheck::CapacityRetention,
                quote("fixed-capacity rejection"),
                quote("registration succeeded"),
            ),
        ),
        Err(failure) => if calls_after != calls_before {
            Err(
                fail(
                    scenario,
                    ConformanceCheck::CapacityRetention,
                    quote("capacity rejected before backend"),
                    quote("backend call"),
                ),
            )
        } else if failure.returned.is_some() {
            Err(fail(scenario, ConformanceCheck::IntoParts, quote("no returned capability"), quote("unexpected handle")))
        } else if failure.cause.class == (PollError::RegistrationCapacity { limit: 1 }) {
            Ok(())
        } else {
            Err(
                fail(
                    scenario,
                    ConformanceCheck::CapacityRetention,
                    quote("Capacity { limit: 1 }"),
                    quote(failure.cause.text.as_str()),
                ),
            )
        },
    }
}

/// The expectation text of an uncertainty rejection of `registration`.
pub open spec fn uncertain_text(registration: RegistrationId) -> Seq<char> {
    "Uncertain("@ + id_text(registration) + ")"@
}

/// Requires a modification of an uncertain registration to be rejected as
/// uncertain before reaching the backend; `result_text` is the diagnostic
/// text of its result.
pub fn expect_uncertain_rejection(
    scenario: MutationScenario,
    registration: RegistrationId,
    result: &Result<(), ObservedError>,
    result_text: &str,
    calls_before: usize,
    calls_after: usize,
) -> (verdict: Result<(), ConformanceFailure>)
    ensures
        if !(result matches Err(error) && error.class == (PollError::Uncertain { registration })) {
            rejected(
                verdict,
                scenario,
                ConformanceCheck::State,
                quoted(uncertain_text(registration)),
                quoted(result_text@),
            )
        } else if calls_after != calls_before {
            rejected(
                verdict,
                scenario,
                ConformanceCheck::Script,
                quoted("uncertain modify rejected before backend"@),
                quoted("backend call"@),
            )
        } else {
            verdict is Ok
        },
{
    let matched = match result {
        Err(error) => error.class == (PollError::Uncertain { registration }),
        Ok(()) => false,
    };
    if !matched {
        let mut expected = String::from_str("Uncertain(");
        let id = render_id(registration);
        expected.append(id.as_str());
        expected.append(")");
        return Err(fail(scenario, ConformanceCheck::State, quote(expected.as_str()), quote(result_text)));
    }
    if calls_after != calls_before {
        return Err(
            fail(
                scenario,
                ConformanceCheck::Script,
                quote("uncertain modify rejected before backend"),
                quote("backend call"),
            ),
        );
    }
    Ok(())
}

/// Requires a new registration of the same source to carry a generation
/// other than the retired one; `check` names the checkpoint that rejects a
/// reused generation.
pub fn expect_fresh_generation(
    scenario: MutationScenario,
    check: ConformanceCheck,
    retired: RegistrationId,
    fresh: RegistrationId,
) -> (verdict: Result<(), ConformanceFailure>)
    ensures
        (verdict is Ok) <==> fresh != retired,
        verdict is Err ==> rejected(
            verdict,
            scenario,
            check,
            quoted("fresh registration generation"@),
            id_text(fresh),
        ),
{
    if fresh != retired {
        Ok(())
    } else {
        Err(fail(scenario, check, quote("fresh registration generation"), render_id(fresh)))
    }
}

/// Requires the scripted backend to have consumed every planned step;
/// `script_error` is the diagnostic text of the script's complaint.
pub fn expect_finished(
    scenario: MutationScenario,
    script_error: Option<&str>,
) -> (verdict: Result<(), ConformanceFailure>)
    ensures
        match script_error {
            None => verdict is Ok,
            Some(text) => rejected(
                verdict,
                scenario,
                ConformanceCheck::Script,
                "fully consumed script"@,
                text@,
            ),
        },
{
    match script_error {
        None => Ok(()),
        Some(text) => Err(
            fail(scenario, ConformanceCheck::Script, String::from_str("fully consumed script"), String::from_str(text)),
        ),
    }
}

} // verus!
