//! The scripted mutation scenarios as a verified driver.
//!
//! Every scenario is a fixed plan of requests made of the scripted poller:
//! the scenario's mutation on its selected branch, the retries, probes and
//! state queries that branch calls for, a cleanup deletion, and a final
//! check that the script was consumed. The caller performs each request
//! and hands the observed answer back; the driver judges it with the
//! mutation checkpoints and moves on, or stops at the first rejection.

use vstd::prelude::*;

use crate::model_sequence::{ArmState, InterestSet, Key, Mode, Operation, Outcome, PlannedStep};
use crate::model_sequence_expect::{
    id_text, option_id_text, quoted, state_text, DeleteFailure, ObservedError,
    PollError, RegisterFailure,
};
use crate::model_sequence_model::{BackendState, MutationCall, RegistrationId, RegistrationState};
use crate::mutation::{
    spec_mutation_plan, step, Branch, ConformanceCheck, ConformanceFailure, MutationOperation,
    MutationScenario,
};
use crate::mutation_text::{backend_debug, call_debug};
use crate::mutation_verify::{
    cleanup_call, desired_interest, desired_mode, expect_backend, expect_call,
    expect_failed_delete, expect_failed_mutation, expect_failed_register, expect_finished,
    expect_fresh_generation, expect_handle_id, expect_mutation, expect_register_call,
    expect_retained_capacity, expect_stale, expect_state, expect_uncertain_rejection,
    expected_after, missing_call_text, mutation_verdict_holds, prior_interest, prior_mode,
    register_request_text, rejected, scenario_key, spec_cleanup_call, spec_desired_interest,
    spec_expected_after, spec_prior_interest, spec_scenario_key, stale_text, uncertain_text,
};

verus! {

/// What a registration request of the plan must produce.
#[derive(Clone, Copy, Debug, Eq, PartialEq, Structural)]
pub enum RegisterExpectation {
    /// The scenario's registration succeeds with the generation the backend observed.
    Success,
    /// The scenario's registration fails without lending or returning a handle.
    NotApplied,
    /// The scenario's registration fails and returns the observed handle.
    Retained,
    /// A retry after a registration that was not applied succeeds with a fresh generation.
    Retry,
    /// The successful registration a modification or deletion starts from.
    Setup,
    /// After an applied deletion the descriptor registers again with a fresh generation.
    Replacement,
}

/// What a modification request of the plan must produce.
#[derive(Clone, Copy, Debug, Eq, PartialEq, Structural)]
pub enum ModifyExpectation {
    /// The scenario's modification on its selected branch.
    Scenario,
    /// A retry after a modification that was not applied.
    Retry,
    /// A modification to the desired configuration it already holds.
    Confirm,
    /// A modification of an uncertain registration, rejected before the backend.
    Uncertain,
}

/// What a deletion request of the plan must produce.
#[derive(Clone, Copy, Debug, Eq, PartialEq, Structural)]
pub enum DeleteExpectation {
    /// The scenario's deletion on its selected branch.
    Scenario,
    /// The deletion that releases the last registration.
    Cleanup,
}

/// One step of a scenario's plan: a request and what its answer must show.
#[derive(Clone, Copy, Debug, Eq, PartialEq, Structural)]
pub enum DriverStep {
    /// Register the scenario's source.
    Register(RegisterExpectation),
    /// Disarm the held one-shot registration.
    EstablishDisarmed,
    /// Modify the held registration.
    Modify(ModifyExpectation),
    /// Delete the held registration.
    Delete(DeleteExpectation),
    /// The held registration's portable state is the given one.
    State(RegistrationState),
    /// The held handle of a deleted registration is reported stale.
    Stale,
    /// The scripted backend holds the given state for the current generation.
    Backend(BackendState),
    /// A registration beyond the fixed capacity is rejected before the backend.
    Capacity,
    /// The scripted backend consumed every planned step.
    Finish,
}

/// A request the caller performs on the scripted poller.
#[derive(Clone, Copy, Debug, Eq, PartialEq, Structural)]
pub enum DriverRequest {
    /// Register the scenario's source; the handle obtained, or returned by
    /// the error, becomes the held one.
    Register { key: Key, interest: InterestSet, mode: Mode },
    /// Disarm the held registration.
    EstablishDisarmed,
    /// Modify the held registration.
    Modify { interest: InterestSet, mode: Mode },
    /// Delete the held registration; a handle returned by the error
    /// becomes the held one.
    Delete,
    /// Query the held registration's portable state.
    QueryState,
    /// Query the scripted backend's state of a generation.
    QueryBackend { registration: crate::model_sequence_model::RegistrationId },
    /// Register another source with the given key, interest and mode,
    /// keeping the held handle.
    ProbeCapacity { key: Key, interest: InterestSet, mode: Mode },
    /// Ask whether the script was fully consumed.
    Finish,
}

/// The checks of the portable and backend states a plan expects.
pub open spec fn after_steps(after: (Option<RegistrationState>, BackendState)) -> Seq<DriverStep> {
    match after.0 {
        Some(state) => seq![DriverStep::State(state), DriverStep::Backend(after.1)],
        None => seq![DriverStep::Backend(after.1)],
    }
}

/// The cleanup deletion and the absence it leaves in the backend.
pub open spec fn cleanup_steps() -> Seq<DriverStep> {
    seq![DriverStep::Delete(DeleteExpectation::Cleanup), DriverStep::Backend(BackendState::Absent)]
}

/// The disarmed one-shot registration a modification or deletion starts from.
pub open spec fn setup_steps() -> Seq<DriverStep> {
    seq![DriverStep::Register(RegisterExpectation::Setup), DriverStep::EstablishDisarmed]
}

/// The plan of a scenario. A registration is checked and then retried,
/// validated and probed for retained capacity as its branch calls for; a
/// modification or deletion starts from a disarmed one-shot registration,
/// and after it the states its branch leaves are checked. Uncertain
/// registrations must refuse a further modification, an applied deletion
/// must free its descriptor for a replacement, and every scenario ends
/// with a cleanup deletion and a check of the script.
pub open spec fn spec_driver_plan(scenario: MutationScenario) -> Seq<DriverStep> {
    let after = spec_expected_after(scenario);
    let finish = seq![DriverStep::Finish];
    match scenario.spec_operation() {
        MutationOperation::Register => match scenario.spec_branch() {
            Branch::Success => seq![DriverStep::Register(RegisterExpectation::Success)] + after_steps(after)
                + seq![DriverStep::Capacity] + cleanup_steps() + finish,
            Branch::NotApplied => seq![
                DriverStep::Register(RegisterExpectation::NotApplied),
                DriverStep::Backend(after.1),
                DriverStep::Register(RegisterExpectation::Retry),
            ] + after_steps(spec_expected_after(MutationScenario::spec_new(MutationOperation::Register, Branch::Success)))
                + seq![DriverStep::Capacity] + cleanup_steps() + finish,
            Branch::Applied => seq![DriverStep::Register(RegisterExpectation::Retained)] + after_steps(after)
                + seq![DriverStep::Capacity] + cleanup_steps() + finish,
            Branch::Unknown => seq![DriverStep::Register(RegisterExpectation::Retained)] + after_steps(after)
                + seq![DriverStep::Capacity, DriverStep::Modify(ModifyExpectation::Uncertain)] + cleanup_steps()
                + finish,
        },
        MutationOperation::Modify => {
            let desired = after_steps(spec_expected_after(MutationScenario::spec_new(MutationOperation::Modify, Branch::Success)));
            let head = setup_steps() + seq![DriverStep::Modify(ModifyExpectation::Scenario)];
            let confirmed = seq![DriverStep::Modify(ModifyExpectation::Confirm), DriverStep::Capacity];
            match scenario.spec_branch() {
                Branch::Success => head + desired + confirmed + cleanup_steps() + finish,
                Branch::NotApplied => head + after_steps(after) + seq![DriverStep::Modify(ModifyExpectation::Retry)]
                    + desired + confirmed + cleanup_steps() + finish,
                Branch::Applied => head + desired + confirmed + cleanup_steps() + finish,
                Branch::Unknown => head + after_steps(after) + seq![
                    DriverStep::Modify(ModifyExpectation::Uncertain),
                    DriverStep::Capacity,
                ] + cleanup_steps() + finish,
            }
        },
        MutationOperation::Delete => {
            let head = setup_steps() + seq![DriverStep::Delete(DeleteExpectation::Scenario)];
            let replace = seq![DriverStep::Register(RegisterExpectation::Replacement)] + cleanup_steps();
            match scenario.spec_branch() {
                Branch::Success => head + seq![DriverStep::Backend(after.1)] + replace + finish,
                Branch::Applied => head + seq![DriverStep::Stale, DriverStep::Backend(after.1)] + replace + finish,
                Branch::NotApplied => head + after_steps(after) + seq![DriverStep::Capacity] + cleanup_steps()
                    + finish,
                Branch::Unknown => head + after_steps(after) + seq![
                    DriverStep::Capacity,
                    DriverStep::Modify(ModifyExpectation::Uncertain),
                ] + cleanup_steps() + finish,
            }
        },
    }
}

fn push_after(plan: &mut Vec<DriverStep>, after: (Option<RegistrationState>, BackendState))
    ensures
        final(plan)@ == old(plan)@ + after_steps(after),
{
    match after.0 {
        Some(state) => {
            plan.push(DriverStep::State(state));
        },
        None => {},
    }
    plan.push(DriverStep::Backend(after.1));
    assert(final(plan)@ =~= old(plan)@ + after_steps(after));
}

fn push_cleanup_and_finish(plan: &mut Vec<DriverStep>)
    ensures
        final(plan)@ == old(plan)@ + cleanup_steps() + seq![DriverStep::Finish],
{
    plan.push(DriverStep::Delete(DeleteExpectation::Cleanup));
    plan.push(DriverStep::Backend(BackendState::Absent));
    plan.push(DriverStep::Finish);
    assert(final(plan)@ =~= old(plan)@ + cleanup_steps() + seq![DriverStep::Finish]);
}

/// Returns the plan of a scenario.
pub fn driver_plan(scenario: MutationScenario) -> (plan: Vec<DriverStep>)
    ensures
        plan@ == spec_driver_plan(scenario),
{
    broadcast use MutationScenario::lemma_parts;
    let after = expected_after(scenario);
    let mut plan: Vec<DriverStep> = Vec::new();
    match scenario.operation() {
        MutationOperation::Register => {
            match scenario.branch() {
                Branch::Success => {
                    plan.push(DriverStep::Register(RegisterExpectation::Success));
                    push_after(&mut plan, after);
                },
                Branch::NotApplied => {
                    plan.push(DriverStep::Register(RegisterExpectation::NotApplied));
                    plan.push(DriverStep::Backend(after.1));
                    plan.push(DriverStep::Register(RegisterExpectation::Retry));
                    push_after(&mut plan, expected_after(MutationScenario::register(Branch::Success)));
                },
                _ => {
                    plan.push(DriverStep::Register(RegisterExpectation::Retained));
                    push_after(&mut plan, after);
                },
            }
            plan.push(DriverStep::Capacity);
            if scenario.branch() == Branch::Unknown {
                plan.push(DriverStep::Modify(ModifyExpectation::Uncertain));
            }
        },
        MutationOperation::Modify => {
            plan.push(DriverStep::Register(RegisterExpectation::Setup));
            plan.push(DriverStep::EstablishDisarmed);
            plan.push(DriverStep::Modify(ModifyExpectation::Scenario));
            let desired = expected_after(MutationScenario::modify(Branch::Success));
            match scenario.branch() {
                Branch::NotApplied => {
                    push_after(&mut plan, after);
                    plan.push(DriverStep::Modify(ModifyExpectation::Retry));
                    push_after(&mut plan, desired);
                },
                Branch::Unknown => {
                    push_after(&mut plan, after);
                },
                _ => {
                    push_after(&mut plan, desired);
                },
            }
            if scenario.branch() == Branch::Unknown {
                plan.push(DriverStep::Modify(ModifyExpectation::Uncertain));
            } else {
                plan.push(DriverStep::Modify(ModifyExpectation::Confirm));
            }
            plan.push(DriverStep::Capacity);
        },
        MutationOperation::Delete => {
            plan.push(DriverStep::Register(RegisterExpectation::Setup));
            plan.push(DriverStep::EstablishDisarmed);
            plan.push(DriverStep::Delete(DeleteExpectation::Scenario));
            match scenario.branch() {
                Branch::Success => {
                    plan.push(DriverStep::Backend(after.1));
                    plan.push(DriverStep::Register(RegisterExpectation::Replacement));
                },
                Branch::Applied => {
                    plan.push(DriverStep::Stale);
                    plan.push(DriverStep::Backend(after.1));
                    plan.push(DriverStep::Register(RegisterExpectation::Replacement));
                },
                _ => {
                    push_after(&mut plan, after);
                    plan.push(DriverStep::Capacity);
                    if scenario.branch() == Branch::Unknown {
                        plan.push(DriverStep::Modify(ModifyExpectation::Uncertain));
                    }
                },
            }
        },
    }
    push_cleanup_and_finish(&mut plan);
    assert(plan@ =~= spec_driver_plan(scenario));
    plan
}

/// The scripted backend step a plan step consumes, if it reaches the
/// backend: the scenario's own mutation consumes the branch's outcome, the
/// retries, setups, replacements and cleanups a success, and the probes,
/// queries and the uncertain modification none.
pub open spec fn scripted(scenario: MutationScenario, driver_step: DriverStep) -> Option<PlannedStep> {
    let outcome = scenario.spec_branch().spec_outcome();
    match driver_step {
        DriverStep::Register(expectation) => match expectation {
            RegisterExpectation::Success | RegisterExpectation::NotApplied | RegisterExpectation::Retained => Some(
                step(Operation::Register, outcome),
            ),
            _ => Some(step(Operation::Register, Outcome::Success)),
        },
        DriverStep::Modify(expectation) => match expectation {
            ModifyExpectation::Scenario => Some(step(Operation::Modify, outcome)),
            ModifyExpectation::Uncertain => None,
            _ => Some(step(Operation::Modify, Outcome::Success)),
        },
        DriverStep::Delete(expectation) => match expectation {
            DeleteExpectation::Scenario => Some(step(Operation::Delete, outcome)),
            DeleteExpectation::Cleanup => Some(step(Operation::Delete, Outcome::Success)),
        },
        _ => None,
    }
}

/// The scripted backend steps a sequence of plan steps consumes, in order.
pub open spec fn scripted_steps(scenario: MutationScenario, steps: Seq<DriverStep>) -> Seq<PlannedStep>
    decreases steps.len(),
{
    if steps.len() == 0 {
        Seq::empty()
    } else {
        let head = match scripted(scenario, steps[0]) {
            Some(planned) => seq![planned],
            None => Seq::empty(),
        };
        head + scripted_steps(scenario, steps.drop_first())
    }
}

proof fn lemma_scripted_steps_concat(scenario: MutationScenario, a: Seq<DriverStep>, b: Seq<DriverStep>)
    ensures
        scripted_steps(scenario, a + b) == scripted_steps(scenario, a) + scripted_steps(scenario, b),
    decreases a.len(),
{
    if a.len() == 0 {
        assert(a + b =~= b);
        assert(scripted_steps(scenario, a) + scripted_steps(scenario, b) =~= scripted_steps(scenario, b));
    } else {
        assert((a + b).drop_first() =~= a.drop_first() + b);
        lemma_scripted_steps_concat(scenario, a.drop_first(), b);
        assert((a + b)[0] == a[0]);
        let head = match scripted(scenario, a[0]) {
            Some(planned) => seq![planned],
            None => Seq::<PlannedStep>::empty(),
        };
        assert(scripted_steps(scenario, a + b) == head + scripted_steps(scenario, a.drop_first() + b));
        assert(head + (scripted_steps(scenario, a.drop_first()) + scripted_steps(scenario, b)) =~= (head
            + scripted_steps(scenario, a.drop_first())) + scripted_steps(scenario, b));
    }
}

proof fn lemma_scripted_single(scenario: MutationScenario, s: DriverStep)
    ensures
        scripted_steps(scenario, seq![s]) == match scripted(scenario, s) {
            Some(planned) => seq![planned],
            None => Seq::<PlannedStep>::empty(),
        },
{
    assert(seq![s].drop_first() =~= Seq::<DriverStep>::empty());
    assert(scripted_steps(scenario, Seq::<DriverStep>::empty()) == Seq::<PlannedStep>::empty());
    let head = match scripted(scenario, s) {
        Some(planned) => seq![planned],
        None => Seq::<PlannedStep>::empty(),
    };
    assert(head + Seq::<PlannedStep>::empty() =~= head);
}

proof fn lemma_scripted_pair(scenario: MutationScenario, s: DriverStep, t: DriverStep)
    ensures
        scripted_steps(scenario, seq![s, t]) == scripted_steps(scenario, seq![s]) + scripted_steps(scenario, seq![t]),
{
    assert(seq![s, t] =~= seq![s] + seq![t]);
    lemma_scripted_steps_concat(scenario, seq![s], seq![t]);
}

proof fn lemma_scripted_triple(scenario: MutationScenario, s: DriverStep, t: DriverStep, u: DriverStep)
    ensures
        scripted_steps(scenario, seq![s, t, u]) == scripted_steps(scenario, seq![s]) + scripted_steps(
            scenario,
            seq![t],
        ) + scripted_steps(scenario, seq![u]),
{
    assert(seq![s, t, u] =~= seq![s, t] + seq![u]);
    lemma_scripted_steps_concat(scenario, seq![s, t], seq![u]);
    lemma_scripted_pair(scenario, s, t);
}

proof fn lemma_scripted_after(scenario: MutationScenario, after: (Option<RegistrationState>, BackendState))
    ensures
        scripted_steps(scenario, after_steps(after)) == Seq::<PlannedStep>::empty(),
{
    match after.0 {
        Some(state) => {
            lemma_scripted_pair(scenario, DriverStep::State(state), DriverStep::Backend(after.1));
            lemma_scripted_single(scenario, DriverStep::State(state));
            lemma_scripted_single(scenario, DriverStep::Backend(after.1));
        },
        None => {
            lemma_scripted_single(scenario, DriverStep::Backend(after.1));
        },
    }
}

/// The requests of every scenario's plan reach the scripted backend in
/// exactly the order, and with exactly the outcomes, of the scenario's
/// script: the driver consumes the script it gave the poller, no more and
/// no less.
pub proof fn law_driver_follows_script(scenario: MutationScenario)
    ensures
        scripted_steps(scenario, spec_driver_plan(scenario)) == spec_mutation_plan(scenario),
{
    broadcast use MutationScenario::lemma_parts;
    let after = spec_expected_after(scenario);
    let outcome = scenario.spec_branch().spec_outcome();
    let finish = seq![DriverStep::Finish];
    let capacity = seq![DriverStep::Capacity];
    let register_ok = step(Operation::Register, Outcome::Success);
    let modify_ok = step(Operation::Modify, Outcome::Success);
    let delete_ok = step(Operation::Delete, Outcome::Success);
    lemma_scripted_single(scenario, DriverStep::Finish);
    lemma_scripted_single(scenario, DriverStep::Capacity);
    lemma_scripted_single(scenario, DriverStep::Stale);
    lemma_scripted_single(scenario, DriverStep::Backend(after.1));
    lemma_scripted_single(scenario, DriverStep::Modify(ModifyExpectation::Uncertain));
    lemma_scripted_single(scenario, DriverStep::Modify(ModifyExpectation::Scenario));
    lemma_scripted_single(scenario, DriverStep::Modify(ModifyExpectation::Retry));
    lemma_scripted_single(scenario, DriverStep::Modify(ModifyExpectation::Confirm));
    lemma_scripted_single(scenario, DriverStep::Delete(DeleteExpectation::Scenario));
    lemma_scripted_single(scenario, DriverStep::Delete(DeleteExpectation::Cleanup));
    lemma_scripted_single(scenario, DriverStep::Backend(BackendState::Absent));
    lemma_scripted_single(scenario, DriverStep::Register(RegisterExpectation::Success));
    lemma_scripted_single(scenario, DriverStep::Register(RegisterExpectation::NotApplied));
    lemma_scripted_single(scenario, DriverStep::Register(RegisterExpectation::Retained));
    lemma_scripted_single(scenario, DriverStep::Register(RegisterExpectation::Retry));
    lemma_scripted_single(scenario, DriverStep::Register(RegisterExpectation::Setup));
    lemma_scripted_single(scenario, DriverStep::Register(RegisterExpectation::Replacement));
    lemma_scripted_single(scenario, DriverStep::EstablishDisarmed);
    lemma_scripted_pair(scenario, DriverStep::Delete(DeleteExpectation::Cleanup), DriverStep::Backend(BackendState::Absent));
    lemma_scripted_pair(scenario, DriverStep::Register(RegisterExpectation::Setup), DriverStep::EstablishDisarmed);
    lemma_scripted_after(scenario, after);
    let register_success = spec_expected_after(MutationScenario::spec_new(MutationOperation::Register, Branch::Success));
    let modify_success = spec_expected_after(MutationScenario::spec_new(MutationOperation::Modify, Branch::Success));
    lemma_scripted_after(scenario, register_success);
    lemma_scripted_after(scenario, modify_success);
    let cleanup = scripted_steps(scenario, cleanup_steps());
    assert(cleanup =~= seq![delete_ok]);
    let plan = spec_driver_plan(scenario);
    match scenario.spec_operation() {
        MutationOperation::Register => {
            let first = match scenario.spec_branch() {
                Branch::Success => DriverStep::Register(RegisterExpectation::Success),
                Branch::NotApplied => DriverStep::Register(RegisterExpectation::NotApplied),
                _ => DriverStep::Register(RegisterExpectation::Retained),
            };
            match scenario.spec_branch() {
                Branch::NotApplied => {
                    let head = seq![first, DriverStep::Backend(after.1), DriverStep::Register(RegisterExpectation::Retry)];
                    lemma_scripted_triple(scenario, first, DriverStep::Backend(after.1), DriverStep::Register(RegisterExpectation::Retry));
                    let middle = after_steps(register_success);
                    lemma_scripted_steps_concat(scenario, head, middle);
                    lemma_scripted_steps_concat(scenario, head + middle, capacity);
                    lemma_scripted_steps_concat(scenario, head + middle + capacity, cleanup_steps());
                    lemma_scripted_steps_concat(scenario, head + middle + capacity + cleanup_steps(), finish);
                    assert(scripted_steps(scenario, plan) =~= seq![step(Operation::Register, outcome), register_ok, delete_ok]);
                },
                Branch::Unknown => {
                    let head = seq![first];
                    let probes = seq![DriverStep::Capacity, DriverStep::Modify(ModifyExpectation::Uncertain)];
                    lemma_scripted_pair(scenario, DriverStep::Capacity, DriverStep::Modify(ModifyExpectation::Uncertain));
                    lemma_scripted_steps_concat(scenario, head, after_steps(after));
                    lemma_scripted_steps_concat(scenario, head + after_steps(after), probes);
                    lemma_scripted_steps_concat(scenario, head + after_steps(after) + probes, cleanup_steps());
                    lemma_scripted_steps_concat(scenario, head + after_steps(after) + probes + cleanup_steps(), finish);
                    assert(scripted_steps(scenario, plan) =~= seq![step(Operation::Register, outcome), delete_ok]);
                },
                _ => {
                    let head = seq![first];
                    lemma_scripted_steps_concat(scenario, head, after_steps(after));
                    lemma_scripted_steps_concat(scenario, head + after_steps(after), capacity);
                    lemma_scripted_steps_concat(scenario, head + after_steps(after) + capacity, cleanup_steps());
                    lemma_scripted_steps_concat(scenario, head + after_steps(after) + capacity + cleanup_steps(), finish);
                    assert(scripted_steps(scenario, plan) =~= seq![step(Operation::Register, outcome), delete_ok]);
                },
            }
        },
        MutationOperation::Modify => {
            let head = setup_steps() + seq![DriverStep::Modify(ModifyExpectation::Scenario)];
            lemma_scripted_steps_concat(scenario, setup_steps(), seq![DriverStep::Modify(ModifyExpectation::Scenario)]);
            let desired = after_steps(modify_success);
            let confirmed = seq![DriverStep::Modify(ModifyExpectation::Confirm), DriverStep::Capacity];
            lemma_scripted_pair(scenario, DriverStep::Modify(ModifyExpectation::Confirm), DriverStep::Capacity);
            let uncertain = seq![DriverStep::Modify(ModifyExpectation::Uncertain), DriverStep::Capacity];
            lemma_scripted_pair(scenario, DriverStep::Modify(ModifyExpectation::Uncertain), DriverStep::Capacity);
            let retry = seq![DriverStep::Modify(ModifyExpectation::Retry)];
            match scenario.spec_branch() {
                Branch::NotApplied => {
                    lemma_scripted_steps_concat(scenario, head, after_steps(after));
                    lemma_scripted_steps_concat(scenario, head + after_steps(after), retry);
                    lemma_scripted_steps_concat(scenario, head + after_steps(after) + retry, desired);
                    lemma_scripted_steps_concat(scenario, head + after_steps(after) + retry + desired, confirmed);
                    lemma_scripted_steps_concat(scenario, head + after_steps(after) + retry + desired + confirmed, cleanup_steps());
                    lemma_scripted_steps_concat(
                        scenario,
                        head + after_steps(after) + retry + desired + confirmed + cleanup_steps(),
                        finish,
                    );
                    assert(scripted_steps(scenario, plan) =~= seq![
                        register_ok,
                        step(Operation::Modify, outcome),
                        modify_ok,
                        modify_ok,
                        delete_ok,
                    ]);
                },
                Branch::Unknown => {
                    lemma_scripted_steps_concat(scenario, head, after_steps(after));
                    lemma_scripted_steps_concat(scenario, head + after_steps(after), uncertain);
                    lemma_scripted_steps_concat(scenario, head + after_steps(after) + uncertain, cleanup_steps());
                    lemma_scripted_steps_concat(scenario, head + after_steps(after) + uncertain + cleanup_steps(), finish);
                    assert(scripted_steps(scenario, plan) =~= seq![register_ok, step(Operation::Modify, outcome), delete_ok]);
                },
                _ => {
                    lemma_scripted_steps_concat(scenario, head, desired);
                    lemma_scripted_steps_concat(scenario, head + desired, confirmed);
                    lemma_scripted_steps_concat(scenario, head + desired + confirmed, cleanup_steps());
                    lemma_scripted_steps_concat(scenario, head + desired + confirmed + cleanup_steps(), finish);
                    assert(scripted_steps(scenario, plan) =~= seq![
                        register_ok,
                        step(Operation::Modify, outcome),
                        modify_ok,
                        delete_ok,
                    ]);
                },
            }
        },
        MutationOperation::Delete => {
            let head = setup_steps() + seq![DriverStep::Delete(DeleteExpectation::Scenario)];
            lemma_scripted_steps_concat(scenario, setup_steps(), seq![DriverStep::Delete(DeleteExpectation::Scenario)]);
            let replace = seq![DriverStep::Register(RegisterExpectation::Replacement)] + cleanup_steps();
            lemma_scripted_steps_concat(scenario, seq![DriverStep::Register(RegisterExpectation::Replacement)], cleanup_steps());
            match scenario.spec_branch() {
                Branch::Success => {
                    let checks = seq![DriverStep::Backend(after.1)];
                    lemma_scripted_steps_concat(scenario, head, checks);
                    lemma_scripted_steps_concat(scenario, head + checks, replace);
                    lemma_scripted_steps_concat(scenario, head + checks + replace, finish);
                    assert(scripted_steps(scenario, plan) =~= seq![
                        register_ok,
                        step(Operation::Delete, outcome),
                        register_ok,
                        delete_ok,
                    ]);
                },
                Branch::Applied => {
                    let checks = seq![DriverStep::Stale, DriverStep::Backend(after.1)];
                    lemma_scripted_pair(scenario, DriverStep::Stale, DriverStep::Backend(after.1));
                    lemma_scripted_steps_concat(scenario, head, checks);
                    lemma_scripted_steps_concat(scenario, head + checks, replace);
                    lemma_scripted_steps_concat(scenario, head + checks + replace, finish);
                    assert(scripted_steps(scenario, plan) =~= seq![
                        register_ok,
                        step(Operation::Delete, outcome),
                        register_ok,
                        delete_ok,
                    ]);
                },
                Branch::NotApplied => {
                    lemma_scripted_steps_concat(scenario, head, after_steps(after));
                    lemma_scripted_steps_concat(scenario, head + after_steps(after), capacity);
                    lemma_scripted_steps_concat(scenario, head + after_steps(after) + capacity, cleanup_steps());
                    lemma_scripted_steps_concat(scenario, head + after_steps(after) + capacity + cleanup_steps(), finish);
                    assert(scripted_steps(scenario, plan) =~= seq![register_ok, step(Operation::Delete, outcome), delete_ok]);
                },
                Branch::Unknown => {
                    let probes = seq![DriverStep::Capacity, DriverStep::Modify(ModifyExpectation::Uncertain)];
                    lemma_scripted_pair(scenario, DriverStep::Capacity, DriverStep::Modify(ModifyExpectation::Uncertain));
                    lemma_scripted_steps_concat(scenario, head, after_steps(after));
                    lemma_scripted_steps_concat(scenario, head + after_steps(after), probes);
                    lemma_scripted_steps_concat(scenario, head + after_steps(after) + probes, cleanup_steps());
                    lemma_scripted_steps_concat(scenario, head + after_steps(after) + probes + cleanup_steps(), finish);
                    assert(scripted_steps(scenario, plan) =~= seq![register_ok, step(Operation::Delete, outcome), delete_ok]);
                },
            }
        },
    }
    assert(scripted_steps(scenario, plan) =~= spec_mutation_plan(scenario));
}


/// Every scenario's plan starts by registering, and ends by deleting its
/// last registration, checking that the backend holds nothing for it, and
/// checking that the script was consumed.
pub proof fn law_driver_plan_cleans_up(scenario: MutationScenario)
    ensures
        ({
            let plan = spec_driver_plan(scenario);
            &&& plan.len() >= 4
            &&& plan[0] is Register
            &&& plan[plan.len() - 3] == DriverStep::Delete(DeleteExpectation::Cleanup)
            &&& plan[plan.len() - 2] == DriverStep::Backend(BackendState::Absent)
            &&& plan.last() == DriverStep::Finish
        }),
{
    let plan = spec_driver_plan(scenario);
    let tail = cleanup_steps() + seq![DriverStep::Finish];
    assert(plan.len() >= 4 && plan.subrange(plan.len() - 3, plan.len() as int) =~= tail) by {
        broadcast use MutationScenario::lemma_parts;
    }
    assert(plan[plan.len() - 3] == tail[0]);
    assert(plan[plan.len() - 2] == tail[1]);
}

/// The generation the backend call at `index` registered with `key`,
/// `interest` and `mode`; none when that call is missing or is another.
pub open spec fn registered_generation(
    calls: Seq<MutationCall>,
    index: int,
    key: Key,
    interest: InterestSet,
    mode: Mode,
) -> Option<RegistrationId> {
    if 0 <= index < calls.len() {
        match calls[index] {
            MutationCall::Register { registration, key: k, interest: i, mode: m } => if k == key && i
                == interest && m == mode {
                Some(registration)
            } else {
                None
            },
            _ => None,
        }
    } else {
        None
    }
}

/// How the registration-call checkpoint rejects the call at `index`.
pub open spec fn register_call_refused(
    verdict: Result<(), ConformanceFailure>,
    scenario: MutationScenario,
    calls: Seq<MutationCall>,
    index: usize,
    key: Key,
    interest: InterestSet,
    mode: Mode,
) -> bool {
    if index < calls.len() {
        rejected(
            verdict,
            scenario,
            ConformanceCheck::Script,
            quoted(register_request_text(key, interest, mode)),
            call_debug(calls[index as int]),
        )
    } else {
        rejected(verdict, scenario, ConformanceCheck::Script, quoted("register call"@), missing_call_text(index))
    }
}

/// Whether the backend call at `index` is exactly `expected`.
pub open spec fn call_is(calls: Seq<MutationCall>, index: usize, expected: MutationCall) -> bool {
    index < calls.len() && calls[index as int] == expected
}

/// How the call checkpoint rejects the call at `index` for `expected`.
pub open spec fn call_refused(
    verdict: Result<(), ConformanceFailure>,
    scenario: MutationScenario,
    calls: Seq<MutationCall>,
    index: usize,
    expected: MutationCall,
) -> bool {
    if index < calls.len() {
        rejected(verdict, scenario, ConformanceCheck::Script, call_debug(expected), call_debug(calls[index as int]))
    } else {
        rejected(verdict, scenario, ConformanceCheck::Script, call_debug(expected), missing_call_text(index))
    }
}

/// Whether a registration failed lending and returning exactly `expected`.
pub open spec fn failed_register_passes(
    result: Result<RegistrationId, RegisterFailure>,
    expected: Option<RegistrationId>,
) -> bool {
    result matches Err(failure) && failure.borrowed == expected && failure.returned == expected
}

/// How the failed-registration checkpoint rejects `result`.
pub open spec fn failed_register_refused(
    verdict: Result<(), ConformanceFailure>,
    scenario: MutationScenario,
    result: Result<RegistrationId, RegisterFailure>,
    expected: Option<RegistrationId>,
) -> bool {
    match result {
        Ok(id) => rejected(
            verdict,
            scenario,
            ConformanceCheck::Result,
            quoted("registration failure"@),
            quoted("success with "@ + id_text(id)),
        ),
        Err(failure) => if failure.borrowed != expected {
            rejected(verdict, scenario, ConformanceCheck::Handle, option_id_text(expected), option_id_text(failure.borrowed))
        } else {
            rejected(
                verdict,
                scenario,
                ConformanceCheck::IntoParts,
                option_id_text(expected),
                option_id_text(failure.returned),
            )
        },
    }
}

/// The judgement of a failed registration of the scenario's source: the
/// call must carry the scenario's request, the failure must lend and
/// return `Some` of the observed generation exactly when `retained`, and
/// its cause must be the scenario's mutation error. It leaves the observed
/// generation current.
pub open spec fn failed_registration_judged(
    scenario: MutationScenario,
    retained: bool,
    result: Result<RegistrationId, RegisterFailure>,
    calls: Seq<MutationCall>,
    verdict: Result<(), ConformanceFailure>,
    current: Option<RegistrationId>,
) -> bool {
    let key = spec_scenario_key(scenario.spec_operation());
    let interest = spec_prior_interest();
    match registered_generation(calls, 0, key, interest, Mode::OneShot) {
        None => register_call_refused(verdict, scenario, calls, 0, key, interest, Mode::OneShot),
        Some(observed) => {
            let expected = if retained {
                Some(observed)
            } else {
                None
            };
            if !failed_register_passes(result, expected) {
                failed_register_refused(verdict, scenario, result, expected)
            } else {
                &&& mutation_verdict_holds(scenario, result->Err_0.cause, verdict)
                &&& verdict is Ok ==> current == Some(observed)
            }
        },
    }
}

/// The judgement of the answer to a registration request of the plan:
/// `previous` is the generation current before it, `calls_before` the
/// number of backend calls before it, `error_text` the display text of a
/// failure, and `current` the generation current after it.
pub open spec fn register_judged(
    scenario: MutationScenario,
    expectation: RegisterExpectation,
    previous: Option<RegistrationId>,
    result: Result<RegistrationId, RegisterFailure>,
    error_text: Seq<char>,
    calls: Seq<MutationCall>,
    calls_before: usize,
    verdict: Result<(), ConformanceFailure>,
    current: Option<RegistrationId>,
) -> bool {
    let key = spec_scenario_key(scenario.spec_operation());
    let interest = spec_prior_interest();
    let mode = Mode::OneShot;
    &&& verdict is Err ==> current == previous
    &&& match expectation {
        RegisterExpectation::Success => match registered_generation(calls, 0, key, interest, mode) {
            None => register_call_refused(verdict, scenario, calls, 0, key, interest, mode),
            Some(observed) => match result {
                Err(_) => rejected(verdict, scenario, ConformanceCheck::Result, "successful registration"@, error_text),
                Ok(id) => if id != observed {
                    rejected(verdict, scenario, ConformanceCheck::Handle, id_text(observed), id_text(id))
                } else {
                    verdict is Ok && current == Some(id)
                },
            },
        },
        RegisterExpectation::NotApplied => failed_registration_judged(scenario, false, result, calls, verdict, current),
        RegisterExpectation::Retained => failed_registration_judged(scenario, true, result, calls, verdict, current),
        RegisterExpectation::Retry => match result {
            Err(_) => rejected(verdict, scenario, ConformanceCheck::Retry, "successful registration retry"@, error_text),
            Ok(id) => match registered_generation(calls, 1, key, interest, mode) {
                None => register_call_refused(verdict, scenario, calls, 1, key, interest, mode),
                Some(retried) => if id != retried {
                    rejected(verdict, scenario, ConformanceCheck::Handle, id_text(retried), id_text(id))
                } else if previous == Some(id) {
                    rejected(
                        verdict,
                        scenario,
                        ConformanceCheck::Retry,
                        quoted("fresh registration generation"@),
                        id_text(id),
                    )
                } else {
                    verdict is Ok && current == Some(id)
                },
            },
        },
        RegisterExpectation::Setup => match result {
            Err(_) => rejected(verdict, scenario, ConformanceCheck::Setup, "initial registration"@, error_text),
            Ok(id) => {
                let expected = MutationCall::Register { registration: id, key, interest, mode };
                if !call_is(calls, 0, expected) {
                    call_refused(verdict, scenario, calls, 0, expected)
                } else {
                    verdict is Ok && current == Some(id)
                }
            },
        },
        RegisterExpectation::Replacement => match result {
            Err(_) => rejected(
                verdict,
                scenario,
                ConformanceCheck::DuplicateRetention,
                "descriptor released after applied deletion"@,
                error_text,
            ),
            Ok(id) => match registered_generation(calls, calls_before as int, key, interest, mode) {
                None => register_call_refused(verdict, scenario, calls, calls_before, key, interest, mode),
                Some(observed) => if observed != id {
                    rejected(verdict, scenario, ConformanceCheck::Handle, id_text(id), id_text(observed))
                } else if previous == Some(id) {
                    rejected(
                        verdict,
                        scenario,
                        ConformanceCheck::Handle,
                        quoted("fresh registration generation"@),
                        id_text(id),
                    )
                } else {
                    verdict is Ok && current == Some(id)
                },
            },
        },
    }
}

fn fail(
    scenario: MutationScenario,
    check: ConformanceCheck,
    expected: &str,
    actual: &str,
) -> (failure: ConformanceFailure)
    ensures
        failure.spec_scenario() == scenario,
        failure.spec_check() == check,
        failure.spec_expected() == expected@,
        failure.spec_actual() == actual@,
{
    ConformanceFailure::new(scenario, check, String::from_str(expected), String::from_str(actual))
}

fn judge_failed_registration(
    scenario: MutationScenario,
    retained: bool,
    previous: Option<RegistrationId>,
    result: &Result<RegistrationId, RegisterFailure>,
    calls: &[MutationCall],
) -> (judged: (Result<(), ConformanceFailure>, Option<RegistrationId>))
    ensures
        failed_registration_judged(scenario, retained, *result, calls@, judged.0, judged.1),
        judged.0 is Err ==> judged.1 == previous,
{
    let key = scenario_key(scenario.operation());
    let interest = prior_interest();
    let observed = match expect_register_call(scenario, calls, 0, key, interest, prior_mode()) {
        Ok(observed) => observed,
        Err(failure) => {
            return (Err(failure), previous);
        },
    };
    let expected = if retained {
        Some(observed)
    } else {
        None
    };
    let verdict = expect_failed_register(scenario, result, expected);
    if verdict.is_err() {
        return (verdict, previous);
    }
    match result {
        Err(failure) => {
            let verdict = expect_mutation(scenario, &failure.cause);
            if verdict.is_err() {
                (verdict, previous)
            } else {
                (verdict, Some(observed))
            }
        },
        Ok(_) => (verdict, previous),
    }
}

fn judge_register(
    scenario: MutationScenario,
    expectation: RegisterExpectation,
    previous: Option<RegistrationId>,
    result: &Result<RegistrationId, RegisterFailure>,
    error_text: &str,
    calls: &[MutationCall],
    calls_before: usize,
) -> (judged: (Result<(), ConformanceFailure>, Option<RegistrationId>))
    ensures
        register_judged(
            scenario,
            expectation,
            previous,
            *result,
            error_text@,
            calls@,
            calls_before,
            judged.0,
            judged.1,
        ),
{
    let key = scenario_key(scenario.operation());
    let interest = prior_interest();
    let mode = prior_mode();
    match expectation {
        RegisterExpectation::Success => {
            let observed = match expect_register_call(scenario, calls, 0, key, interest, mode) {
                Ok(observed) => observed,
                Err(failure) => {
                    return (Err(failure), previous);
                },
            };
            match result {
                Err(_) => (Err(fail(scenario, ConformanceCheck::Result, "successful registration", error_text)), previous),
                Ok(id) => {
                    let verdict = expect_handle_id(scenario, *id, observed);
                    if verdict.is_err() {
                        (verdict, previous)
                    } else {
                        (verdict, Some(*id))
                    }
                },
            }
        },
        RegisterExpectation::NotApplied => judge_failed_registration(scenario, false, previous, result, calls),
        RegisterExpectation::Retained => judge_failed_registration(scenario, true, previous, result, calls),
        RegisterExpectation::Retry => match result {
            Err(_) => (Err(fail(scenario, ConformanceCheck::Retry, "successful registration retry", error_text)), previous),
            Ok(id) => {
                let retried = match expect_register_call(scenario, calls, 1, key, interest, mode) {
                    Ok(retried) => retried,
                    Err(failure) => {
                        return (Err(failure), previous);
                    },
                };
                let verdict = expect_handle_id(scenario, *id, retried);
                if verdict.is_err() {
                    return (verdict, previous);
                }
                match previous {
                    Some(retired) => {
                        let verdict = expect_fresh_generation(scenario, ConformanceCheck::Retry, retired, *id);
                        if verdict.is_err() {
                            return (verdict, previous);
                        }
                    },
                    None => {},
                }
                (Ok(()), Some(*id))
            },
        },
        RegisterExpectation::Setup => match result {
            Err(_) => (Err(fail(scenario, ConformanceCheck::Setup, "initial registration", error_text)), previous),
            Ok(id) => {
                let verdict = expect_call(
                    scenario,
                    calls,
                    0,
                    MutationCall::Register { registration: *id, key, interest, mode },
                );
                if verdict.is_err() {
                    (verdict, previous)
                } else {
                    (verdict, Some(*id))
                }
            },
        },
        RegisterExpectation::Replacement => match result {
            Err(_) => (
                Err(
                    fail(
                        scenario,
                        ConformanceCheck::DuplicateRetention,
                        "descriptor released after applied deletion",
                        error_text,
                    ),
                ),
                previous,
            ),
            Ok(id) => {
                let observed = match expect_register_call(scenario, calls, calls_before, key, interest, mode) {
                    Ok(observed) => observed,
                    Err(failure) => {
                        return (Err(failure), previous);
                    },
                };
                let verdict = expect_handle_id(scenario, observed, *id);
                if verdict.is_err() {
                    return (verdict, previous);
                }
                match previous {
                    Some(retired) => {
                        let verdict = expect_fresh_generation(scenario, ConformanceCheck::Handle, retired, *id);
                        if verdict.is_err() {
                            return (verdict, previous);
                        }
                    },
                    None => {},
                }
                (Ok(()), Some(*id))
            },
        },
    }
}


/// The judgement of the answer to the disarming request: it must succeed,
/// and the backend's second call must disarm the current generation.
pub open spec fn disarm_judged(
    scenario: MutationScenario,
    id: RegistrationId,
    result: Result<(), ObservedError>,
    error_text: Seq<char>,
    calls: Seq<MutationCall>,
    verdict: Result<(), ConformanceFailure>,
) -> bool {
    match result {
        Err(_) => rejected(verdict, scenario, ConformanceCheck::Setup, "disarmed one-shot registration"@, error_text),
        Ok(()) => {
            let expected = MutationCall::EstablishDisarmed { registration: id };
            if !call_is(calls, 1, expected) {
                call_refused(verdict, scenario, calls, 1, expected)
            } else {
                verdict is Ok
            }
        },
    }
}

/// The modification call that moves the disarmed prior configuration of
/// `id` to the desired one.
pub open spec fn modify_payload(id: RegistrationId) -> MutationCall {
    MutationCall::Modify {
        registration: id,
        previous_interest: spec_prior_interest(),
        previous_mode: Mode::OneShot,
        previous_arm: ArmState::Disarmed,
        desired_interest: spec_desired_interest(),
        desired_mode: Mode::Level,
    }
}

/// The modification call that installs the desired configuration `id`
/// already holds, armed.
pub open spec fn confirm_payload(id: RegistrationId) -> MutationCall {
    MutationCall::Modify {
        registration: id,
        previous_interest: spec_desired_interest(),
        previous_mode: Mode::Level,
        previous_arm: ArmState::Armed,
        desired_interest: spec_desired_interest(),
        desired_mode: Mode::Level,
    }
}

/// How the failed-mutation checkpoint judges `result`.
pub open spec fn failed_mutation_judged(
    scenario: MutationScenario,
    result: Result<(), ObservedError>,
    verdict: Result<(), ConformanceFailure>,
) -> bool {
    match result {
        Ok(()) => rejected(verdict, scenario, ConformanceCheck::Result, quoted("mutation failure"@), quoted("success"@)),
        Err(error) => mutation_verdict_holds(scenario, error, verdict),
    }
}

/// How the uncertainty checkpoint judges a modification of the uncertain
/// registration `id`.
pub open spec fn uncertain_judged(
    scenario: MutationScenario,
    id: RegistrationId,
    result: Result<(), ObservedError>,
    result_text: Seq<char>,
    calls_before: usize,
    calls_after: usize,
    verdict: Result<(), ConformanceFailure>,
) -> bool {
    if !(result matches Err(error) && error.class == (PollError::Uncertain { registration: id })) {
        rejected(verdict, scenario, ConformanceCheck::State, quoted(uncertain_text(id)), quoted(result_text))
    } else if calls_after != calls_before {
        rejected(
            verdict,
            scenario,
            ConformanceCheck::Script,
            quoted("uncertain modify rejected before backend"@),
            quoted("backend call"@),
        )
    } else {
        verdict is Ok
    }
}

/// The judgement of the answer to a modification request of the plan on
/// the current generation `id`: `result_text` is the diagnostic text of
/// the result and `error_text` the display text of a failure.
pub open spec fn modify_judged(
    scenario: MutationScenario,
    expectation: ModifyExpectation,
    id: RegistrationId,
    result: Result<(), ObservedError>,
    result_text: Seq<char>,
    error_text: Seq<char>,
    calls: Seq<MutationCall>,
    calls_before: usize,
    verdict: Result<(), ConformanceFailure>,
) -> bool {
    match expectation {
        ModifyExpectation::Scenario => if !call_is(calls, 2, modify_payload(id)) {
            call_refused(verdict, scenario, calls, 2, modify_payload(id))
        } else if scenario.spec_branch() == Branch::Success {
            match result {
                Err(_) => rejected(verdict, scenario, ConformanceCheck::Result, "successful modification"@, error_text),
                Ok(()) => verdict is Ok,
            }
        } else {
            failed_mutation_judged(scenario, result, verdict)
        },
        ModifyExpectation::Retry => match result {
            Err(_) => rejected(verdict, scenario, ConformanceCheck::Retry, "successful modification retry"@, error_text),
            Ok(()) => if !call_is(calls, 3, modify_payload(id)) {
                call_refused(verdict, scenario, calls, 3, modify_payload(id))
            } else {
                verdict is Ok
            },
        },
        ModifyExpectation::Confirm => match result {
            Err(_) => rejected(
                verdict,
                scenario,
                ConformanceCheck::Retry,
                "successful same-desired confirmation"@,
                error_text,
            ),
            Ok(()) => if !call_is(calls, calls_before, confirm_payload(id)) {
                call_refused(verdict, scenario, calls, calls_before, confirm_payload(id))
            } else {
                verdict is Ok
            },
        },
        ModifyExpectation::Uncertain => uncertain_judged(
            scenario,
            id,
            result,
            result_text,
            calls_before,
            calls.len() as usize,
            verdict,
        ),
    }
}

/// The deletion call of the disarmed prior registration `id`.
pub open spec fn delete_payload(id: RegistrationId) -> MutationCall {
    MutationCall::Delete {
        registration: id,
        interest: spec_prior_interest(),
        state: RegistrationState::Registered { arm: ArmState::Disarmed },
    }
}

/// The expectation text of a failed cleanup deletion of the handle whose
/// diagnostic text is `handle_text`.
pub open spec fn cleanup_expectation(scenario: MutationScenario, handle_text: Seq<char>) -> Seq<char> {
    if scenario.spec_operation() == MutationOperation::Delete {
        "successful deletion retry of "@ + handle_text
    } else {
        "successful cleanup of "@ + handle_text
    }
}

/// How the failed-deletion checkpoint judges `result` for `id`.
pub open spec fn failed_delete_judged(
    scenario: MutationScenario,
    id: RegistrationId,
    result: Result<(), DeleteFailure>,
    verdict: Result<(), ConformanceFailure>,
) -> bool {
    match result {
        Ok(()) => rejected(verdict, scenario, ConformanceCheck::Result, quoted("deletion failure"@), quoted("success"@)),
        Err(failure) => if failure.borrowed != id {
            rejected(verdict, scenario, ConformanceCheck::Handle, id_text(id), id_text(failure.borrowed))
        } else if failure.returned != id {
            rejected(verdict, scenario, ConformanceCheck::IntoParts, id_text(id), id_text(failure.returned))
        } else {
            mutation_verdict_holds(scenario, failure.cause, verdict)
        },
    }
}

/// The judgement of the answer to a deletion request of the plan on the
/// current generation `id`: `error_text` is the display text of a failure
/// and `handle_text` the diagnostic text of the deleted handle.
pub open spec fn delete_judged(
    scenario: MutationScenario,
    expectation: DeleteExpectation,
    id: RegistrationId,
    result: Result<(), DeleteFailure>,
    error_text: Seq<char>,
    handle_text: Seq<char>,
    calls: Seq<MutationCall>,
    calls_before: usize,
    verdict: Result<(), ConformanceFailure>,
) -> bool {
    match expectation {
        DeleteExpectation::Scenario => if !call_is(calls, 2, delete_payload(id)) {
            call_refused(verdict, scenario, calls, 2, delete_payload(id))
        } else if scenario.spec_branch() == Branch::Success {
            match result {
                Err(_) => rejected(verdict, scenario, ConformanceCheck::Result, "successful deletion"@, error_text),
                Ok(()) => verdict is Ok,
            }
        } else {
            failed_delete_judged(scenario, id, result, verdict)
        },
        DeleteExpectation::Cleanup => {
            let (interest, state) = spec_cleanup_call(scenario);
            let expected = MutationCall::Delete { registration: id, interest, state };
            match result {
                Err(_) => rejected(
                    verdict,
                    scenario,
                    ConformanceCheck::Retry,
                    cleanup_expectation(scenario, handle_text),
                    error_text,
                ),
                Ok(()) => if !call_is(calls, calls_before, expected) {
                    call_refused(verdict, scenario, calls, calls_before, expected)
                } else {
                    verdict is Ok
                },
            }
        },
    }
}

/// The judgement of the answer to a state query of the plan on the
/// current generation `id`; `text` is the diagnostic text of the answer.
pub open spec fn state_judged(
    scenario: MutationScenario,
    driver_step: DriverStep,
    id: RegistrationId,
    actual: Result<RegistrationState, ObservedError>,
    text: Seq<char>,
    verdict: Result<(), ConformanceFailure>,
) -> bool {
    match driver_step {
        DriverStep::State(expected) => match actual {
            Ok(state) => if state == expected {
                verdict is Ok
            } else {
                rejected(verdict, scenario, ConformanceCheck::State, state_text(expected), state_text(state))
            },
            Err(error) => rejected(verdict, scenario, ConformanceCheck::State, state_text(expected), error.text@),
        },
        _ => if actual matches Err(error) && error.class == (PollError::Stale { registration: id }) {
            verdict is Ok
        } else {
            rejected(verdict, scenario, ConformanceCheck::State, quoted(stale_text(id)), quoted(text))
        },
    }
}

/// The judgement of a probe registration beyond the fixed capacity: it
/// must fail before the backend, return no handle, and name the exhausted
/// registration capacity.
pub open spec fn capacity_judged(
    scenario: MutationScenario,
    calls_before: usize,
    calls_after: usize,
    result: Result<RegistrationId, RegisterFailure>,
    verdict: Result<(), ConformanceFailure>,
) -> bool {
    match result {
        Ok(_) => rejected(
            verdict,
            scenario,
            ConformanceCheck::CapacityRetention,
            quoted("fixed-capacity rejection"@),
            quoted("registration succeeded"@),
        ),
        Err(failure) => if calls_after != calls_before {
            rejected(
                verdict,
                scenario,
                ConformanceCheck::CapacityRetention,
                quoted("capacity rejected before backend"@),
                quoted("backend call"@),
            )
        } else if failure.returned is Some {
            rejected(
                verdict,
                scenario,
                ConformanceCheck::IntoParts,
                quoted("no returned capability"@),
                quoted("unexpected handle"@),
            )
        } else if failure.cause.class == (PollError::RegistrationCapacity { limit: 1 }) {
            verdict is Ok
        } else {
            rejected(
                verdict,
                scenario,
                ConformanceCheck::CapacityRetention,
                quoted("Capacity { limit: 1 }"@),
                quoted(failure.cause.text@),
            )
        },
    }
}

/// The request a plan step makes, given the current generation.
pub open spec fn spec_request(
    scenario: MutationScenario,
    driver_step: DriverStep,
    current: Option<RegistrationId>,
) -> DriverRequest {
    match driver_step {
        DriverStep::Register(_) => DriverRequest::Register {
            key: spec_scenario_key(scenario.spec_operation()),
            interest: spec_prior_interest(),
            mode: Mode::OneShot,
        },
        DriverStep::EstablishDisarmed => DriverRequest::EstablishDisarmed,
        DriverStep::Modify(ModifyExpectation::Uncertain) => if scenario.spec_operation()
            == MutationOperation::Modify {
            DriverRequest::Modify { interest: spec_prior_interest(), mode: Mode::OneShot }
        } else {
            DriverRequest::Modify { interest: spec_desired_interest(), mode: Mode::Level }
        },
        DriverStep::Modify(_) => DriverRequest::Modify { interest: spec_desired_interest(), mode: Mode::Level },
        DriverStep::Delete(_) => DriverRequest::Delete,
        DriverStep::State(_) | DriverStep::Stale => DriverRequest::QueryState,
        DriverStep::Backend(_) => DriverRequest::QueryBackend { registration: current.unwrap() },
        DriverStep::Capacity => DriverRequest::ProbeCapacity {
            key: Key { value: 9999 },
            interest: InterestSet { readable: true, writable: true },
            mode: Mode::Level,
        },
        DriverStep::Finish => DriverRequest::Finish,
    }
}

proof fn lemma_plan_starts_with_registration(scenario: MutationScenario)
    ensures
        spec_driver_plan(scenario).len() > 0,
        spec_driver_plan(scenario)[0] is Register,
{
}

/// A scenario in progress: its plan, the step awaiting an answer, and the
/// generation of the registration the requests act on.
pub struct MutationDriver {
    scenario: MutationScenario,
    steps: Vec<DriverStep>,
    next: usize,
    current: Option<RegistrationId>,
    halted: bool,
}

impl MutationDriver {
    /// The scenario being driven.
    pub closed spec fn spec_scenario(&self) -> MutationScenario {
        self.scenario
    }

    /// How many steps of the plan were answered and accepted.
    pub closed spec fn spec_next(&self) -> nat {
        self.next as nat
    }

    /// The generation the requests act on, once a registration was accepted.
    pub closed spec fn spec_current(&self) -> Option<RegistrationId> {
        self.current
    }

    /// Whether a step was rejected, which ends the scenario.
    pub closed spec fn spec_halted(&self) -> bool {
        self.halted
    }

    /// The driver holds its scenario's plan, has not passed its end, and
    /// knows the current generation once a step was accepted.
    pub closed spec fn wf(&self) -> bool {
        &&& self.steps@ == spec_driver_plan(self.scenario)
        &&& self.next <= self.steps@.len()
        &&& self.next > 0 ==> self.current is Some
    }

    /// The step awaiting its answer: none once every step was accepted or
    /// one was rejected.
    pub open spec fn pending(&self) -> Option<DriverStep> {
        if self.spec_halted() || self.spec_next() >= spec_driver_plan(self.spec_scenario()).len() {
            None
        } else {
            Some(spec_driver_plan(self.spec_scenario())[self.spec_next() as int])
        }
    }

    /// How a judged step moves the driver on: an accepted one to the next
    /// step, a rejected one to a halt; the scenario and plan stay.
    pub open spec fn moved_on(&self, next: &Self, verdict: Result<(), ConformanceFailure>) -> bool {
        &&& next.wf()
        &&& next.spec_scenario() == self.spec_scenario()
        &&& verdict is Ok ==> next.spec_next() == self.spec_next() + 1 && !next.spec_halted()
        &&& verdict is Err ==> next.spec_next() == self.spec_next() && next.spec_halted()
    }

    /// Starts a scenario at the first step of its plan.
    pub fn new(scenario: MutationScenario) -> (driver: MutationDriver)
        ensures
            driver.wf(),
            driver.spec_scenario() == scenario,
            driver.spec_next() == 0,
            driver.spec_current() is None,
            !driver.spec_halted(),
    {
        MutationDriver { scenario, steps: driver_plan(scenario), next: 0, current: None, halted: false }
    }

    /// Returns the scenario being driven.
    pub fn scenario(&self) -> (scenario: MutationScenario)
        ensures
            scenario == self.spec_scenario(),
    {
        self.scenario
    }

    /// Returns the request of the step awaiting its answer, or none when
    /// the scenario is over.
    pub fn request(&self) -> (request: Option<DriverRequest>)
        requires
            self.wf(),
        ensures
            request == match self.pending() {
                None => None,
                Some(driver_step) => Some(spec_request(self.spec_scenario(), driver_step, self.spec_current())),
            },
    {
        if self.halted || self.next >= self.steps.len() {
            return None;
        }
        let driver_step = self.steps[self.next];
        let scenario = self.scenario;
        let request = match driver_step {
            DriverStep::Register(_) => DriverRequest::Register {
                key: scenario_key(scenario.operation()),
                interest: prior_interest(),
                mode: prior_mode(),
            },
            DriverStep::EstablishDisarmed => DriverRequest::EstablishDisarmed,
            DriverStep::Modify(ModifyExpectation::Uncertain) => if scenario.operation() == MutationOperation::Modify {
                DriverRequest::Modify { interest: prior_interest(), mode: prior_mode() }
            } else {
                DriverRequest::Modify { interest: desired_interest(), mode: desired_mode() }
            },
            DriverStep::Modify(_) => DriverRequest::Modify { interest: desired_interest(), mode: desired_mode() },
            DriverStep::Delete(_) => DriverRequest::Delete,
            DriverStep::State(_) | DriverStep::Stale => DriverRequest::QueryState,
            DriverStep::Backend(_) => {
                proof {
                    lemma_plan_starts_with_registration(scenario);
                }
                match self.current {
                    Some(id) => DriverRequest::QueryBackend { registration: id },
                    None => {
                        proof {
                            assert(false);
                        }
                        DriverRequest::Finish
                    },
                }
            },
            DriverStep::Capacity => DriverRequest::ProbeCapacity {
                key: Key { value: 9999 },
                interest: InterestSet::readable().union(InterestSet::writable()),
                mode: desired_mode(),
            },
            DriverStep::Finish => DriverRequest::Finish,
        };
        Some(request)
    }

    /// Moves on after a judged step: to the next step, or to a halt.
    fn settle(&mut self, verdict: &Result<(), ConformanceFailure>)
        requires
            old(self).wf(),
            old(self).pending() is Some,
            verdict is Ok ==> old(self).spec_current() is Some,
        ensures
            old(self).moved_on(&*final(self), *verdict),
            final(self).spec_current() == old(self).spec_current(),
    {
        if verdict.is_ok() {
            self.next = self.next + 1;
        } else {
            self.halted = true;
        }
    }

    fn current_id(&self) -> (id: RegistrationId)
        requires
            self.wf(),
            self.pending() is Some,
            !(self.pending() matches Some(DriverStep::Register(_))),
        ensures
            self.spec_current() == Some(id),
    {
        proof {
            lemma_plan_starts_with_registration(self.scenario);
        }
        match self.current {
            Some(id) => id,
            None => {
                proof {
                    assert(false);
                }
                RegistrationId { value: 0 }
            },
        }
    }

    /// Judges the answer to a registration request: `calls` are the
    /// backend calls after it, `calls_before` their number before it, and
    /// `error_text` the display text of a failure.
    pub fn observe_register(
        &mut self,
        result: &Result<RegistrationId, RegisterFailure>,
        error_text: &str,
        calls: &[MutationCall],
        calls_before: usize,
    ) -> (verdict: Result<(), ConformanceFailure>)
        requires
            old(self).wf(),
            old(self).pending() matches Some(DriverStep::Register(_)),
        ensures
            old(self).moved_on(&*final(self), verdict),
            match old(self).pending() {
                Some(DriverStep::Register(expectation)) => register_judged(
                    old(self).spec_scenario(),
                    expectation,
                    old(self).spec_current(),
                    *result,
                    error_text@,
                    calls@,
                    calls_before,
                    verdict,
                    final(self).spec_current(),
                ),
                _ => false,
            },
    {
        let expectation = match self.steps[self.next] {
            DriverStep::Register(expectation) => expectation,
            _ => {
                proof {
                    assert(false);
                }
                RegisterExpectation::Setup
            },
        };
        let (verdict, current) = judge_register(
            self.scenario,
            expectation,
            self.current,
            result,
            error_text,
            calls,
            calls_before,
        );
        if verdict.is_ok() {
            self.current = current;
        }
        self.settle(&verdict);
        verdict
    }

    /// Judges the answer to the disarming request.
    pub fn observe_disarm(
        &mut self,
        result: &Result<(), ObservedError>,
        error_text: &str,
        calls: &[MutationCall],
    ) -> (verdict: Result<(), ConformanceFailure>)
        requires
            old(self).wf(),
            old(self).pending() == Some(DriverStep::EstablishDisarmed),
        ensures
            old(self).moved_on(&*final(self), verdict),
            final(self).spec_current() == old(self).spec_current(),
            disarm_judged(
                old(self).spec_scenario(),
                old(self).spec_current().unwrap(),
                *result,
                error_text@,
                calls@,
                verdict,
            ),
    {
        let id = self.current_id();
        let verdict = match result {
            Err(_) => Err(fail(self.scenario, ConformanceCheck::Setup, "disarmed one-shot registration", error_text)),
            Ok(()) => expect_call(self.scenario, calls, 1, MutationCall::EstablishDisarmed { registration: id }),
        };
        self.settle(&verdict);
        verdict
    }

    /// Judges the answer to a modification request: `result_text` is the
    /// diagnostic text of the result, `error_text` the display text of a
    /// failure, `calls` the backend calls after it and `calls_before`
    /// their number before it.
    pub fn observe_modify(
        &mut self,
        result: &Result<(), ObservedError>,
        result_text: &str,
        error_text: &str,
        calls: &[MutationCall],
        calls_before: usize,
    ) -> (verdict: Result<(), ConformanceFailure>)
        requires
            old(self).wf(),
            old(self).pending() matches Some(DriverStep::Modify(_)),
        ensures
            old(self).moved_on(&*final(self), verdict),
            final(self).spec_current() == old(self).spec_current(),
            match old(self).pending() {
                Some(DriverStep::Modify(expectation)) => modify_judged(
                    old(self).spec_scenario(),
                    expectation,
                    old(self).spec_current().unwrap(),
                    *result,
                    result_text@,
                    error_text@,
                    calls@,
                    calls_before,
                    verdict,
                ),
                _ => false,
            },
    {
        let id = self.current_id();
        let scenario = self.scenario;
        let expectation = match self.steps[self.next] {
            DriverStep::Modify(expectation) => expectation,
            _ => {
                proof {
                    assert(false);
                }
                ModifyExpectation::Scenario
            },
        };
        let payload = MutationCall::Modify {
            registration: id,
            previous_interest: prior_interest(),
            previous_mode: prior_mode(),
            previous_arm: ArmState::Disarmed,
            desired_interest: desired_interest(),
            desired_mode: desired_mode(),
        };
        let verdict = match expectation {
            ModifyExpectation::Scenario => {
                let called = expect_call(scenario, calls, 2, payload);
                if called.is_err() {
                    called
                } else if scenario.branch() == Branch::Success {
                    match result {
                        Err(_) => Err(fail(scenario, ConformanceCheck::Result, "successful modification", error_text)),
                        Ok(()) => Ok(()),
                    }
                } else {
                    expect_failed_mutation(scenario, result)
                }
            },
            ModifyExpectation::Retry => match result {
                Err(_) => Err(fail(scenario, ConformanceCheck::Retry, "successful modification retry", error_text)),
                Ok(()) => expect_call(scenario, calls, 3, payload),
            },
            ModifyExpectation::Confirm => match result {
                Err(_) => Err(fail(scenario, ConformanceCheck::Retry, "successful same-desired confirmation", error_text)),
                Ok(()) => expect_call(
                    scenario,
                    calls,
                    calls_before,
                    MutationCall::Modify {
                        registration: id,
                        previous_interest: desired_interest(),
                        previous_mode: desired_mode(),
                        previous_arm: ArmState::Armed,
                        desired_interest: desired_interest(),
                        desired_mode: desired_mode(),
                    },
                ),
            },
            ModifyExpectation::Uncertain => expect_uncertain_rejection(
                scenario,
                id,
                result,
                result_text,
                calls_before,
                calls.len(),
            ),
        };
        self.settle(&verdict);
        verdict
    }

    /// Judges the answer to a deletion request: `error_text` is the
    /// display text of a failure, `handle_text` the diagnostic text of the
    /// deleted handle, `calls` the backend calls after it and
    /// `calls_before` their number before it.
    pub fn observe_delete(
        &mut self,
        result: &Result<(), DeleteFailure>,
        error_text: &str,
        handle_text: &str,
        calls: &[MutationCall],
        calls_before: usize,
    ) -> (verdict: Result<(), ConformanceFailure>)
        requires
            old(self).wf(),
            old(self).pending() matches Some(DriverStep::Delete(_)),
        ensures
            old(self).moved_on(&*final(self), verdict),
            final(self).spec_current() == old(self).spec_current(),
            match old(self).pending() {
                Some(DriverStep::Delete(expectation)) => delete_judged(
                    old(self).spec_scenario(),
                    expectation,
                    old(self).spec_current().unwrap(),
                    *result,
                    error_text@,
                    handle_text@,
                    calls@,
                    calls_before,
                    verdict,
                ),
                _ => false,
            },
    {
        let id = self.current_id();
        let scenario = self.scenario;
        let expectation = match self.steps[self.next] {
            DriverStep::Delete(expectation) => expectation,
            _ => {
                proof {
                    assert(false);
                }
                DeleteExpectation::Scenario
            },
        };
        let verdict = match expectation {
            DeleteExpectation::Scenario => {
                let payload = MutationCall::Delete {
                    registration: id,
                    interest: prior_interest(),
                    state: RegistrationState::Registered { arm: ArmState::Disarmed },
                };
                let called = expect_call(scenario, calls, 2, payload);
                if called.is_err() {
                    called
                } else if scenario.branch() == Branch::Success {
                    match result {
                        Err(_) => Err(fail(scenario, ConformanceCheck::Result, "successful deletion", error_text)),
                        Ok(()) => Ok(()),
                    }
                } else {
                    expect_failed_delete(scenario, result, id)
                }
            },
            DeleteExpectation::Cleanup => {
                let (interest, state) = cleanup_call(scenario);
                match result {
                    Err(_) => {
                        let mut expected = if scenario.operation() == MutationOperation::Delete {
                            String::from_str("successful deletion retry of ")
                        } else {
                            String::from_str("successful cleanup of ")
                        };
                        expected.append(handle_text);
                        Err(
                            ConformanceFailure::new(
                                scenario,
                                ConformanceCheck::Retry,
                                expected,
                                String::from_str(error_text),
                            ),
                        )
                    },
                    Ok(()) => expect_call(
                        scenario,
                        calls,
                        calls_before,
                        MutationCall::Delete { registration: id, interest, state },
                    ),
                }
            },
        };
        self.settle(&verdict);
        verdict
    }

    /// Judges the answer to a state query; `text` is its diagnostic text.
    pub fn observe_state(
        &mut self,
        actual: &Result<RegistrationState, ObservedError>,
        text: &str,
    ) -> (verdict: Result<(), ConformanceFailure>)
        requires
            old(self).wf(),
            old(self).pending() matches Some(DriverStep::State(_)) || old(self).pending() == Some(
                DriverStep::Stale,
            ),
        ensures
            old(self).moved_on(&*final(self), verdict),
            final(self).spec_current() == old(self).spec_current(),
            state_judged(
                old(self).spec_scenario(),
                old(self).pending().unwrap(),
                old(self).spec_current().unwrap(),
                *actual,
                text@,
                verdict,
            ),
    {
        let id = self.current_id();
        let verdict = match self.steps[self.next] {
            DriverStep::State(expected) => expect_state(self.scenario, expected, actual),
            _ => expect_stale(self.scenario, id, actual, text),
        };
        self.settle(&verdict);
        verdict
    }

    /// Judges the scripted backend's state of the current generation.
    pub fn observe_backend(&mut self, actual: BackendState) -> (verdict: Result<(), ConformanceFailure>)
        requires
            old(self).wf(),
            old(self).pending() matches Some(DriverStep::Backend(_)),
        ensures
            old(self).moved_on(&*final(self), verdict),
            final(self).spec_current() == old(self).spec_current(),
            match old(self).pending() {
                Some(DriverStep::Backend(expected)) => {
                    &&& (verdict is Ok) <==> actual == expected
                    &&& verdict is Err ==> rejected(
                        verdict,
                        old(self).spec_scenario(),
                        ConformanceCheck::State,
                        backend_debug(expected),
                        backend_debug(actual),
                    )
                },
                _ => false,
            },
    {
        let expected = match self.steps[self.next] {
            DriverStep::Backend(expected) => expected,
            _ => {
                proof {
                    assert(false);
                }
                BackendState::Absent
            },
        };
        proof {
            lemma_plan_starts_with_registration(self.scenario);
        }
        let verdict = expect_backend(self.scenario, expected, actual);
        self.settle(&verdict);
        verdict
    }

    /// Judges a probe registration beyond the fixed capacity: `calls_before`
    /// and `calls_after` are the numbers of backend calls around it.
    pub fn observe_capacity(
        &mut self,
        result: &Result<RegistrationId, RegisterFailure>,
        calls_before: usize,
        calls_after: usize,
    ) -> (verdict: Result<(), ConformanceFailure>)
        requires
            old(self).wf(),
            old(self).pending() == Some(DriverStep::Capacity),
        ensures
            old(self).moved_on(&*final(self), verdict),
            final(self).spec_current() == old(self).spec_current(),
            capacity_judged(old(self).spec_scenario(), calls_before, calls_after, *result, verdict),
    {
        proof {
            lemma_plan_starts_with_registration(self.scenario);
        }
        let verdict = expect_retained_capacity(self.scenario, calls_before, calls_after, result);
        self.settle(&verdict);
        verdict
    }

    /// Judges whether the script was consumed; `script_error` is the
    /// diagnostic text of the script's complaint.
    pub fn observe_finish(&mut self, script_error: Option<&str>) -> (verdict: Result<(), ConformanceFailure>)
        requires
            old(self).wf(),
            old(self).pending() == Some(DriverStep::Finish),
        ensures
            old(self).moved_on(&*final(self), verdict),
            final(self).spec_current() == old(self).spec_current(),
            match script_error {
                None => verdict is Ok,
                Some(text) => rejected(
                    verdict,
                    old(self).spec_scenario(),
                    ConformanceCheck::Script,
                    "fully consumed script"@,
                    text@,
                ),
            },
    {
        proof {
            lemma_plan_starts_with_registration(self.scenario);
        }
        let verdict = expect_finished(self.scenario, script_error);
        self.settle(&verdict);
        verdict
    }
}


/// A rejected step ends the scenario: once a judgement rejects, the driver
/// has no pending step and requests nothing more; an accepted step moves
/// to the next step of the same plan.
pub proof fn law_rejection_ends_the_scenario(
    before: MutationDriver,
    after: MutationDriver,
    verdict: Result<(), ConformanceFailure>,
)
    requires
        before.wf(),
        before.pending() is Some,
        before.moved_on(&after, verdict),
    ensures
        verdict is Err ==> after.pending() is None,
        verdict is Ok ==> after.spec_next() == before.spec_next() + 1 && after.spec_scenario()
            == before.spec_scenario() && (after.spec_next() < spec_driver_plan(after.spec_scenario()).len()
            ==> after.pending() == Some(spec_driver_plan(before.spec_scenario())[(before.spec_next() + 1) as int])),
{
}
} // verus!
