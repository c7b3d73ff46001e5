//! Decisions of one candidate/scenario qualification run.
//!
//! A run alternates candidate and fixture work with decisions: the caller
//! performs each wait, activation, rearm, and cleanup, and hands the outcome
//! to the functions here, which classify it and accumulate the receipt.

use vstd::prelude::*;

use crate::observation::{
    describe_bits, group_observation_facts, observation_of, ContractViolation, ExpectedObservation,
    Observation,
};
use crate::qualify_failure::{QualificationFailure, QualificationPhase};
use crate::qualify_model::{
    ConfiguredDelivery, DeliveryProfile, Implementation, Interest, ProfileSupport, Scenario,
};
use crate::qualify_report::{CaseOutcome, CaseResult};
use crate::text::{decimal, push_decimal};

verus! {

/// One wait's matching events, unioned into one observation.
#[derive(Clone, Copy, Debug, Eq, PartialEq)]
pub struct EventBatch {
    /// Number of events that named the registration.
    pub matched_events: usize,
    /// Union of the matching events' hints.
    pub observation: Observation,
}

impl EventBatch {
    /// A batch with no matching event.
    pub fn empty() -> (batch: EventBatch)
        ensures
            batch.matched_events == 0,
            batch.observation.bits() == 0,
    {
        EventBatch { matched_events: 0, observation: Observation::empty() }
    }

    /// A batch with one matching event.
    pub fn one(observation: Observation) -> (batch: EventBatch)
        ensures
            batch.matched_events == 1,
            batch.observation == observation,
    {
        EventBatch { matched_events: 1, observation }
    }

    /// Adds one matching event, saturating the count.
    pub fn record(self, observation: Observation) -> (batch: EventBatch)
        ensures
            batch.matched_events == if self.matched_events == usize::MAX {
                usize::MAX as int
            } else {
                self.matched_events + 1
            },
            batch.observation.bits() == self.observation.bits() | observation.bits(),
    {
        let matched_events = if self.matched_events == usize::MAX {
            usize::MAX
        } else {
            self.matched_events + 1
        };
        EventBatch { matched_events, observation: self.observation.union(observation) }
    }
}

/// The observation holding exactly the reported hints.
pub open spec fn hint_bits(
    readable: bool,
    writable: bool,
    read_closed: bool,
    write_closed: bool,
    error: bool,
    interrupt: bool,
) -> u8 {
    (if readable { 1u8 } else { 0u8 }) | (if writable { 2u8 } else { 0u8 }) | (if read_closed {
        4u8
    } else {
        0u8
    }) | (if write_closed { 8u8 } else { 0u8 }) | (if error { 16u8 } else { 0u8 }) | (
    if interrupt {
        32u8
    } else {
        0u8
    })
}

/// Translates a candidate's reported hints into a vendor-neutral observation.
pub fn observation_from_hints(
    readable: bool,
    writable: bool,
    read_closed: bool,
    write_closed: bool,
    error: bool,
    interrupt: bool,
) -> (observation: Observation)
    ensures
        observation.bits() == hint_bits(
            readable,
            writable,
            read_closed,
            write_closed,
            error,
            interrupt,
        ),
{
    let a = if readable { Observation::readable() } else { Observation::empty() };
    let b = if writable { Observation::writable() } else { Observation::empty() };
    let c = if read_closed { Observation::read_closed() } else { Observation::empty() };
    let d = if write_closed { Observation::write_closed() } else { Observation::empty() };
    let e = if error { Observation::error() } else { Observation::empty() };
    let f = if interrupt { Observation::interrupt() } else { Observation::empty() };
    a.union(b).union(c).union(d).union(e).union(f)
}

/// The declared readiness contract of a scenario: exactly the hint of the
/// fixture's direction is required and allowed.
pub open spec fn spec_expectation_bits(scenario: Scenario) -> u8 {
    match scenario.spec_interest() {
        Interest::Readable => 1,
        Interest::Writable => 2,
    }
}

/// The declared readiness contract of a scenario.
pub open spec fn spec_expectation_for(scenario: Scenario) -> ExpectedObservation {
    ExpectedObservation::spec_new(
        observation_of(spec_expectation_bits(scenario)),
        observation_of(0),
        observation_of(spec_expectation_bits(scenario)),
    )
}

/// Returns the declared readiness contract of a scenario.
pub fn expectation_for(scenario: Scenario) -> (contract: ExpectedObservation)
    ensures
        contract == spec_expectation_for(scenario),
{
    broadcast use group_observation_facts;

    let direction = match scenario.interest() {
        Interest::Readable => Observation::readable(),
        Interest::Writable => Observation::writable(),
    };
    ExpectedObservation::new(direction, Observation::empty(), direction)
}

/// The delivery semantics a candidate configures for a profile.
pub open spec fn spec_configured_delivery(
    implementation: Implementation,
    profile: DeliveryProfile,
) -> ConfiguredDelivery {
    match implementation {
        Implementation::Zio | Implementation::ZioBorrowed => match profile {
            DeliveryProfile::OneShot => ConfiguredDelivery::OneShot,
            _ => ConfiguredDelivery::Level,
        },
        Implementation::Mio => ConfiguredDelivery::NativeDefault,
        Implementation::Polling => match profile {
            DeliveryProfile::Level => ConfiguredDelivery::Level,
            _ => ConfiguredDelivery::OneShot,
        },
    }
}

/// Returns the delivery semantics a candidate configures for a profile: zio
/// tiers select level or one-shot, Mio uses its native default, and
/// `polling` selects one-shot except for level qualification.
pub fn configured_delivery(
    implementation: Implementation,
    profile: DeliveryProfile,
) -> (delivery: ConfiguredDelivery)
    ensures
        delivery == spec_configured_delivery(implementation, profile),
{
    match implementation {
        Implementation::Zio | Implementation::ZioBorrowed => match profile {
            DeliveryProfile::OneShot => ConfiguredDelivery::OneShot,
            _ => ConfiguredDelivery::Level,
        },
        Implementation::Mio => ConfiguredDelivery::NativeDefault,
        Implementation::Polling => match profile {
            DeliveryProfile::Level => ConfiguredDelivery::Level,
            _ => ConfiguredDelivery::OneShot,
        },
    }
}

/// Why Mio cannot run level or one-shot qualification.
pub open spec fn mio_mode_reason() -> Seq<char> {
    "Mio exposes its native default, not Level or OneShot selection"@
}

/// Why `polling` cannot run level qualification on some hosts.
pub open spec fn polling_level_reason() -> Seq<char> {
    "the polling host backend reports no native Level support"@
}

/// Whether a candidate exposes `profile`, given whether the host backend
/// reports native level support (consulted only for `polling`'s level
/// profile).
pub open spec fn spec_support(
    implementation: Implementation,
    profile: DeliveryProfile,
    host_level: bool,
) -> bool {
    match implementation {
        Implementation::Mio => profile == DeliveryProfile::InitialObservation,
        Implementation::Polling => profile != DeliveryProfile::Level || host_level,
        _ => true,
    }
}

/// Returns a candidate's capability for `profile`.
pub fn support_for(
    implementation: Implementation,
    profile: DeliveryProfile,
    host_level: bool,
) -> (support: ProfileSupport)
    ensures
        spec_support(implementation, profile, host_level) <==> support == ProfileSupport::Native,
        implementation == Implementation::Mio && profile != DeliveryProfile::InitialObservation
            ==> (support matches ProfileSupport::NotExposed { reason } && reason@ == mio_mode_reason()),
        implementation == Implementation::Polling && profile == DeliveryProfile::Level && !host_level
            ==> (support matches ProfileSupport::HostUnavailable { reason } && reason@
            == polling_level_reason()),
{
    match implementation {
        Implementation::Mio => match profile {
            DeliveryProfile::InitialObservation => ProfileSupport::Native,
            _ => ProfileSupport::NotExposed {
                reason: "Mio exposes its native default, not Level or OneShot selection",
            },
        },
        Implementation::Polling => match profile {
            DeliveryProfile::Level => if host_level {
                ProfileSupport::Native
            } else {
                ProfileSupport::HostUnavailable {
                    reason: "the polling host backend reports no native Level support",
                }
            },
            _ => ProfileSupport::Native,
        },
        _ => ProfileSupport::Native,
    }
}

/// One step of the observation schedule of a delivery profile.
#[derive(Clone, Copy, Debug, Eq, PartialEq)]
pub enum ProfileStep {
    /// Await one readiness observation and judge it in the phase.
    Observe(QualificationPhase),
    /// Require a quiet one-shot window before the explicit rearm.
    DisarmedBeforeRearm,
    /// Perform the explicit native rearm.
    Rearm,
    /// Require a quiet one-shot window after the rearmed delivery.
    DisarmedAfterRearm,
}

/// The observation schedule of a delivery profile.
pub open spec fn spec_profile_plan(profile: DeliveryProfile) -> Seq<ProfileStep> {
    match profile {
        DeliveryProfile::InitialObservation => seq![ProfileStep::Observe(QualificationPhase::Wait)],
        DeliveryProfile::Level => seq![
            ProfileStep::Observe(QualificationPhase::Wait),
            ProfileStep::Observe(QualificationPhase::LevelDelivery),
        ],
        DeliveryProfile::OneShot => seq![
            ProfileStep::Observe(QualificationPhase::Wait),
            ProfileStep::DisarmedBeforeRearm,
            ProfileStep::Rearm,
            ProfileStep::Observe(QualificationPhase::Rearm),
            ProfileStep::DisarmedAfterRearm,
        ],
    }
}

/// Returns the observation schedule of a delivery profile: one observation;
/// a level redelivery; or a quiet disarmed window, an explicit rearm, one
/// rearmed observation, and a second quiet window. The schedule stops at its
/// first failure.
pub fn profile_plan(profile: DeliveryProfile) -> (plan: Vec<ProfileStep>)
    ensures
        plan@ == spec_profile_plan(profile),
{
    let mut plan = Vec::new();
    plan.push(ProfileStep::Observe(QualificationPhase::Wait));
    match profile {
        DeliveryProfile::InitialObservation => {},
        DeliveryProfile::Level => {
            plan.push(ProfileStep::Observe(QualificationPhase::LevelDelivery));
        },
        DeliveryProfile::OneShot => {
            plan.push(ProfileStep::DisarmedBeforeRearm);
            plan.push(ProfileStep::Rearm);
            plan.push(ProfileStep::Observe(QualificationPhase::Rearm));
            plan.push(ProfileStep::DisarmedAfterRearm);
        },
    }
    assert(plan@ =~= spec_profile_plan(profile));
    plan
}

/// The text describing a batch.
pub open spec fn spec_batch_description(batch: EventBatch) -> Seq<char> {
    decimal(batch.matched_events as nat) + " matching events with "@ + describe_bits(
        batch.observation.bits(),
    )
}

/// Returns the text describing a batch: its count and its hints.
pub fn batch_description(batch: EventBatch) -> (text: String)
    ensures
        text@ == spec_batch_description(batch),
{
    let mut text = String::new();
    push_decimal(&mut text, batch.matched_events as u64);
    text.append(" matching events with ");
    let hints = batch.observation.describe();
    text.append(hints.as_str());
    assert(text@ =~= spec_batch_description(batch));
    text
}

/// The expectation text of a contract violation.
pub open spec fn spec_contract_expected(cause: ContractViolation) -> Seq<char> {
    match cause {
        ContractViolation::MissingRequired { required, .. } => "required flags "@ + describe_bits(
            required.bits(),
        ),
        ContractViolation::MissingOneOf { required_any, .. } => "at least one flag from "@
            + describe_bits(required_any.bits()),
        ContractViolation::Undocumented { allowed, .. } => "no flags outside "@ + describe_bits(
            allowed.bits(),
        ),
    }
}

/// Returns the expectation text of a contract violation.
pub fn contract_expected(cause: ContractViolation) -> (text: String)
    ensures
        text@ == spec_contract_expected(cause),
{
    match cause {
        ContractViolation::MissingRequired { required, .. } => {
            let mut text = String::from_str("required flags ");
            let flags = required.describe();
            text.append(flags.as_str());
            text
        },
        ContractViolation::MissingOneOf { required_any, .. } => {
            let mut text = String::from_str("at least one flag from ");
            let flags = required_any.describe();
            text.append(flags.as_str());
            text
        },
        ContractViolation::Undocumented { allowed, .. } => {
            let mut text = String::from_str("no flags outside ");
            let flags = allowed.describe();
            text.append(flags.as_str());
            text
        },
    }
}

/// Whether `failure` names the candidate, scenario, phase, expectation, and
/// outcome.
pub open spec fn failure_is(
    failure: QualificationFailure,
    implementation: Implementation,
    scenario: Scenario,
    phase: QualificationPhase,
    expected: Seq<char>,
    actual: Seq<char>,
) -> bool {
    &&& failure.spec_implementation() == implementation
    &&& failure.spec_scenario() == scenario
    &&& failure.spec_phase() == phase
    &&& failure.spec_expected() == expected
    &&& failure.spec_actual() == actual
}

/// The observations retained after one awaited wait: the batch's union
/// when the batch named the registration at least once.
pub open spec fn retained_after(observations: Seq<Observation>, waited: Result<EventBatch, String>) -> Seq<
    Observation,
> {
    match waited {
        Ok(batch) => if batch.matched_events == 0 {
            observations
        } else {
            observations.push(batch.observation)
        },
        Err(_) => observations,
    }
}

/// Whether `verdict` judges one awaited wait in `phase`: a failed wait, or
/// one that saw no matching event before its deadline, fails in `phase`;
/// more than one matching event fails cardinality; otherwise the
/// observation must satisfy the scenario's contract.
pub open spec fn observation_judged(
    verdict: Result<(), QualificationFailure>,
    implementation: Implementation,
    scenario: Scenario,
    phase: QualificationPhase,
    waited: Result<EventBatch, String>,
) -> bool {
    match waited {
        Err(actual) => verdict matches Err(failure) && failure_is(
            failure,
            implementation,
            scenario,
            phase,
            "successful readiness wait"@,
            actual@,
        ),
        Ok(batch) => if batch.matched_events == 0 {
            verdict matches Err(failure) && failure_is(
                failure,
                implementation,
                scenario,
                phase,
                "one readiness observation before deadline"@,
                "deadline elapsed"@,
            )
        } else if batch.matched_events != 1 {
            verdict matches Err(failure) && failure_is(
                failure,
                implementation,
                scenario,
                QualificationPhase::Cardinality,
                "exactly one matching readiness event"@,
                spec_batch_description(batch),
            )
        } else {
            match spec_expectation_for(scenario).verdict(batch.observation) {
                Ok(()) => verdict is Ok,
                Err(cause) => verdict matches Err(failure) && failure_is(
                    failure,
                    implementation,
                    scenario,
                    QualificationPhase::Contract,
                    spec_contract_expected(cause),
                    describe_bits(batch.observation.bits()),
                ),
            }
        },
    }
}

/// Judges one awaited observation, retaining the observation of a batch
/// that named the registration.
pub fn judge_observation(
    implementation: Implementation,
    scenario: Scenario,
    phase: QualificationPhase,
    waited: Result<EventBatch, String>,
    observations: &mut Vec<Observation>,
) -> (verdict: Result<(), QualificationFailure>)
    ensures
        final(observations)@ == retained_after(old(observations)@, waited),
        observation_judged(verdict, implementation, scenario, phase, waited),
{
    let batch = match waited {
        Err(actual) => {
            return Err(
                QualificationFailure::new(
                    implementation,
                    scenario,
                    phase,
                    String::from_str("successful readiness wait"),
                    actual,
                ),
            );
        },
        Ok(batch) => batch,
    };
    if batch.matched_events == 0 {
        return Err(
            QualificationFailure::new(
                implementation,
                scenario,
                phase,
                String::from_str("one readiness observation before deadline"),
                String::from_str("deadline elapsed"),
            ),
        );
    }
    let actual = batch.observation;
    observations.push(actual);
    if batch.matched_events != 1 {
        return Err(
            QualificationFailure::new(
                implementation,
                scenario,
                QualificationPhase::Cardinality,
                String::from_str("exactly one matching readiness event"),
                batch_description(batch),
            ),
        );
    }
    match expectation_for(scenario).validate(actual) {
        Ok(()) => Ok(()),
        Err(cause) => Err(
            QualificationFailure::new(
                implementation,
                scenario,
                QualificationPhase::Contract,
                contract_expected(cause),
                actual.describe(),
            ),
        ),
    }
}


/// The expectation text of a quiet window in the disarm phase.
pub open spec fn spec_disarmed_expectation(step: ProfileStep) -> Seq<char> {
    if step == ProfileStep::DisarmedBeforeRearm {
        "no delivery before explicit rearm"@
    } else {
        "no delivery after rearmed delivery"@
    }
}

/// Returns the expectation text of a quiet window in the disarm phase.
pub fn disarmed_expectation(before_rearm: bool) -> (text: String)
    ensures
        text@ == spec_disarmed_expectation(
            if before_rearm {
                ProfileStep::DisarmedBeforeRearm
            } else {
                ProfileStep::DisarmedAfterRearm
            },
        ),
{
    if before_rearm {
        String::from_str("no delivery before explicit rearm")
    } else {
        String::from_str("no delivery after rearmed delivery")
    }
}

/// Whether `verdict` judges one wait inside a quiet window: a failed wait
/// fails in `phase` as an unsuccessful quiet-window wait; a wait with a
/// matching event fails in `phase` with the batch; an empty batch keeps the
/// window open.
pub open spec fn quiet_judged(
    verdict: Result<(), QualificationFailure>,
    implementation: Implementation,
    scenario: Scenario,
    phase: QualificationPhase,
    expected: Seq<char>,
    waited: Result<EventBatch, String>,
) -> bool {
    match waited {
        Err(actual) => verdict matches Err(failure) && failure_is(
            failure,
            implementation,
            scenario,
            phase,
            "successful quiet-window wait: "@ + expected,
            actual@,
        ),
        Ok(batch) => if batch.matched_events != 0 {
            verdict matches Err(failure) && failure_is(
                failure,
                implementation,
                scenario,
                phase,
                expected,
                spec_batch_description(batch),
            )
        } else {
            verdict is Ok
        },
    }
}

/// Judges one wait inside a quiet window.
pub fn judge_quiet(
    implementation: Implementation,
    scenario: Scenario,
    phase: QualificationPhase,
    expected: &str,
    waited: Result<EventBatch, String>,
) -> (verdict: Result<(), QualificationFailure>)
    ensures
        quiet_judged(verdict, implementation, scenario, phase, expected@, waited),
{
    match waited {
        Err(actual) => {
            let mut text = String::from_str("successful quiet-window wait: ");
            text.append(expected);
            Err(QualificationFailure::new(implementation, scenario, phase, text, actual))
        },
        Ok(batch) => {
            if batch.matched_events != 0 {
                Err(
                    QualificationFailure::new(
                        implementation,
                        scenario,
                        phase,
                        String::from_str(expected),
                        batch_description(batch),
                    ),
                )
            } else {
                Ok(())
            }
        },
    }
}

/// The receipt of a case that failed before execution began.
pub open spec fn failed_before_execution(
    result: CaseResult,
    implementation: Implementation,
    scenario: Scenario,
    configured: Option<ConfiguredDelivery>,
    phase: QualificationPhase,
    expected: Seq<char>,
    actual: Seq<char>,
) -> bool {
    &&& result.spec_implementation() == implementation
    &&& result.spec_scenario() == scenario
    &&& result.spec_configured_delivery() == configured
    &&& result.spec_observations().len() == 0
    &&& result.spec_failures().len() == 1
    &&& result.spec_outcome() is Failed
    &&& failure_is(result.spec_failures()[0], implementation, scenario, phase, expected, actual)
}

/// Returns the receipt of a case whose capability discovery failed.
pub fn capability_failed(implementation: Implementation, scenario: Scenario, actual: String) -> (result: CaseResult)
    ensures
        failed_before_execution(
            result,
            implementation,
            scenario,
            None,
            QualificationPhase::Capability,
            "candidate capability discovery"@,
            actual@,
        ),
{
    let failure = QualificationFailure::new(
        implementation,
        scenario,
        QualificationPhase::Capability,
        String::from_str("candidate capability discovery"),
        actual,
    );
    let mut failures = Vec::new();
    failures.push(failure);
    CaseResult::new(implementation, scenario, None, Vec::new(), CaseOutcome::Failed(failures))
}

/// Returns the receipt of a case whose setup failed: a fresh fixture
/// (`configured` is `None`) or the candidate registration.
pub fn setup_failed(
    implementation: Implementation,
    scenario: Scenario,
    configured: Option<ConfiguredDelivery>,
    expected: &str,
    actual: String,
) -> (result: CaseResult)
    ensures
        failed_before_execution(
            result,
            implementation,
            scenario,
            configured,
            QualificationPhase::Setup,
            expected@,
            actual@,
        ),
{
    let failure = QualificationFailure::new(
        implementation,
        scenario,
        QualificationPhase::Setup,
        String::from_str(expected),
        actual,
    );
    let mut failures = Vec::new();
    failures.push(failure);
    CaseResult::new(implementation, scenario, configured, Vec::new(), CaseOutcome::Failed(failures))
}

/// Returns the receipt of a case whose profile the candidate cannot run.
pub fn not_run(implementation: Implementation, scenario: Scenario, support: ProfileSupport) -> (result: CaseResult)
    ensures
        result.spec_implementation() == implementation,
        result.spec_scenario() == scenario,
        result.spec_configured_delivery() is None,
        result.spec_observations().len() == 0,
        result.spec_outcome() == CaseOutcome::NotRun(support),
{
    CaseResult::new(implementation, scenario, None, Vec::new(), CaseOutcome::NotRun(support))
}

/// The accumulating receipt of an executed case: retained observations and
/// every independent failure in execution order.
pub struct CaseRun {
    implementation: Implementation,
    scenario: Scenario,
    configured: ConfiguredDelivery,
    observations: Vec<Observation>,
    failures: Vec<QualificationFailure>,
}

impl CaseRun {
    /// The candidate.
    pub closed spec fn spec_implementation(&self) -> Implementation {
        self.implementation
    }

    /// The scenario.
    pub closed spec fn spec_scenario(&self) -> Scenario {
        self.scenario
    }

    /// The configured delivery.
    pub closed spec fn spec_configured(&self) -> ConfiguredDelivery {
        self.configured
    }

    /// The observations retained so far.
    pub closed spec fn spec_observations(&self) -> Seq<Observation> {
        self.observations@
    }

    /// The failures recorded so far.
    pub closed spec fn spec_failures(&self) -> Seq<QualificationFailure> {
        self.failures@
    }

    /// Starts an executed case after a successful registration.
    pub fn begin(
        implementation: Implementation,
        scenario: Scenario,
        configured: ConfiguredDelivery,
    ) -> (run: CaseRun)
        ensures
            run.spec_implementation() == implementation,
            run.spec_scenario() == scenario,
            run.spec_configured() == configured,
            run.spec_observations().len() == 0,
            run.spec_failures().len() == 0,
    {
        CaseRun {
            implementation,
            scenario,
            configured,
            observations: Vec::new(),
            failures: Vec::new(),
        }
    }

    /// Retains a failure from an independent phase, if there was one.
    pub fn record(&mut self, verdict: Result<(), QualificationFailure>)
        ensures
            final(self).spec_implementation() == old(self).spec_implementation(),
            final(self).spec_scenario() == old(self).spec_scenario(),
            final(self).spec_configured() == old(self).spec_configured(),
            final(self).spec_observations() == old(self).spec_observations(),
            final(self).spec_failures() == match verdict {
                Ok(()) => old(self).spec_failures(),
                Err(failure) => old(self).spec_failures().push(failure),
            },
    {
        match verdict {
            Ok(()) => {},
            Err(failure) => {
                self.failures.push(failure);
            },
        }
    }

    /// Retains a failure of `phase` with the given expectation and outcome.
    pub fn fail(&mut self, phase: QualificationPhase, expected: &str, actual: String)
        ensures
            final(self).spec_implementation() == old(self).spec_implementation(),
            final(self).spec_scenario() == old(self).spec_scenario(),
            final(self).spec_configured() == old(self).spec_configured(),
            final(self).spec_observations() == old(self).spec_observations(),
            final(self).spec_failures().len() == old(self).spec_failures().len() + 1,
            final(self).spec_failures().drop_last() == old(self).spec_failures(),
            failure_is(
                final(self).spec_failures().last(),
                old(self).spec_implementation(),
                old(self).spec_scenario(),
                phase,
                expected@,
                actual@,
            ),
    {
        let failure = QualificationFailure::new(
            self.implementation,
            self.scenario,
            phase,
            String::from_str(expected),
            actual,
        );
        self.failures.push(failure);
        assert(self.failures@.drop_last() =~= old(self).failures@);
    }

    /// Judges one awaited observation of the profile schedule.
    pub fn observe(&mut self, phase: QualificationPhase, waited: Result<EventBatch, String>) -> (verdict: Result<(), QualificationFailure>)
        ensures
            final(self).spec_implementation() == old(self).spec_implementation(),
            final(self).spec_scenario() == old(self).spec_scenario(),
            final(self).spec_configured() == old(self).spec_configured(),
            final(self).spec_failures() == old(self).spec_failures(),
            final(self).spec_observations() == retained_after(old(self).spec_observations(), waited),
            observation_judged(
                verdict,
                old(self).spec_implementation(),
                old(self).spec_scenario(),
                phase,
                waited,
            ),
    {
        judge_observation(self.implementation, self.scenario, phase, waited, &mut self.observations)
    }

    /// Finishes the case: it passed exactly when no failure was recorded.
    pub fn finish(self) -> (result: CaseResult)
        ensures
            result.spec_implementation() == self.spec_implementation(),
            result.spec_scenario() == self.spec_scenario(),
            result.spec_configured_delivery() == Some(self.spec_configured()),
            result.spec_observations() == self.spec_observations(),
            self.spec_failures().len() == 0 ==> result.spec_outcome() == CaseOutcome::Passed,
            self.spec_failures().len() != 0 ==> result.spec_outcome() is Failed
                && result.spec_failures() == self.spec_failures(),
    {
        if self.failures.len() == 0 {
            CaseResult::new(
                self.implementation,
                self.scenario,
                Some(self.configured),
                self.observations,
                CaseOutcome::Passed,
            )
        } else {
            CaseResult::new(
                self.implementation,
                self.scenario,
                Some(self.configured),
                self.observations,
                CaseOutcome::Failed(self.failures),
            )
        }
    }
}

/// A scenario's contract accepts an observation exactly when the observation
/// is the lone hint of the scenario's interest direction: the readable hint
/// (bit 1) for read interest, the writable hint (bit 2) for write interest.
/// The contract requires and allows the same hints and declares no
/// alternatives.
pub proof fn law_contract_is_the_interest_direction(scenario: Scenario, actual: Observation)
    ensures
        scenario.spec_interest() == Interest::Readable ==> (spec_expectation_for(scenario).accepts(actual)
            <==> actual.bits() == 1),
        scenario.spec_interest() == Interest::Writable ==> (spec_expectation_for(scenario).accepts(actual)
            <==> actual.bits() == 2),
        spec_expectation_for(scenario).spec_required() == spec_expectation_for(scenario).spec_allowed(),
        spec_expectation_for(scenario).spec_required_any().bits() == 0,
        spec_expectation_for(scenario).accepts(actual) <==> spec_expectation_for(scenario).verdict(actual) is Ok,
{
    broadcast use group_observation_facts;

    let bits = actual.bits();
    assert((bits & 1u8 == 1u8 && 1u8 & bits == bits) <==> bits == 1u8) by (bit_vector);
    assert((bits & 2u8 == 2u8 && 2u8 & bits == bits) <==> bits == 2u8) by (bit_vector);
}

/// The host's level support matters only to `polling`'s level profile: the
/// zio tiers run every profile, `polling` runs every profile but level on
/// any host and level exactly where the host supports it, and Mio runs only
/// the initial observation.
pub proof fn law_support_consults_host_only_for_polling_level(
    implementation: Implementation,
    profile: DeliveryProfile,
    host_level: bool,
    other_host_level: bool,
)
    ensures
        !(implementation == Implementation::Polling && profile == DeliveryProfile::Level) ==> spec_support(
            implementation,
            profile,
            host_level,
        ) == spec_support(implementation, profile, other_host_level),
        implementation == Implementation::Polling && profile != DeliveryProfile::Level ==> spec_support(
            implementation,
            profile,
            host_level,
        ),
        implementation == Implementation::Polling && profile == DeliveryProfile::Level ==> (spec_support(
            implementation,
            profile,
            host_level,
        ) <==> host_level),
        implementation == Implementation::Zio || implementation == Implementation::ZioBorrowed
            ==> spec_support(implementation, profile, host_level),
        implementation == Implementation::Mio ==> (spec_support(implementation, profile, host_level)
            <==> profile == DeliveryProfile::InitialObservation),
{
}

/// Every candidate that selects level or one-shot delivery configures the
/// delivery its profile asks for: the level profile runs level-triggered and
/// the one-shot profile runs one-shot on the zio tiers and on `polling`,
/// in particular wherever the profile is supported; Mio keeps its native
/// default for every profile.
pub proof fn law_configured_delivery_follows_profile(
    implementation: Implementation,
    profile: DeliveryProfile,
    host_level: bool,
)
    ensures
        implementation != Implementation::Mio && profile == DeliveryProfile::Level ==> spec_configured_delivery(
            implementation,
            profile,
        ) == ConfiguredDelivery::Level,
        implementation != Implementation::Mio && profile == DeliveryProfile::OneShot ==> spec_configured_delivery(
            implementation,
            profile,
        ) == ConfiguredDelivery::OneShot,
        spec_support(implementation, profile, host_level) && profile == DeliveryProfile::Level
            ==> spec_configured_delivery(implementation, profile) == ConfiguredDelivery::Level,
        spec_support(implementation, profile, host_level) && profile == DeliveryProfile::OneShot
            ==> spec_configured_delivery(implementation, profile) == ConfiguredDelivery::OneShot,
        implementation == Implementation::Mio ==> spec_configured_delivery(implementation, profile)
            == ConfiguredDelivery::NativeDefault,
{
}

} // verus!
