//! Structured qualification failures.

use vstd::prelude::*;

use crate::qualify_model::{Implementation, Scenario};

verus! {

/// Harness phase associated with a qualification failure.
#[derive(Clone, Copy, Debug, Eq, PartialEq, Structural)]
pub enum QualificationPhase {
    /// Candidate capability discovery.
    Capability,
    /// Fixture or candidate construction.
    Setup,
    /// Positive quiet window before fixture activation.
    Quiescence,
    /// Transitioning the fixture into the requested ready state.
    Activation,
    /// Waiting for readiness.
    Wait,
    /// Number of matching events returned by one wait.
    Cardinality,
    /// Contract validation.
    Contract,
    /// Native level redelivery.
    LevelDelivery,
    /// Native one-shot disarm.
    Disarm,
    /// Explicit one-shot rearm.
    Rearm,
    /// Corresponding nonblocking operation.
    Operation,
    /// Explicit registration cleanup.
    Cleanup,
}

impl QualificationPhase {
    /// The phase's stable diagnostic name.
    pub open spec fn spec_label(self) -> Seq<char> {
        match self {
            QualificationPhase::Capability => "Capability"@,
            QualificationPhase::Setup => "Setup"@,
            QualificationPhase::Quiescence => "Quiescence"@,
            QualificationPhase::Activation => "Activation"@,
            QualificationPhase::Wait => "Wait"@,
            QualificationPhase::Cardinality => "Cardinality"@,
            QualificationPhase::Contract => "Contract"@,
            QualificationPhase::LevelDelivery => "LevelDelivery"@,
            QualificationPhase::Disarm => "Disarm"@,
            QualificationPhase::Rearm => "Rearm"@,
            QualificationPhase::Operation => "Operation"@,
            QualificationPhase::Cleanup => "Cleanup"@,
        }
    }

    /// Returns the phase's stable diagnostic name.
    pub fn label(self) -> (label: &'static str)
        ensures
            label@ == self.spec_label(),
    {
        match self {
            QualificationPhase::Capability => "Capability",
            QualificationPhase::Setup => "Setup",
            QualificationPhase::Quiescence => "Quiescence",
            QualificationPhase::Activation => "Activation",
            QualificationPhase::Wait => "Wait",
            QualificationPhase::Cardinality => "Cardinality",
            QualificationPhase::Contract => "Contract",
            QualificationPhase::LevelDelivery => "LevelDelivery",
            QualificationPhase::Disarm => "Disarm",
            QualificationPhase::Rearm => "Rearm",
            QualificationPhase::Operation => "Operation",
            QualificationPhase::Cleanup => "Cleanup",
        }
    }
}

/// One structured candidate/scenario failure.
#[derive(Clone, Debug, Eq, PartialEq)]
pub struct QualificationFailure {
    implementation: Implementation,
    scenario: Scenario,
    phase: QualificationPhase,
    expected: String,
    actual: String,
}

impl QualificationFailure {
    /// The candidate.
    pub closed spec fn spec_implementation(&self) -> Implementation {
        self.implementation
    }

    /// The scenario.
    pub closed spec fn spec_scenario(&self) -> Scenario {
        self.scenario
    }

    /// The failed phase.
    pub closed spec fn spec_phase(&self) -> QualificationPhase {
        self.phase
    }

    /// The declared expectation.
    pub closed spec fn spec_expected(&self) -> Seq<char> {
        self.expected@
    }

    /// The observed outcome.
    pub closed spec fn spec_actual(&self) -> Seq<char> {
        self.actual@
    }

    /// Creates a structured failure.
    pub fn new(
        implementation: Implementation,
        scenario: Scenario,
        phase: QualificationPhase,
        expected: String,
        actual: String,
    ) -> (failure: QualificationFailure)
        ensures
            failure.spec_implementation() == implementation,
            failure.spec_scenario() == scenario,
            failure.spec_phase() == phase,
            failure.spec_expected() == expected@,
            failure.spec_actual() == actual@,
    {
        QualificationFailure { implementation, scenario, phase, expected, actual }
    }

    /// The text form: candidate, scenario, phase, expectation, and outcome.
    pub open spec fn spec_text(&self) -> Seq<char> {
        self.spec_implementation().spec_name() + " "@ + self.spec_scenario().spec_name() + " "@
            + self.spec_phase().spec_label() + ": expected "@ + self.spec_expected()
            + ", observed "@ + self.spec_actual()
    }

    /// Returns the text form: candidate, scenario, phase, expectation, and
    /// observed outcome.
    pub fn to_text(&self) -> (text: String)
        ensures
            text@ == self.spec_text(),
    {
        let mut text = String::from_str(self.implementation.name());
        text.append(" ");
        text.append(self.scenario.name());
        text.append(" ");
        text.append(self.phase.label());
        text.append(": expected ");
        text.append(self.expected.as_str());
        text.append(", observed ");
        text.append(self.actual.as_str());
        text
    }

    /// Returns the candidate.
    pub fn implementation(&self) -> (implementation: Implementation)
        ensures
            implementation == self.spec_implementation(),
    {
        self.implementation
    }

    /// Returns the scenario.
    pub fn scenario(&self) -> (scenario: Scenario)
        ensures
            scenario == self.spec_scenario(),
    {
        self.scenario
    }

    /// Returns the failed phase.
    pub fn phase(&self) -> (phase: QualificationPhase)
        ensures
            phase == self.spec_phase(),
    {
        self.phase
    }

    /// Returns the declared expectation.
    pub fn expected(&self) -> (expected: &str)
        ensures
            expected@ == self.spec_expected(),
    {
        self.expected.as_str()
    }

    /// Returns the observed outcome.
    pub fn actual(&self) -> (actual: &str)
        ensures
            actual@ == self.spec_actual(),
    {
        self.actual.as_str()
    }
}

} // verus!
