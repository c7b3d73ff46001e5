//! Stable replay diagnostics for deterministic model sequences.

use vstd::prelude::*;

use crate::model_sequence::{hex16, push_hex16};
use crate::text::{decimal, push_decimal};

verus! {

/// Model-sequence checkpoint that rejected an observation.
#[derive(Clone, Copy, Debug, Eq, Hash, PartialEq, Structural)]
pub enum ModelSequenceCheck {
    /// Action generation or fixture setup failed.
    Setup,
    /// A generated action violated its reference-model precondition.
    Precondition,
    /// Success or failure differed from the planned outcome.
    Result,
    /// A mutation error reported another operation or commit status.
    Commit,
    /// A returned or copied handle named another registration.
    Handle,
    /// A registration generation was repeated after retirement.
    Generation,
    /// Portable registration state diverged from the reference model.
    State,
    /// Scripted backend state diverged from the reference model.
    Backend,
    /// The backend observed missing, extra, or misordered work.
    Calls,
    /// The deterministic corpus omitted a required transition class.
    Coverage,
}

impl ModelSequenceCheck {
    /// The checkpoint's stable diagnostic name.
    pub open spec fn spec_label(self) -> Seq<char> {
        match self {
            ModelSequenceCheck::Setup => "Setup"@,
            ModelSequenceCheck::Precondition => "Precondition"@,
            ModelSequenceCheck::Result => "Result"@,
            ModelSequenceCheck::Commit => "Commit"@,
            ModelSequenceCheck::Handle => "Handle"@,
            ModelSequenceCheck::Generation => "Generation"@,
            ModelSequenceCheck::State => "State"@,
            ModelSequenceCheck::Backend => "Backend"@,
            ModelSequenceCheck::Calls => "Calls"@,
            ModelSequenceCheck::Coverage => "Coverage"@,
        }
    }

    /// Returns the checkpoint's stable diagnostic name.
    pub fn label(self) -> (label: &'static str)
        ensures
            label@ == self.spec_label(),
    {
        match self {
            ModelSequenceCheck::Setup => "Setup",
            ModelSequenceCheck::Precondition => "Precondition",
            ModelSequenceCheck::Result => "Result",
            ModelSequenceCheck::Commit => "Commit",
            ModelSequenceCheck::Handle => "Handle",
            ModelSequenceCheck::Generation => "Generation",
            ModelSequenceCheck::State => "State",
            ModelSequenceCheck::Backend => "Backend",
            ModelSequenceCheck::Calls => "Calls",
            ModelSequenceCheck::Coverage => "Coverage",
        }
    }
}

/// Stage at which a model sequence first diverged.
#[derive(Clone, Copy, Debug, Eq, Hash, PartialEq, Structural)]
pub enum ModelSequencePhase {
    /// The replay fixture could not be constructed.
    Setup,
    /// One generated action diverged at its zero-based index.
    Action {
        /// Index in the generated action program.
        index: usize,
    },
    /// Final script-consumption checks diverged after all actions.
    Finalize,
    /// Aggregate corpus coverage was incomplete.
    Coverage,
}

impl ModelSequencePhase {
    /// The stage's diagnostic text.
    pub open spec fn spec_label(self) -> Seq<char> {
        match self {
            ModelSequencePhase::Setup => "Setup"@,
            ModelSequencePhase::Action { index } => "Action { index: "@ + decimal(index as nat)
                + " }"@,
            ModelSequencePhase::Finalize => "Finalize"@,
            ModelSequencePhase::Coverage => "Coverage"@,
        }
    }

    /// Appends the stage's diagnostic text.
    pub fn push_label(self, text: &mut String)
        ensures
            final(text)@ == old(text)@ + self.spec_label(),
    {
        match self {
            ModelSequencePhase::Setup => text.append("Setup"),
            ModelSequencePhase::Action { index } => {
                text.append("Action { index: ");
                push_decimal(text, index as u64);
                text.append(" }");
                assert(final(text)@ =~= old(text)@ + self.spec_label());
            },
            ModelSequencePhase::Finalize => text.append("Finalize"),
            ModelSequencePhase::Coverage => text.append("Coverage"),
        }
    }
}

/// The first divergence of one step: checkpoint, expectation, and outcome.
#[derive(Debug)]
pub struct Divergence {
    /// The checkpoint that rejected the step.
    pub check: ModelSequenceCheck,
    /// The expected observation.
    pub expected: String,
    /// The actual observation.
    pub actual: String,
}

/// Whether `divergence` names the checkpoint, expectation, and outcome.
pub open spec fn divergence_is(
    divergence: Divergence,
    check: ModelSequenceCheck,
    expected: Seq<char>,
    actual: Seq<char>,
) -> bool {
    &&& divergence.check == check
    &&& divergence.expected@ == expected
    &&& divergence.actual@ == actual
}

impl Divergence {
    /// Creates a divergence.
    pub fn new(check: ModelSequenceCheck, expected: String, actual: String) -> (divergence: Divergence)
        ensures
            divergence_is(divergence, check, expected@, actual@),
    {
        Divergence { check, expected, actual }
    }

    /// Creates a divergence from text slices.
    pub fn from_text(check: ModelSequenceCheck, expected: &str, actual: &str) -> (divergence: Divergence)
        ensures
            divergence_is(divergence, check, expected@, actual@),
    {
        Divergence { check, expected: String::from_str(expected), actual: String::from_str(actual) }
    }
}

/// First divergence for one replayable deterministic sequence.
#[derive(Clone, Debug, Eq, PartialEq)]
pub struct ModelSequenceFailure {
    seed: u64,
    phase: ModelSequencePhase,
    trace: Vec<String>,
    check: ModelSequenceCheck,
    expected: String,
    actual: String,
}

/// Each attempted action name preceded by an arrow.
pub open spec fn replay_suffix(trace: Seq<Seq<char>>) -> Seq<char>
    decreases trace.len(),
{
    if trace.len() == 0 {
        Seq::empty()
    } else {
        replay_suffix(trace.drop_last()) + " -> "@ + trace.last()
    }
}

/// The texts of a trace of names.
pub open spec fn trace_view(trace: Seq<String>) -> Seq<Seq<char>> {
    trace.map_values(|name: String| name@)
}

impl ModelSequenceFailure {
    /// The exact generator seed.
    pub closed spec fn spec_seed(&self) -> u64 {
        self.seed
    }

    /// The stage of the first divergence.
    pub closed spec fn spec_phase(&self) -> ModelSequencePhase {
        self.phase
    }

    /// The attempted action names through the first divergence.
    pub closed spec fn spec_trace(&self) -> Seq<Seq<char>> {
        trace_view(self.trace@)
    }

    /// The failed checkpoint.
    pub closed spec fn spec_check(&self) -> ModelSequenceCheck {
        self.check
    }

    /// The expected observation.
    pub closed spec fn spec_expected(&self) -> Seq<char> {
        self.expected@
    }

    /// The actual observation.
    pub closed spec fn spec_actual(&self) -> Seq<char> {
        self.actual@
    }

    /// The failing action index, if the divergence occurred in one.
    pub open spec fn spec_step(&self) -> Option<usize> {
        match self.spec_phase() {
            ModelSequencePhase::Action { index } => Some(index),
            _ => None,
        }
    }

    /// Creates the failure of `seed` at `phase` after the attempted `trace`.
    pub fn new(
        seed: u64,
        phase: ModelSequencePhase,
        trace: &Vec<String>,
        check: ModelSequenceCheck,
        expected: String,
        actual: String,
    ) -> (failure: ModelSequenceFailure)
        ensures
            failure.spec_seed() == seed,
            failure.spec_phase() == phase,
            failure.spec_trace() == trace_view(trace@),
            failure.spec_check() == check,
            failure.spec_expected() == expected@,
            failure.spec_actual() == actual@,
    {
        let mut copied: Vec<String> = Vec::new();
        let mut i: usize = 0;
        while i < trace.len()
            invariant
                i <= trace@.len(),
                copied@.len() == i,
                forall|j: int| 0 <= j < i ==> (#[trigger] copied@[j])@ == trace@[j]@,
            decreases trace@.len() - i,
        {
            let name = String::from_str(trace[i].as_str());
            copied.push(name);
            i = i + 1;
        }
        assert(trace_view(copied@) =~= trace_view(trace@));
        ModelSequenceFailure { seed, phase, trace: copied, check, expected, actual }
    }

    /// Creates the failure of `seed` at `phase` from a step's divergence.
    pub fn from_divergence(
        seed: u64,
        phase: ModelSequencePhase,
        trace: &Vec<String>,
        divergence: Divergence,
    ) -> (failure: ModelSequenceFailure)
        ensures
            failure.spec_seed() == seed,
            failure.spec_phase() == phase,
            failure.spec_trace() == trace_view(trace@),
            failure.spec_check() == divergence.check,
            failure.spec_expected() == divergence.expected@,
            failure.spec_actual() == divergence.actual@,
    {
        ModelSequenceFailure::new(
            seed,
            phase,
            trace,
            divergence.check,
            divergence.expected,
            divergence.actual,
        )
    }

    /// The text form: seed, stage, checkpoint, values, and replay prefix.
    pub open spec fn spec_text(&self) -> Seq<char> {
        "model sequence seed 0x"@ + hex16(self.spec_seed()) + " phase "@
            + self.spec_phase().spec_label() + " failed "@ + self.spec_check().spec_label()
            + ": expected "@ + self.spec_expected() + ", observed "@ + self.spec_actual()
            + "; replay"@ + replay_suffix(self.spec_trace())
    }

    /// Returns the text form: seed, stage, checkpoint, values, and the
    /// replay prefix of attempted actions.
    pub fn to_text(&self) -> (text: String)
        ensures
            text@ == self.spec_text(),
    {
        let mut text = String::from_str("model sequence seed 0x");
        push_hex16(&mut text, self.seed);
        text.append(" phase ");
        self.phase.push_label(&mut text);
        text.append(" failed ");
        text.append(self.check.label());
        text.append(": expected ");
        text.append(self.expected.as_str());
        text.append(", observed ");
        text.append(self.actual.as_str());
        text.append("; replay");
        let ghost head = text@;
        let mut i: usize = 0;
        while i < self.trace.len()
            invariant
                i <= self.trace@.len(),
                text@ == head + replay_suffix(trace_view(self.trace@).take(i as int)),
            decreases self.trace@.len() - i,
        {
            text.append(" -> ");
            text.append(self.trace[i].as_str());
            assert(trace_view(self.trace@).take(i as int + 1).drop_last() =~= trace_view(
                self.trace@,
            ).take(i as int));
            i = i + 1;
        }
        assert(trace_view(self.trace@).take(i as int) =~= trace_view(self.trace@));
        text
    }

    /// Returns the exact deterministic generator seed.
    pub fn seed(&self) -> (seed: u64)
        ensures
            seed == self.spec_seed(),
    {
        self.seed
    }

    /// Returns the stage of the first divergence.
    pub fn phase(&self) -> (phase: ModelSequencePhase)
        ensures
            phase == self.spec_phase(),
    {
        self.phase
    }

    /// Returns the failing action index, if the divergence occurred in one.
    pub fn step(&self) -> (step: Option<usize>)
        ensures
            step == self.spec_step(),
    {
        match self.phase {
            ModelSequencePhase::Action { index } => Some(index),
            _ => None,
        }
    }

    /// Returns attempted generated actions through the first divergence.
    ///
    /// Setup and aggregate coverage failures have an empty action prefix. The
    /// exact seed remains the replay authority; names are diagnostic context.
    pub fn trace(&self) -> (trace: &[String])
        ensures
            trace_view(trace@) == self.spec_trace(),
    {
        self.trace.as_slice()
    }

    /// Returns the number of attempted actions in the trace.
    pub fn trace_len(&self) -> (len: usize)
        ensures
            len == self.spec_trace().len(),
    {
        self.trace.len()
    }

    /// Returns the failed checkpoint.
    pub fn check(&self) -> (check: ModelSequenceCheck)
        ensures
            check == self.spec_check(),
    {
        self.check
    }

    /// Returns the expected observation.
    pub fn expected(&self) -> (expected: &str)
        ensures
            expected@ == self.spec_expected(),
    {
        self.expected.as_str()
    }

    /// Returns the actual observation.
    pub fn actual(&self) -> (actual: &str)
        ensures
            actual@ == self.spec_actual(),
    {
        self.actual.as_str()
    }
}

} // verus!
