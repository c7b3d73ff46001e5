//! Aggregate results for the deterministic model-sequence corpus.

use vstd::prelude::*;

use crate::model_sequence_failure::ModelSequenceFailure;
use crate::text::{decimal, push_decimal};

verus! {

/// Result of one deterministic model sequence.
#[derive(Clone, Debug, Eq, PartialEq)]
pub struct ModelSequenceCaseResult {
    seed: u64,
    steps: usize,
    failure: Option<ModelSequenceFailure>,
}

impl ModelSequenceCaseResult {
    /// The deterministic generator seed.
    pub closed spec fn spec_seed(&self) -> u64 {
        self.seed
    }

    /// The executed action count.
    pub closed spec fn spec_steps(&self) -> usize {
        self.steps
    }

    /// The first divergence, when present.
    pub closed spec fn spec_failure(&self) -> Option<ModelSequenceFailure> {
        self.failure
    }

    /// The result of a conforming sequence.
    pub fn passed(seed: u64, steps: usize) -> (result: ModelSequenceCaseResult)
        ensures
            result.spec_seed() == seed,
            result.spec_steps() == steps,
            result.spec_failure() is None,
    {
        ModelSequenceCaseResult { seed, steps, failure: None }
    }

    /// The result of a diverging sequence: its seed and attempted actions.
    pub fn failed(failure: ModelSequenceFailure) -> (result: ModelSequenceCaseResult)
        ensures
            result.spec_seed() == failure.spec_seed(),
            result.spec_steps() == failure.spec_trace().len(),
            result.spec_failure() == Some(failure),
    {
        let seed = failure.seed();
        let steps = failure.trace_len();
        ModelSequenceCaseResult { seed, steps, failure: Some(failure) }
    }

    /// Returns the deterministic generator seed.
    pub fn seed(&self) -> (seed: u64)
        ensures
            seed == self.spec_seed(),
    {
        self.seed
    }

    /// Returns the executed action count.
    pub fn steps(&self) -> (steps: usize)
        ensures
            steps == self.spec_steps(),
    {
        self.steps
    }

    /// Returns whether this sequence conformed.
    pub fn is_passed(&self) -> (passed: bool)
        ensures
            passed == self.spec_failure() is None,
    {
        self.failure.is_none()
    }

    /// Borrows the first divergence, when present.
    pub fn failure(&self) -> (failure: Option<&ModelSequenceFailure>)
        ensures
            match self.spec_failure() {
                None => failure is None,
                Some(f) => failure matches Some(g) && *g == f,
            },
    {
        match &self.failure {
            None => None,
            Some(f) => Some(f),
        }
    }
}

/// The divergences of `results` in seed order, then the coverage failure.
pub open spec fn report_failures(
    results: Seq<ModelSequenceCaseResult>,
    coverage_failure: Option<ModelSequenceFailure>,
) -> Seq<ModelSequenceFailure>
    decreases results.len(),
{
    if results.len() == 0 {
        match coverage_failure {
            Some(f) => seq![f],
            None => Seq::empty(),
        }
    } else {
        let rest = report_failures(results.drop_first(), coverage_failure);
        match results[0].spec_failure() {
            Some(f) => seq![f] + rest,
            None => rest,
        }
    }
}

/// The number of conforming sequences.
pub open spec fn sequences_passed(results: Seq<ModelSequenceCaseResult>) -> nat
    decreases results.len(),
{
    if results.len() == 0 {
        0
    } else {
        sequences_passed(results.drop_last()) + if results.last().spec_failure() is None {
            1nat
        } else {
            0nat
        }
    }
}

/// One line per failure, each starting on a new line with a dash.
pub open spec fn sequence_lines(failures: Seq<ModelSequenceFailure>) -> Seq<char>
    decreases failures.len(),
{
    if failures.len() == 0 {
        Seq::empty()
    } else {
        sequence_lines(failures.drop_last()) + "\n- "@ + failures.last().spec_text()
    }
}

/// Complete result of the stable deterministic corpus.
#[derive(Clone, Debug, Eq, PartialEq)]
pub struct ModelSequenceReport {
    results: Vec<ModelSequenceCaseResult>,
    coverage_failure: Option<ModelSequenceFailure>,
}

impl ModelSequenceReport {
    /// Every sequence result in stable corpus order.
    pub closed spec fn spec_results(&self) -> Seq<ModelSequenceCaseResult> {
        self.results@
    }

    /// The corpus-coverage failure, when present.
    pub closed spec fn spec_coverage_failure(&self) -> Option<ModelSequenceFailure> {
        self.coverage_failure
    }

    /// Every divergence in stable order.
    pub open spec fn spec_failures(&self) -> Seq<ModelSequenceFailure> {
        report_failures(self.spec_results(), self.spec_coverage_failure())
    }

    /// Whether every sequence and the corpus coverage conformed.
    pub open spec fn conformant(&self) -> bool {
        self.spec_failures().len() == 0
    }

    /// Creates a report.
    pub fn new(
        results: Vec<ModelSequenceCaseResult>,
        coverage_failure: Option<ModelSequenceFailure>,
    ) -> (report: ModelSequenceReport)
        ensures
            report.spec_results() == results@,
            report.spec_coverage_failure() == coverage_failure,
    {
        ModelSequenceReport { results, coverage_failure }
    }

    /// Returns every sequence result in stable corpus order.
    pub fn results(&self) -> (results: &[ModelSequenceCaseResult])
        ensures
            results@ == self.spec_results(),
    {
        self.results.as_slice()
    }

    /// Returns the number of executed seeds.
    pub fn len(&self) -> (len: usize)
        ensures
            len == self.spec_results().len(),
    {
        self.results.len()
    }

    /// Returns whether the corpus contains no seed results.
    pub fn is_empty(&self) -> (empty: bool)
        ensures
            empty == (self.spec_results().len() == 0),
    {
        self.results.len() == 0
    }

    /// Returns whether every required transition class was generated.
    pub fn is_coverage_complete(&self) -> (complete: bool)
        ensures
            complete == self.spec_coverage_failure() is None,
    {
        self.coverage_failure.is_none()
    }

    /// Returns the corpus-coverage failure, when present.
    pub fn coverage_failure(&self) -> (failure: Option<&ModelSequenceFailure>)
        ensures
            match self.spec_coverage_failure() {
                None => failure is None,
                Some(f) => failure matches Some(g) && *g == f,
            },
    {
        match &self.coverage_failure {
            None => None,
            Some(f) => Some(f),
        }
    }

    /// Returns sequence divergences in stable seed order, then the coverage
    /// failure.
    pub fn failures(&self) -> (failures: Vec<&ModelSequenceFailure>)
        ensures
            failures@.len() == self.spec_failures().len(),
            forall|i: int|
                0 <= i < failures@.len() ==> *(#[trigger] failures@[i]) == self.spec_failures()[i],
    {
        let mut failures: Vec<&ModelSequenceFailure> = Vec::new();
        let mut i: usize = self.results.len();
        let mut tail: Vec<&ModelSequenceFailure> = Vec::new();
        match &self.coverage_failure {
            Some(f) => tail.push(f),
            None => {},
        }
        // Collect the suffix failures back to front, then reverse.
        while i > 0
            invariant
                i <= self.results@.len(),
                tail@.len() == report_failures(self.results@.skip(i as int), self.coverage_failure).len(),
                forall|k: int|
                    0 <= k < tail@.len() ==> *(#[trigger] tail@[k]) == report_failures(
                        self.results@.skip(i as int),
                        self.coverage_failure,
                    )[tail@.len() - 1 - k],
            decreases i,
        {
            i = i - 1;
            proof {
                assert(self.results@.skip(i as int).drop_first() =~= self.results@.skip(i as int + 1));
            }
            match &self.results[i].failure {
                Some(f) => tail.push(f),
                None => {},
            }
        }
        assert(self.results@.skip(0) =~= self.results@);
        let mut k: usize = tail.len();
        while k > 0
            invariant
                k <= tail@.len(),
                failures@.len() == tail@.len() - k,
                forall|j: int|
                    0 <= j < failures@.len() ==> #[trigger] failures@[j] == tail@[tail@.len() - 1 - j],
            decreases k,
        {
            k = k - 1;
            failures.push(tail[k]);
        }
        failures
    }

    /// Returns whether every sequence and the corpus coverage conformed.
    pub fn is_conformant(&self) -> (conformant: bool)
        ensures
            conformant == self.conformant(),
    {
        self.failures().len() == 0
    }


    /// The summary text: passed and executed seeds, then one line per
    /// failure.
    pub open spec fn spec_text(&self) -> Seq<char> {
        "zio model-sequence conformance: "@ + decimal(sequences_passed(self.spec_results())) + "/"@
            + decimal(self.spec_results().len()) + " seeds passed"@ + sequence_lines(self.spec_failures())
    }

    fn passed(&self) -> (passed: usize)
        ensures
            passed == sequences_passed(self.spec_results()),
    {
        let mut passed: usize = 0;
        let mut i: usize = 0;
        while i < self.results.len()
            invariant
                i <= self.results@.len(),
                passed == sequences_passed(self.results@.take(i as int)),
                passed <= i,
            decreases self.results@.len() - i,
        {
            assert(self.results@.take(i as int + 1).drop_last() =~= self.results@.take(i as int));
            if self.results[i].is_passed() {
                passed = passed + 1;
            }
            i = i + 1;
        }
        assert(self.results@.take(i as int) =~= self.results@);
        passed
    }

    /// Returns the summary text.
    pub fn to_text(&self) -> (text: String)
        ensures
            text@ == self.spec_text(),
    {
        let mut text = String::from_str("zio model-sequence conformance: ");
        let passed = self.passed();
        push_decimal(&mut text, passed as u64);
        text.append("/");
        push_decimal(&mut text, self.results.len() as u64);
        text.append(" seeds passed");
        let ghost head = text@;
        let failures = self.failures();
        let mut i: usize = 0;
        while i < failures.len()
            invariant
                i <= failures@.len(),
                failures@.len() == self.spec_failures().len(),
                forall|k: int|
                    0 <= k < failures@.len() ==> *(#[trigger] failures@[k]) == self.spec_failures()[k],
                text@ == head + sequence_lines(self.spec_failures().take(i as int)),
            decreases failures@.len() - i,
        {
            assert(self.spec_failures().take(i as int + 1).drop_last() =~= self.spec_failures().take(i as int));
            text.append("\n- ");
            let line = failures[i].to_text();
            text.append(line.as_str());
            i = i + 1;
            assert(text@ =~= head + sequence_lines(self.spec_failures().take(i as int)));
        }
        assert(self.spec_failures().take(i as int) =~= self.spec_failures());
        text
    }

    /// Converts a conforming report into success without panicking.
    pub fn into_result(self) -> (outcome: Result<(), ModelSequenceReport>)
        ensures
            outcome is Ok <==> self.conformant(),
            outcome matches Err(report) ==> report == self,
    {
        if self.is_conformant() {
            Ok(())
        } else {
            Err(self)
        }
    }
}

/// A report is conformant exactly when no sequence diverged and corpus
/// coverage is complete.
pub proof fn law_report_conformance(
    results: Seq<ModelSequenceCaseResult>,
    coverage_failure: Option<ModelSequenceFailure>,
)
    ensures
        report_failures(results, coverage_failure).len() == 0 <==> (coverage_failure is None
            && forall|i: int| 0 <= i < results.len() ==> (#[trigger] results[i]).spec_failure() is None),
    decreases results.len(),
{
    if results.len() > 0 {
        law_report_conformance(results.drop_first(), coverage_failure);
        assert forall|i: int| 0 < i < results.len() implies #[trigger] results[i] == results.drop_first()[i - 1] by {}
    }
}

} // verus!
