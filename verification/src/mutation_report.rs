//! Aggregate mutation-suite results.

use vstd::prelude::*;

use crate::mutation::{ConformanceFailure, MutationScenario};
use crate::text::{decimal, push_decimal};

verus! {

/// Result of one isolated mutation scenario.
#[derive(Clone, Debug, Eq, PartialEq)]
pub struct CaseResult {
    scenario: MutationScenario,
    failure: Option<ConformanceFailure>,
}

impl CaseResult {
    /// The executed scenario.
    pub closed spec fn spec_scenario(&self) -> MutationScenario {
        self.scenario
    }

    /// The structured failure, when present.
    pub closed spec fn spec_failure(&self) -> Option<ConformanceFailure> {
        self.failure
    }

    /// The result of a conforming scenario.
    pub fn passed(scenario: MutationScenario) -> (result: CaseResult)
        ensures
            result.spec_scenario() == scenario,
            result.spec_failure() is None,
    {
        CaseResult { scenario, failure: None }
    }

    /// The result of a failed scenario, which the failure names.
    pub fn failed(failure: ConformanceFailure) -> (result: CaseResult)
        ensures
            result.spec_scenario() == failure.spec_scenario(),
            result.spec_failure() == Some(failure),
    {
        CaseResult { scenario: failure.scenario(), failure: Some(failure) }
    }

    /// The result of a scenario that ended with `verdict`.
    pub fn from_verdict(scenario: MutationScenario, verdict: Result<(), ConformanceFailure>) -> (result: CaseResult)
        ensures
            match verdict {
                Ok(()) => result.spec_scenario() == scenario && result.spec_failure() is None,
                Err(failure) => result.spec_scenario() == failure.spec_scenario() && result.spec_failure()
                    == Some(failure),
            },
    {
        match verdict {
            Ok(()) => CaseResult::passed(scenario),
            Err(failure) => CaseResult::failed(failure),
        }
    }

    /// Returns the executed scenario.
    pub fn scenario(&self) -> (scenario: MutationScenario)
        ensures
            scenario == self.spec_scenario(),
    {
        self.scenario
    }

    /// Returns whether the scenario conformed.
    pub fn is_passed(&self) -> (passed: bool)
        ensures
            passed == self.spec_failure() is None,
    {
        self.failure.is_none()
    }

    /// Borrows the structured failure, when present.
    pub fn failure(&self) -> (failure: Option<&ConformanceFailure>)
        ensures
            match self.spec_failure() {
                None => failure is None,
                Some(f) => failure matches Some(g) && *g == f,
            },
    {
        match &self.failure {
            None => None,
            Some(f) => Some(f),
        }
    }

    /// Splits this result into its scenario and optional failure.
    pub fn into_parts(self) -> (parts: (MutationScenario, Option<ConformanceFailure>))
        ensures
            parts == (self.spec_scenario(), self.spec_failure()),
    {
        (self.scenario, self.failure)
    }
}

/// The failures of `results`, in order.
pub open spec fn case_failures(results: Seq<CaseResult>) -> Seq<ConformanceFailure>
    decreases results.len(),
{
    if results.len() == 0 {
        Seq::empty()
    } else {
        let rest = case_failures(results.drop_last());
        match results.last().spec_failure() {
            Some(f) => rest.push(f),
            None => rest,
        }
    }
}

/// The number of conforming results.
pub open spec fn passed_count(results: Seq<CaseResult>) -> nat
    decreases results.len(),
{
    if results.len() == 0 {
        0
    } else {
        passed_count(results.drop_last()) + if results.last().spec_failure() is None {
            1nat
        } else {
            0nat
        }
    }
}

/// Every result either passed or contributes exactly one failure, in
/// order: the passed count and the failure count add up to the results.
pub proof fn law_results_partition(results: Seq<CaseResult>)
    ensures
        passed_count(results) + case_failures(results).len() == results.len(),
    decreases results.len(),
{
    if results.len() > 0 {
        law_results_partition(results.drop_last());
    }
}

/// One line per failure, each starting on a new line with a dash.
pub open spec fn failure_lines(failures: Seq<ConformanceFailure>) -> Seq<char>
    decreases failures.len(),
{
    if failures.len() == 0 {
        Seq::empty()
    } else {
        failure_lines(failures.drop_last()) + "\n- "@ + failures.last().spec_text()
    }
}

/// Complete result of the isolated mutation scenarios.
#[derive(Clone, Debug, Eq, PartialEq)]
pub struct MutationReport {
    results: Vec<CaseResult>,
}

impl MutationReport {
    /// Every result in stable scenario order.
    pub closed spec fn spec_results(&self) -> Seq<CaseResult> {
        self.results@
    }

    /// Every failure in stable scenario order.
    pub open spec fn spec_failures(&self) -> Seq<ConformanceFailure> {
        case_failures(self.spec_results())
    }

    /// Whether every scenario conformed.
    pub open spec fn conformant(&self) -> bool {
        self.spec_failures().len() == 0
    }

    /// The summary text: passed and executed counts, then one line per
    /// failure.
    pub open spec fn spec_text(&self) -> Seq<char> {
        "zio mutation conformance: "@ + decimal(passed_count(self.spec_results())) + "/"@ + decimal(
            self.spec_results().len(),
        ) + " passed"@ + failure_lines(self.spec_failures())
    }

    /// Creates a report.
    pub fn new(results: Vec<CaseResult>) -> (report: MutationReport)
        ensures
            report.spec_results() == results@,
    {
        MutationReport { results }
    }

    /// Returns every result in stable scenario order.
    pub fn results(&self) -> (results: &[CaseResult])
        ensures
            results@ == self.spec_results(),
    {
        self.results.as_slice()
    }

    /// Returns the number of executed scenarios.
    pub fn len(&self) -> (len: usize)
        ensures
            len == self.spec_results().len(),
    {
        self.results.len()
    }

    /// Returns whether the report contains no scenario results.
    pub fn is_empty(&self) -> (empty: bool)
        ensures
            empty == (self.spec_results().len() == 0),
    {
        self.results.len() == 0
    }

    /// Returns the number of conforming scenarios.
    pub fn passed(&self) -> (passed: usize)
        ensures
            passed == passed_count(self.spec_results()),
    {
        let mut passed: usize = 0;
        let mut i: usize = 0;
        while i < self.results.len()
            invariant
                i <= self.results@.len(),
                passed == passed_count(self.results@.take(i as int)),
                passed <= i,
            decreases self.results@.len() - i,
        {
            assert(self.results@.take(i as int + 1).drop_last() =~= self.results@.take(i as int));
            if self.results[i].is_passed() {
                passed = passed + 1;
            }
            i = i + 1;
        }
        assert(self.results@.take(i as int) =~= self.results@);
        passed
    }

    /// Returns the structured failures in stable scenario order.
    pub fn failures(&self) -> (failures: Vec<&ConformanceFailure>)
        ensures
            failures@.len() == self.spec_failures().len(),
            forall|i: int|
                0 <= i < failures@.len() ==> *(#[trigger] failures@[i]) == self.spec_failures()[i],
    {
        let mut failures: Vec<&ConformanceFailure> = Vec::new();
        let mut i: usize = 0;
        while i < self.results.len()
            invariant
                i <= self.results@.len(),
                failures@.len() == case_failures(self.results@.take(i as int)).len(),
                forall|k: int|
                    0 <= k < failures@.len() ==> *(#[trigger] failures@[k]) == case_failures(
                        self.results@.take(i as int),
                    )[k],
            decreases self.results@.len() - i,
        {
            assert(self.results@.take(i as int + 1).drop_last() =~= self.results@.take(i as int));
            match self.results[i].failure() {
                Some(f) => failures.push(f),
                None => {},
            }
            i = i + 1;
        }
        assert(self.results@.take(i as int) =~= self.results@);
        failures
    }

    /// Returns whether every scenario conformed.
    pub fn is_conformant(&self) -> (conformant: bool)
        ensures
            conformant == self.conformant(),
    {
        self.failures().len() == 0
    }

    /// Converts a conforming report into success without panicking.
    pub fn into_result(self) -> (outcome: Result<(), MutationReport>)
        ensures
            outcome is Ok <==> self.conformant(),
            outcome matches Err(report) ==> report == self,
    {
        if self.is_conformant() {
            Ok(())
        } else {
            Err(self)
        }
    }

    /// Returns the summary text.
    pub fn to_text(&self) -> (text: String)
        ensures
            text@ == self.spec_text(),
    {
        let mut text = String::from_str("zio mutation conformance: ");
        let passed = self.passed();
        push_decimal(&mut text, passed as u64);
        text.append("/");
        push_decimal(&mut text, self.results.len() as u64);
        text.append(" passed");
        let ghost head = text@;
        let failures = self.failures();
        let mut i: usize = 0;
        while i < failures.len()
            invariant
                i <= failures@.len(),
                failures@.len() == self.spec_failures().len(),
                forall|k: int|
                    0 <= k < failures@.len() ==> *(#[trigger] failures@[k]) == self.spec_failures()[k],
                text@ == head + failure_lines(self.spec_failures().take(i as int)),
            decreases failures@.len() - i,
        {
            assert(self.spec_failures().take(i as int + 1).drop_last() =~= self.spec_failures().take(i as int));
            text.append("\n- ");
            let line = failures[i].to_text();
            text.append(line.as_str());
            i = i + 1;
            assert(text@ =~= head + failure_lines(self.spec_failures().take(i as int)));
        }
        assert(self.spec_failures().take(i as int) =~= self.spec_failures());
        text
    }
}

/// The report of scenarios that ended with `verdicts`, one result per
/// scenario in the same order.
pub fn report_of(
    scenarios: &[MutationScenario],
    verdicts: Vec<Result<(), ConformanceFailure>>,
) -> (report: MutationReport)
    requires
        scenarios@.len() == verdicts@.len(),
    ensures
        report.spec_results().len() == verdicts@.len(),
        forall|i: int|
            0 <= i < verdicts@.len() ==> match #[trigger] verdicts@[i] {
                Ok(()) => report.spec_results()[i].spec_scenario() == scenarios@[i]
                    && report.spec_results()[i].spec_failure() is None,
                Err(f) => report.spec_results()[i].spec_failure() == Some(f)
                    && report.spec_results()[i].spec_scenario() == f.spec_scenario(),
            },
{
    let mut results: Vec<CaseResult> = Vec::new();
    let mut verdicts = verdicts;
    let ghost given = verdicts@;
    let mut rest: Vec<Result<(), ConformanceFailure>> = Vec::new();
    // Take the verdicts back to front so that each can be moved out.
    while verdicts.len() > 0
        invariant
            rest@.len() + verdicts@.len() == given.len(),
            verdicts@ == given.take(verdicts@.len() as int),
            forall|k: int|
                0 <= k < rest@.len() ==> #[trigger] rest@[k] == given[given.len() - 1 - k],
        decreases verdicts@.len(),
    {
        let verdict = verdicts.pop().unwrap();
        rest.push(verdict);
    }
    let mut i: usize = 0;
    while rest.len() > 0
        invariant
            i + rest@.len() == given.len(),
            scenarios@.len() == given.len(),
            results@.len() == i,
            forall|k: int|
                0 <= k < rest@.len() ==> #[trigger] rest@[k] == given[given.len() - 1 - k],
            forall|k: int|
                0 <= k < i ==> match #[trigger] given[k] {
                    Ok(()) => results@[k].spec_scenario() == scenarios@[k] && results@[k].spec_failure() is None,
                    Err(f) => results@[k].spec_failure() == Some(f) && results@[k].spec_scenario()
                        == f.spec_scenario(),
                },
        decreases rest@.len(),
    {
        let verdict = rest.pop().unwrap();
        assert(verdict == given[i as int]);
        results.push(CaseResult::from_verdict(scenarios[i], verdict));
        i = i + 1;
    }
    MutationReport::new(results)
}

} // verus!
