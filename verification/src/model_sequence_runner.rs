//! Replay and corpus bookkeeping for deterministic model sequences.

use vstd::prelude::*;

use crate::model_sequence::{corpus_seed, spec_corpus_seed};
use crate::model_sequence_coverage::Coverage;
use crate::model_sequence_expect::{divergence_observed, quoted};
use crate::model_sequence_failure::{
    trace_view, ModelSequenceCheck, ModelSequenceFailure, ModelSequencePhase,
};
use crate::model_sequence_report::{ModelSequenceCaseResult, ModelSequenceReport};

verus! {

/// The failure of a sequence whose fixture could not be built.
pub fn setup_failure(seed: u64, actual: &str) -> (failure: ModelSequenceFailure)
    ensures
        failure.spec_seed() == seed,
        failure.spec_phase() == ModelSequencePhase::Setup,
        failure.spec_trace().len() == 0,
        failure.spec_check() == ModelSequenceCheck::Setup,
        failure.spec_expected() == "model sequence fixture"@,
        failure.spec_actual() == actual@,
{
    let trace: Vec<String> = Vec::new();
    assert(trace_view(trace@) =~= Seq::empty());
    ModelSequenceFailure::new(
        seed,
        ModelSequencePhase::Setup,
        &trace,
        ModelSequenceCheck::Setup,
        String::from_str("model sequence fixture"),
        String::from_str(actual),
    )
}

/// The failure of a sequence whose scripted poller, or the stranger
/// poller when `stranger`, did not consume its script; `error_text` is the
/// diagnostic text of the poller's complaint.
pub fn unconsumed_script(seed: u64, trace: &Vec<String>, stranger: bool, error_text: &str) -> (failure: ModelSequenceFailure)
    ensures
        failure.spec_seed() == seed,
        failure.spec_phase() == ModelSequencePhase::Finalize,
        failure.spec_trace() == trace_view(trace@),
        failure.spec_check() == ModelSequenceCheck::Calls,
        failure.spec_expected() == quoted(
            if stranger {
                "consumed stranger script"@
            } else {
                "consumed script"@
            },
        ),
        failure.spec_actual() == error_text@,
{
    let divergence = if stranger {
        divergence_observed(ModelSequenceCheck::Calls, "consumed stranger script", error_text)
    } else {
        divergence_observed(ModelSequenceCheck::Calls, "consumed script", error_text)
    };
    ModelSequenceFailure::from_divergence(seed, ModelSequencePhase::Finalize, trace, divergence)
}

/// The corpus-coverage expectation text.
pub open spec fn coverage_expectation() -> Seq<char> {
    "all mutation outcomes, disarm, rearm, reuse, stale, and wrong-poller probes"@
}

/// The corpus-coverage failure, present exactly when the merged coverage of
/// the corpus is incomplete; it names the first corpus seed and the
/// coverage summary.
pub fn coverage_failure(coverage: &Coverage) -> (failure: Option<ModelSequenceFailure>)
    ensures
        coverage.spec_is_complete() <==> failure is None,
        failure matches Some(f) ==> f.spec_seed() == spec_corpus_seed(0) && f.spec_phase()
            == ModelSequencePhase::Coverage && f.spec_trace().len() == 0 && f.spec_check()
            == ModelSequenceCheck::Coverage && f.spec_expected() == coverage_expectation()
            && f.spec_actual() == coverage.spec_summary(),
{
    if coverage.is_complete() {
        None
    } else {
        let trace: Vec<String> = Vec::new();
        assert(trace_view(trace@) =~= Seq::empty());
        Some(
            ModelSequenceFailure::new(
                corpus_seed(0),
                ModelSequencePhase::Coverage,
                &trace,
                ModelSequenceCheck::Coverage,
                String::from_str(
                    "all mutation outcomes, disarm, rearm, reuse, stale, and wrong-poller probes",
                ),
                coverage.summary(),
            ),
        )
    }
}

/// The result of one corpus entry: passed with its action count, or its
/// first divergence.
pub fn case_result(seed: u64, steps: usize, outcome: Result<(), ModelSequenceFailure>) -> (result: ModelSequenceCaseResult)
    ensures
        match outcome {
            Ok(()) => result.spec_seed() == seed && result.spec_steps() == steps
                && result.spec_failure() is None,
            Err(failure) => result.spec_failure() == Some(failure) && result.spec_seed()
                == failure.spec_seed() && result.spec_steps() == failure.spec_trace().len(),
        },
{
    match outcome {
        Ok(()) => ModelSequenceCaseResult::passed(seed, steps),
        Err(failure) => ModelSequenceCaseResult::failed(failure),
    }
}

/// The corpus report: every entry's result and the coverage verdict of the
/// merged coverage.
pub fn corpus_report(results: Vec<ModelSequenceCaseResult>, coverage: &Coverage) -> (report: ModelSequenceReport)
    ensures
        report.spec_results() == results@,
        report.spec_coverage_failure() is None <==> coverage.spec_is_complete(),
        report.spec_coverage_failure() matches Some(f) ==> f.spec_seed() == spec_corpus_seed(0)
            && f.spec_phase() == ModelSequencePhase::Coverage && f.spec_trace().len() == 0
            && f.spec_check() == ModelSequenceCheck::Coverage && f.spec_expected()
            == coverage_expectation() && f.spec_actual() == coverage.spec_summary(),
{
    let failure = coverage_failure(coverage);
    ModelSequenceReport::new(results, failure)
}

} // verus!
