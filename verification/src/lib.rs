//! Verified conformance vocabulary, reference models, and decision logic for
//! the zio readiness library, its mutation test kit, and its peer
//! qualification matrix.

mod observation;

pub use observation::{ContractViolation, ExpectedObservation, Observation};
mod qualify_model;

pub use qualify_model::{
    ConfiguredDelivery, DeliveryProfile, Implementation, Interest, ProfileSupport,
    RegistrationSpec, Scenario,
};
mod qualify_failure;

pub use qualify_failure::{QualificationFailure, QualificationPhase};
mod qualify_report;

pub use qualify_report::{CaseOutcome, CaseResult, ExpectedScope, QualificationReport};
mod text;
mod qualify_run;

pub use qualify_run::{
    batch_description, configured_delivery, contract_expected, expectation_for, judge_observation,
    observation_from_hints, profile_plan, support_for, EventBatch, ProfileStep, CaseRun,
    capability_failed, setup_failed, not_run, judge_quiet, disarmed_expectation,
};
mod qualify_driver;

pub use qualify_driver::{CaseDriver, CaseRequest, CaseStage};
mod model_sequence;

pub use model_sequence::{
    corpus_seed, model_sequence_sentinel_seeds, planned_step, scramble, script_for, Action, ArmState, CommitStatus,
    InterestSet, Key, Mode, Operation, Outcome, PlannedStep, ACTION_LIMIT, CORPUS_SIZE,
    MODEL_SEQUENCE_DISARM_REARM_SEED, MODEL_SEQUENCE_OUTCOME_MATRIX_SEED,
    MODEL_SEQUENCE_STALE_REUSE_SEED, MODEL_SEQUENCE_WRONG_POLLER_SEED,
};
mod model_sequence_coverage;

pub use model_sequence_coverage::Coverage;
mod model_sequence_generate;

pub use model_sequence_generate::{action_enabled, generate, GeneratedProgram, GeneratedState, Generator};
mod model_sequence_failure;

pub use model_sequence_failure::{
    Divergence, ModelSequenceCheck, ModelSequenceFailure, ModelSequencePhase,
};
mod model_sequence_report;

pub use model_sequence_report::{ModelSequenceCaseResult, ModelSequenceReport};
mod model_sequence_model;

pub use model_sequence_model::{
    BackendState, Entry, MutationCall, ReferenceModel, RegistrationId, RegistrationState,
};
pub mod model_sequence_expect;

pub use model_sequence_expect::{
    DeleteFailure, ObservedError, PollError, RegisterFailure, Rejection, SourceKind,
};
pub mod model_sequence_step;

pub use model_sequence_step::{verification_queries, ProbeAnswers, SequenceQuery};
mod model_sequence_runner;

pub use model_sequence_runner::{
    case_result, corpus_report, coverage_failure, setup_failure, unconsumed_script,
};
mod mutation;

pub use mutation::{
    mutation_plan, Branch, ConformanceCheck, ConformanceFailure, MutationOperation,
    MutationScenario,
};
mod mutation_text;

pub use mutation_text::{render_backend, render_call};
pub mod mutation_verify;

pub use mutation_verify::{
    cleanup_call, desired_interest, desired_mode, expect_backend, expect_call, expect_failed_delete,
    expect_failed_mutation, expect_failed_register, expect_finished, expect_fresh_generation,
    expect_handle_id, expect_mutation, expect_register_call, expect_retained_capacity, expect_stale,
    expect_state, expect_uncertain_rejection, expected_after, prior_interest, prior_mode,
    scenario_key,
};
pub mod mutation_driver;

pub use mutation_driver::{driver_plan, DriverRequest, DriverStep};
pub mod mutation_report;

pub use mutation_report::MutationReport;
mod readiness;

pub use readiness::{
    closure_for, expected_for, render_readiness, required_description, ReadinessCheck,
    ReadinessFailure, ReadinessFixture, ReadinessScenario,
};
mod delivery;

pub use delivery::{render_bytes, render_event, render_events, DeliveredEvent};
pub mod readiness_verify;

pub use readiness_verify::{
    delivery_arm, expect_drained, expect_staged_data, needs_closure_stage, reject_recovery,
    resource_key, single_readiness, verify_arm, verify_broken_pipe, verify_eof, verify_expected,
    verify_payload, verify_written_byte, with_cleanup,
};
mod readiness_plan;

pub use readiness_plan::{readiness_plan, ReadinessStep};
mod readiness_report;

pub use readiness_report::{readiness_report_of, ReadinessCaseResult, ReadinessReport};
pub mod wake;

pub use wake::{
    requested_conflicting_key, ConflictOutcome, HelperExit, WakeCheck, WakeFailure, WakeScenario,
    WAKE_CAPACITY_ONE_SATURATION, WAKE_CLONE_ACROSS_WAIT, WAKE_CONFLICTING_KEY,
    WAKE_PRE_WAIT_STORM, WAKE_SAME_KEY_CLONES,
};
mod wake_report;

pub use wake_report::{wake_report_of, WakeCaseResult, WakeReport};
mod model_sequence_probe;

pub use model_sequence_probe::{stranger_interest, stranger_key, stranger_mode, verify_stranger};
