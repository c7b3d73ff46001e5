//! The step function of one executed qualification case.
//!
//! After a successful registration the caller asks the driver for the next
//! action, performs it against the candidate session or the fixture, and
//! hands back its outcome. The driver decides the order of the phases, when
//! a quiet window or an awaited observation is settled, what each outcome
//! records, and which phases a failure skips. The caller only keeps time:
//! it tells the driver whether the window or deadline it opened has passed.

use vstd::prelude::*;

use crate::qualify_failure::{QualificationFailure, QualificationPhase};
use crate::qualify_model::{ConfiguredDelivery, Implementation, Scenario};
use crate::qualify_report::{CaseOutcome, CaseResult};
use crate::qualify_run::{
    disarmed_expectation, failure_is, judge_quiet, observation_judged, profile_plan,
    quiet_judged, retained_after, spec_disarmed_expectation, spec_expectation_for,
    spec_profile_plan, CaseRun, EventBatch, ProfileStep,
};
use crate::observation::Observation;

verus! {

/// Where an executed case stands.
#[derive(Clone, Copy, Debug, Eq, PartialEq, Structural)]
pub enum CaseStage {
    /// The quiet window before the fixture is activated.
    Quiescence,
    /// The fixture activation.
    Activation,
    /// The step at this position of the profile schedule.
    Profile(usize),
    /// Deleting the registration.
    Cleanup,
    /// Checking the fixture's matching nonblocking operation.
    Operation,
    /// Every phase has run.
    Done,
}

/// The next action the caller performs for a case.
#[derive(Clone, Copy, Debug, Eq, PartialEq, Structural)]
pub enum CaseRequest {
    /// Wait once inside a quiet window; `opens` starts a new window.
    QuietWait { opens: bool },
    /// Activate the fixture.
    Activate,
    /// Wait once for a readiness event; `opens` starts a new deadline.
    AwaitEvent { opens: bool },
    /// Perform the explicit native rearm.
    Rearm,
    /// Delete the registration.
    Delete,
    /// Verify the fixture's matching nonblocking operation.
    VerifyOperation,
    /// Nothing is left: finish the case.
    Finish,
}

/// The stage that follows `stage` when it succeeds, for a schedule of `len`
/// profile steps.
pub open spec fn next_stage(stage: CaseStage, len: nat) -> CaseStage {
    match stage {
        CaseStage::Quiescence => CaseStage::Activation,
        CaseStage::Activation => CaseStage::Profile(0),
        CaseStage::Profile(i) => if i + 1 < len {
            CaseStage::Profile((i + 1) as usize)
        } else {
            CaseStage::Cleanup
        },
        CaseStage::Cleanup => CaseStage::Operation,
        CaseStage::Operation => CaseStage::Done,
        CaseStage::Done => CaseStage::Done,
    }
}

/// The stage that follows `stage` when it fails: a noisy quiet window
/// before activation still activates the fixture; a failed activation or
/// profile step skips the rest of the schedule; cleanup and the operation
/// check always run.
pub open spec fn stage_after_failure(stage: CaseStage) -> CaseStage {
    match stage {
        CaseStage::Quiescence => CaseStage::Activation,
        CaseStage::Activation => CaseStage::Cleanup,
        CaseStage::Profile(_) => CaseStage::Cleanup,
        CaseStage::Cleanup => CaseStage::Operation,
        CaseStage::Operation => CaseStage::Done,
        CaseStage::Done => CaseStage::Done,
    }
}

/// The action requested at `stage` of a case with schedule `plan`;
/// `waiting` tells whether a window or a deadline is already open.
pub open spec fn request_at(stage: CaseStage, plan: Seq<ProfileStep>, waiting: bool) -> CaseRequest {
    match stage {
        CaseStage::Quiescence => CaseRequest::QuietWait { opens: !waiting },
        CaseStage::Activation => CaseRequest::Activate,
        CaseStage::Profile(i) => match plan[i as int] {
            ProfileStep::Observe(_) => CaseRequest::AwaitEvent { opens: !waiting },
            ProfileStep::Rearm => CaseRequest::Rearm,
            _ => CaseRequest::QuietWait { opens: !waiting },
        },
        CaseStage::Cleanup => CaseRequest::Delete,
        CaseStage::Operation => CaseRequest::VerifyOperation,
        CaseStage::Done => CaseRequest::Finish,
    }
}

/// The phase and expectation of the quiet window at `stage`.
pub open spec fn quiet_window(stage: CaseStage, plan: Seq<ProfileStep>) -> (QualificationPhase, Seq<char>) {
    match stage {
        CaseStage::Profile(i) => (QualificationPhase::Disarm, spec_disarmed_expectation(plan[i as int])),
        _ => (QualificationPhase::Quiescence, "no readiness before fixture activation"@),
    }
}

/// The phase of the observation awaited at `stage`.
pub open spec fn awaited_phase(stage: CaseStage, plan: Seq<ProfileStep>) -> QualificationPhase {
    match stage {
        CaseStage::Profile(i) => match plan[i as int] {
            ProfileStep::Observe(phase) => phase,
            _ => QualificationPhase::Wait,
        },
        _ => QualificationPhase::Wait,
    }
}

/// Whether a wait inside a quiet window kept it quiet.
pub open spec fn quiet_kept(waited: Result<EventBatch, String>) -> bool {
    waited matches Ok(batch) && batch.matched_events == 0
}

/// Whether an awaited wait settles the observation: it failed, it named the
/// registration, or its deadline has passed.
pub open spec fn await_settled(waited: Result<EventBatch, String>, deadline_over: bool) -> bool {
    match waited {
        Err(_) => true,
        Ok(batch) => batch.matched_events != 0 || deadline_over,
    }
}

/// Whether an awaited wait gives one observation that meets the scenario's
/// contract.
pub open spec fn observation_accepted(scenario: Scenario, waited: Result<EventBatch, String>) -> bool {
    waited matches Ok(batch) && batch.matched_events == 1 && spec_expectation_for(scenario).verdict(
        batch.observation,
    ) is Ok
}

/// Whether `after` holds the failures of `before` and one more, last.
pub open spec fn one_more(before: Seq<QualificationFailure>, after: Seq<QualificationFailure>) -> bool {
    after.len() == before.len() + 1 && after.drop_last() == before
}

proof fn lemma_push_is_one_more(before: Seq<QualificationFailure>, failure: QualificationFailure)
    ensures
        one_more(before, before.push(failure)),
        before.push(failure).last() == failure,
{
    assert(before.push(failure).drop_last() =~= before);
}

/// The position of a stage in the order of phases.
pub open spec fn stage_rank(stage: CaseStage) -> int {
    match stage {
        CaseStage::Quiescence => 0,
        CaseStage::Activation => 1,
        CaseStage::Profile(i) => 2 + i,
        CaseStage::Cleanup => 0x1_0000_0000_0000_0002,
        CaseStage::Operation => 0x1_0000_0000_0000_0003,
        CaseStage::Done => 0x1_0000_0000_0000_0004,
    }
}

/// The decisions of one executed case and its accumulating receipt.
pub struct CaseDriver {
    implementation: Implementation,
    scenario: Scenario,
    run: CaseRun,
    plan: Vec<ProfileStep>,
    stage: CaseStage,
    waiting: bool,
}

impl CaseDriver {
    /// The candidate.
    pub closed spec fn spec_implementation(&self) -> Implementation {
        self.implementation
    }

    /// The scenario.
    pub closed spec fn spec_scenario(&self) -> Scenario {
        self.scenario
    }

    /// The configured delivery.
    pub closed spec fn spec_configured(&self) -> ConfiguredDelivery {
        self.run.spec_configured()
    }

    /// The observations retained so far.
    pub closed spec fn spec_observations(&self) -> Seq<Observation> {
        self.run.spec_observations()
    }

    /// The failures recorded so far, in execution order.
    pub closed spec fn spec_failures(&self) -> Seq<QualificationFailure> {
        self.run.spec_failures()
    }

    /// The profile schedule.
    pub closed spec fn spec_plan(&self) -> Seq<ProfileStep> {
        self.plan@
    }

    /// Where the case stands.
    pub closed spec fn spec_stage(&self) -> CaseStage {
        self.stage
    }

    /// Whether a quiet window or an awaited deadline is open.
    pub closed spec fn spec_waiting(&self) -> bool {
        self.waiting
    }

    /// The action the caller performs next.
    pub open spec fn spec_request(&self) -> CaseRequest {
        request_at(self.spec_stage(), self.spec_plan(), self.spec_waiting())
    }

    /// The driver's invariant: the schedule is the scenario's profile
    /// schedule, a profile stage points into it, and only waits keep a
    /// window or deadline open.
    pub closed spec fn wf(&self) -> bool {
        &&& self.run.spec_implementation() == self.implementation
        &&& self.run.spec_scenario() == self.scenario
        &&& self.plan@ == spec_profile_plan(self.scenario.spec_profile())
        &&& self.stage matches CaseStage::Profile(i) ==> i < self.plan@.len()
        &&& self.waiting ==> (self.spec_request() is QuietWait || self.spec_request() is AwaitEvent)
    }

    /// Starts an executed case after a successful registration, at the quiet
    /// window before activation.
    pub fn begin(implementation: Implementation, scenario: Scenario, configured: ConfiguredDelivery) -> (driver: CaseDriver)
        ensures
            driver.wf(),
            driver.spec_implementation() == implementation,
            driver.spec_scenario() == scenario,
            driver.spec_configured() == configured,
            driver.spec_plan() == spec_profile_plan(scenario.spec_profile()),
            driver.spec_observations().len() == 0,
            driver.spec_failures().len() == 0,
            driver.spec_stage() == CaseStage::Quiescence,
            !driver.spec_waiting(),
    {
        CaseDriver {
            implementation,
            scenario,
            run: CaseRun::begin(implementation, scenario, configured),
            plan: profile_plan(scenario.profile()),
            stage: CaseStage::Quiescence,
            waiting: false,
        }
    }

    /// Returns the action the caller performs next.
    pub fn request(&self) -> (request: CaseRequest)
        requires
            self.wf(),
        ensures
            request == self.spec_request(),
    {
        match self.stage {
            CaseStage::Quiescence => CaseRequest::QuietWait { opens: !self.waiting },
            CaseStage::Activation => CaseRequest::Activate,
            CaseStage::Profile(i) => match self.plan[i] {
                ProfileStep::Observe(_) => CaseRequest::AwaitEvent { opens: !self.waiting },
                ProfileStep::Rearm => CaseRequest::Rearm,
                _ => CaseRequest::QuietWait { opens: !self.waiting },
            },
            CaseStage::Cleanup => CaseRequest::Delete,
            CaseStage::Operation => CaseRequest::VerifyOperation,
            CaseStage::Done => CaseRequest::Finish,
        }
    }

    fn next(&self) -> (stage: CaseStage)
        requires
            self.wf(),
        ensures
            stage == next_stage(self.stage, self.plan@.len()),
    {
        match self.stage {
            CaseStage::Quiescence => CaseStage::Activation,
            CaseStage::Activation => CaseStage::Profile(0),
            CaseStage::Profile(i) => if i + 1 < self.plan.len() {
                CaseStage::Profile(i + 1)
            } else {
                CaseStage::Cleanup
            },
            CaseStage::Cleanup => CaseStage::Operation,
            CaseStage::Operation => CaseStage::Done,
            CaseStage::Done => CaseStage::Done,
        }
    }

    fn after_failure(&self) -> (stage: CaseStage)
        ensures
            stage == stage_after_failure(self.stage),
    {
        match self.stage {
            CaseStage::Quiescence => CaseStage::Activation,
            CaseStage::Activation => CaseStage::Cleanup,
            CaseStage::Profile(_) => CaseStage::Cleanup,
            CaseStage::Cleanup => CaseStage::Operation,
            CaseStage::Operation => CaseStage::Done,
            CaseStage::Done => CaseStage::Done,
        }
    }

    /// Takes the outcome of one wait inside the current quiet window;
    /// `window_over` tells whether the window has passed after the wait.
    ///
    /// A failed wait or a matching event records the window's failure and
    /// leaves the window: before activation the case goes on to activate,
    /// in the schedule it skips to cleanup. A quiet wait keeps the window
    /// open until it is over, then moves to the next stage.
    pub fn quiet_waited(&mut self, waited: Result<EventBatch, String>, window_over: bool)
        requires
            old(self).wf(),
            old(self).spec_request() is QuietWait,
        ensures
            final(self).wf(),
            final(self).spec_implementation() == old(self).spec_implementation(),
            final(self).spec_scenario() == old(self).spec_scenario(),
            final(self).spec_configured() == old(self).spec_configured(),
            final(self).spec_plan() == old(self).spec_plan(),
            final(self).spec_observations() == old(self).spec_observations(),
            quiet_kept(waited) ==> final(self).spec_failures() == old(self).spec_failures()
                && final(self).spec_stage() == (if window_over {
                next_stage(old(self).spec_stage(), old(self).spec_plan().len())
            } else {
                old(self).spec_stage()
            }) && final(self).spec_waiting() == !window_over,
            !quiet_kept(waited) ==> one_more(old(self).spec_failures(), final(self).spec_failures())
                && quiet_judged(
                Err(final(self).spec_failures().last()),
                old(self).spec_implementation(),
                old(self).spec_scenario(),
                quiet_window(old(self).spec_stage(), old(self).spec_plan()).0,
                quiet_window(old(self).spec_stage(), old(self).spec_plan()).1,
                waited,
            ) && final(self).spec_stage() == stage_after_failure(old(self).spec_stage())
                && !final(self).spec_waiting(),
    {
        let verdict = match self.stage {
            CaseStage::Profile(i) => {
                let before_rearm = match self.plan[i] {
                    ProfileStep::DisarmedBeforeRearm => true,
                    _ => false,
                };
                let expected = disarmed_expectation(before_rearm);
                judge_quiet(
                    self.implementation,
                    self.scenario,
                    QualificationPhase::Disarm,
                    expected.as_str(),
                    waited,
                )
            },
            _ => judge_quiet(
                self.implementation,
                self.scenario,
                QualificationPhase::Quiescence,
                "no readiness before fixture activation",
                waited,
            ),
        };
        match verdict {
            Ok(()) => {
                if window_over {
                    self.stage = self.next();
                    self.waiting = false;
                } else {
                    self.waiting = true;
                }
            },
            Err(failure) => {
                proof {
                    lemma_push_is_one_more(self.run.spec_failures(), failure);
                }
                self.run.record(Err(failure));
                self.stage = self.after_failure();
                self.waiting = false;
            },
        }
    }

    /// Takes the outcome of one wait for the awaited observation;
    /// `deadline_over` tells whether its deadline has passed after the wait.
    ///
    /// A wait that neither failed, nor named the registration, nor reached
    /// the deadline keeps waiting. Otherwise the observation is judged: one
    /// observation that meets the contract moves to the next stage; any
    /// other outcome records its failure and skips to cleanup.
    pub fn event_awaited(&mut self, waited: Result<EventBatch, String>, deadline_over: bool)
        requires
            old(self).wf(),
            old(self).spec_request() is AwaitEvent,
        ensures
            final(self).wf(),
            final(self).spec_implementation() == old(self).spec_implementation(),
            final(self).spec_scenario() == old(self).spec_scenario(),
            final(self).spec_configured() == old(self).spec_configured(),
            final(self).spec_plan() == old(self).spec_plan(),
            !await_settled(waited, deadline_over) ==> final(self).spec_failures() == old(
                self,
            ).spec_failures() && final(self).spec_observations() == old(self).spec_observations()
                && final(self).spec_stage() == old(self).spec_stage() && final(self).spec_waiting(),
            await_settled(waited, deadline_over) ==> final(self).spec_observations() == retained_after(
                old(self).spec_observations(),
                waited,
            ) && !final(self).spec_waiting(),
            await_settled(waited, deadline_over) && observation_accepted(old(self).spec_scenario(), waited)
                ==> final(self).spec_failures() == old(self).spec_failures() && final(self).spec_stage()
                == next_stage(old(self).spec_stage(), old(self).spec_plan().len()),
            await_settled(waited, deadline_over) && !observation_accepted(old(self).spec_scenario(), waited)
                ==> one_more(old(self).spec_failures(), final(self).spec_failures()) && observation_judged(
                Err(final(self).spec_failures().last()),
                old(self).spec_implementation(),
                old(self).spec_scenario(),
                awaited_phase(old(self).spec_stage(), old(self).spec_plan()),
                waited,
            ) && final(self).spec_stage() == CaseStage::Cleanup,
    {
        let settled = match &waited {
            Err(_) => true,
            Ok(batch) => batch.matched_events != 0 || deadline_over,
        };
        if !settled {
            self.waiting = true;
            return;
        }
        let phase = match self.stage {
            CaseStage::Profile(i) => match self.plan[i] {
                ProfileStep::Observe(phase) => phase,
                _ => QualificationPhase::Wait,
            },
            _ => QualificationPhase::Wait,
        };
        let verdict = self.run.observe(phase, waited);
        self.waiting = false;
        match verdict {
            Ok(()) => {
                self.stage = self.next();
            },
            Err(failure) => {
                proof {
                    lemma_push_is_one_more(self.run.spec_failures(), failure);
                }
                self.run.record(Err(failure));
                self.stage = CaseStage::Cleanup;
            },
        }
    }

    /// Takes the outcome of the fixture activation: success starts the
    /// profile schedule; a failure is recorded and the schedule is skipped.
    pub fn activated(&mut self, outcome: Result<(), String>)
        requires
            old(self).wf(),
            old(self).spec_request() is Activate,
        ensures
            final(self).wf(),
            final(self).spec_implementation() == old(self).spec_implementation(),
            final(self).spec_scenario() == old(self).spec_scenario(),
            final(self).spec_configured() == old(self).spec_configured(),
            final(self).spec_plan() == old(self).spec_plan(),
            final(self).spec_observations() == old(self).spec_observations(),
            !final(self).spec_waiting(),
            match outcome {
                Ok(()) => final(self).spec_failures() == old(self).spec_failures()
                    && final(self).spec_stage() == CaseStage::Profile(0),
                Err(actual) => one_more(old(self).spec_failures(), final(self).spec_failures())
                    && failure_is(
                    final(self).spec_failures().last(),
                    old(self).spec_implementation(),
                    old(self).spec_scenario(),
                    QualificationPhase::Activation,
                    "fixture transitioned from quiet to ready"@,
                    actual@,
                ) && final(self).spec_stage() == CaseStage::Cleanup,
            },
    {
        match outcome {
            Ok(()) => {
                self.stage = CaseStage::Profile(0);
            },
            Err(actual) => {
                self.run.fail(QualificationPhase::Activation, "fixture transitioned from quiet to ready", actual);
                self.stage = CaseStage::Cleanup;
            },
        }
    }

    /// Takes the outcome of the explicit rearm: success moves to the next
    /// profile step; a failure is recorded and the rest of the schedule is
    /// skipped.
    pub fn rearmed(&mut self, outcome: Result<(), String>)
        requires
            old(self).wf(),
            old(self).spec_request() is Rearm,
        ensures
            final(self).wf(),
            final(self).spec_implementation() == old(self).spec_implementation(),
            final(self).spec_scenario() == old(self).spec_scenario(),
            final(self).spec_configured() == old(self).spec_configured(),
            final(self).spec_plan() == old(self).spec_plan(),
            final(self).spec_observations() == old(self).spec_observations(),
            !final(self).spec_waiting(),
            match outcome {
                Ok(()) => final(self).spec_failures() == old(self).spec_failures()
                    && final(self).spec_stage() == next_stage(
                    old(self).spec_stage(),
                    old(self).spec_plan().len(),
                ),
                Err(actual) => one_more(old(self).spec_failures(), final(self).spec_failures())
                    && failure_is(
                    final(self).spec_failures().last(),
                    old(self).spec_implementation(),
                    old(self).spec_scenario(),
                    QualificationPhase::Rearm,
                    "explicit native rearm"@,
                    actual@,
                ) && final(self).spec_stage() == CaseStage::Cleanup,
            },
    {
        match outcome {
            Ok(()) => {
                self.stage = self.next();
            },
            Err(actual) => {
                self.run.fail(QualificationPhase::Rearm, "explicit native rearm", actual);
                self.stage = CaseStage::Cleanup;
            },
        }
    }

    /// Takes the outcome of deleting the registration; a failure is
    /// recorded, and the operation check follows either way.
    pub fn deleted(&mut self, outcome: Result<(), String>)
        requires
            old(self).wf(),
            old(self).spec_request() is Delete,
        ensures
            final(self).wf(),
            final(self).spec_implementation() == old(self).spec_implementation(),
            final(self).spec_scenario() == old(self).spec_scenario(),
            final(self).spec_configured() == old(self).spec_configured(),
            final(self).spec_plan() == old(self).spec_plan(),
            final(self).spec_observations() == old(self).spec_observations(),
            !final(self).spec_waiting(),
            final(self).spec_stage() == CaseStage::Operation,
            match outcome {
                Ok(()) => final(self).spec_failures() == old(self).spec_failures(),
                Err(actual) => one_more(old(self).spec_failures(), final(self).spec_failures())
                    && failure_is(
                    final(self).spec_failures().last(),
                    old(self).spec_implementation(),
                    old(self).spec_scenario(),
                    QualificationPhase::Cleanup,
                    "deleted registration before fixture drop"@,
                    actual@,
                ),
            },
    {
        match outcome {
            Ok(()) => {},
            Err(actual) => {
                self.run.fail(QualificationPhase::Cleanup, "deleted registration before fixture drop", actual);
            },
        }
        self.stage = CaseStage::Operation;
    }

    /// Takes the outcome of the fixture's matching nonblocking operation; a
    /// failure is recorded, and the case is complete either way.
    pub fn operation_verified(&mut self, outcome: Result<(), String>)
        requires
            old(self).wf(),
            old(self).spec_request() is VerifyOperation,
        ensures
            final(self).wf(),
            final(self).spec_implementation() == old(self).spec_implementation(),
            final(self).spec_scenario() == old(self).spec_scenario(),
            final(self).spec_configured() == old(self).spec_configured(),
            final(self).spec_plan() == old(self).spec_plan(),
            final(self).spec_observations() == old(self).spec_observations(),
            !final(self).spec_waiting(),
            final(self).spec_stage() == CaseStage::Done,
            match outcome {
                Ok(()) => final(self).spec_failures() == old(self).spec_failures(),
                Err(actual) => one_more(old(self).spec_failures(), final(self).spec_failures())
                    && failure_is(
                    final(self).spec_failures().last(),
                    old(self).spec_implementation(),
                    old(self).spec_scenario(),
                    QualificationPhase::Operation,
                    "matching nonblocking operation returns fixture bytes"@,
                    actual@,
                ),
            },
    {
        match outcome {
            Ok(()) => {},
            Err(actual) => {
                self.run.fail(
                    QualificationPhase::Operation,
                    "matching nonblocking operation returns fixture bytes",
                    actual,
                );
            },
        }
        self.stage = CaseStage::Done;
    }

    /// Finishes the case: it passed exactly when no failure was recorded.
    pub fn finish(self) -> (result: CaseResult)
        requires
            self.wf(),
        ensures
            result.spec_implementation() == self.spec_implementation(),
            result.spec_scenario() == self.spec_scenario(),
            result.spec_configured_delivery() == Some(self.spec_configured()),
            result.spec_observations() == self.spec_observations(),
            self.spec_failures().len() == 0 ==> result.spec_outcome() == CaseOutcome::Passed,
            self.spec_failures().len() != 0 ==> result.spec_outcome() is Failed
                && result.spec_failures() == self.spec_failures(),
    {
        self.run.finish()
    }
}

/// The phases of a case run in their order and none is skipped but the
/// profile schedule: every transition moves forward, a failure never
/// continues the schedule, a quiet window before activation does not stop
/// the activation, and every case deletes its registration and checks the
/// fixture's operation before it is done.
pub proof fn law_case_phase_order(stage: CaseStage, len: nat)
    requires
        stage matches CaseStage::Profile(i) ==> i < len,
        len <= usize::MAX,
    ensures
        stage != CaseStage::Done ==> stage_rank(next_stage(stage, len)) > stage_rank(stage),
        stage != CaseStage::Done ==> stage_rank(stage_after_failure(stage)) > stage_rank(stage),
        !(stage_after_failure(stage) is Profile),
        stage_after_failure(CaseStage::Quiescence) == CaseStage::Activation,
        next_stage(stage, len) == CaseStage::Operation ==> stage == CaseStage::Cleanup,
        stage_after_failure(stage) == CaseStage::Operation ==> stage == CaseStage::Cleanup,
        next_stage(stage, len) == CaseStage::Done ==> stage == CaseStage::Operation || stage
            == CaseStage::Done,
        stage_after_failure(stage) == CaseStage::Done ==> stage == CaseStage::Operation || stage
            == CaseStage::Done,
        next_stage(stage, len) is Profile ==> stage == CaseStage::Activation || stage is Profile,
{
}

} // verus!
