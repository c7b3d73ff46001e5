//! Structured qualification receipts and their coverage policy.

use vstd::prelude::*;
use vstd::set_lib::{lemma_int_range, lemma_len_subset, set_int_range};

use crate::qualify_failure::QualificationFailure;
use crate::qualify_model::{
    all_implementations, all_scenarios, ConfiguredDelivery, DeliveryProfile, Implementation,
    ProfileSupport, Scenario,
};
use crate::observation::Observation;

verus! {

/// Outcome for one candidate/scenario pair.
#[derive(Clone, Debug, Eq, PartialEq)]
pub enum CaseOutcome {
    /// The candidate independently satisfied the contract.
    Passed,
    /// The exact profile was not run, with an explicit capability reason.
    NotRun(ProfileSupport),
    /// The candidate or harness failed one or more named phases.
    Failed(Vec<QualificationFailure>),
}

/// One candidate/scenario receipt.
#[derive(Clone, Debug, Eq, PartialEq)]
pub struct CaseResult {
    implementation: Implementation,
    scenario: Scenario,
    configured_delivery: Option<ConfiguredDelivery>,
    observations: Vec<Observation>,
    outcome: CaseOutcome,
}

impl CaseResult {
    /// The candidate.
    pub closed spec fn spec_implementation(&self) -> Implementation {
        self.implementation
    }

    /// The scenario.
    pub closed spec fn spec_scenario(&self) -> Scenario {
        self.scenario
    }

    /// The configured delivery of an executed case.
    pub closed spec fn spec_configured_delivery(&self) -> Option<ConfiguredDelivery> {
        self.configured_delivery
    }

    /// The retained observations in delivery order.
    pub closed spec fn spec_observations(&self) -> Seq<Observation> {
        self.observations@
    }

    /// The terminal outcome.
    pub closed spec fn spec_outcome(&self) -> CaseOutcome {
        self.outcome
    }

    /// The retained failures in execution order.
    pub open spec fn spec_failures(&self) -> Seq<QualificationFailure> {
        match self.spec_outcome() {
            CaseOutcome::Failed(failures) => failures@,
            _ => Seq::empty(),
        }
    }

    /// Whether this receipt names `implementation` and `scenario`.
    pub open spec fn names(&self, implementation: Implementation, scenario: Scenario) -> bool {
        self.spec_implementation() == implementation && self.spec_scenario() == scenario
    }

    /// Whether this receipt discharges its pair's coverage obligation: Mio's
    /// level and one-shot cases are not-run as not exposed with no
    /// configured delivery; `polling`'s level case may be not-run as host
    /// unavailable with no configured delivery; every other case was
    /// executed (passed or failed) with a configured delivery.
    pub open spec fn discharges_coverage(&self) -> bool {
        let profile = self.spec_scenario().spec_profile();
        if self.spec_implementation() == Implementation::Mio && profile
            != DeliveryProfile::InitialObservation {
            (self.spec_outcome() matches CaseOutcome::NotRun(ProfileSupport::NotExposed { .. }))
                && self.spec_configured_delivery() is None
        } else if self.spec_implementation() == Implementation::Polling && profile
            == DeliveryProfile::Level && (self.spec_outcome() matches CaseOutcome::NotRun(
            ProfileSupport::HostUnavailable { .. },
        )) {
            self.spec_configured_delivery() is None
        } else {
            (self.spec_outcome() is Passed || self.spec_outcome() is Failed)
                && self.spec_configured_delivery() is Some
        }
    }

    /// Creates a receipt.
    pub fn new(
        implementation: Implementation,
        scenario: Scenario,
        configured_delivery: Option<ConfiguredDelivery>,
        observations: Vec<Observation>,
        outcome: CaseOutcome,
    ) -> (result: CaseResult)
        ensures
            result.spec_implementation() == implementation,
            result.spec_scenario() == scenario,
            result.spec_configured_delivery() == configured_delivery,
            result.spec_observations() == observations@,
            result.spec_outcome() == outcome,
    {
        CaseResult { implementation, scenario, configured_delivery, observations, outcome }
    }

    /// Returns the candidate.
    pub fn implementation(&self) -> (implementation: Implementation)
        ensures
            implementation == self.spec_implementation(),
    {
        self.implementation
    }

    /// Returns the scenario.
    pub fn scenario(&self) -> (scenario: Scenario)
        ensures
            scenario == self.spec_scenario(),
    {
        self.scenario
    }

    /// Returns the delivery semantics configured for an executed case.
    pub fn configured_delivery(&self) -> (delivery: Option<ConfiguredDelivery>)
        ensures
            delivery == self.spec_configured_delivery(),
    {
        self.configured_delivery
    }

    /// Returns observations retained in delivery order.
    pub fn observations(&self) -> (observations: &[Observation])
        ensures
            observations@ == self.spec_observations(),
    {
        self.observations.as_slice()
    }

    /// Returns the terminal case outcome.
    pub fn outcome(&self) -> (outcome: &CaseOutcome)
        ensures
            *outcome == self.spec_outcome(),
    {
        &self.outcome
    }

    /// Returns every retained failure in execution order.
    pub fn failures(&self) -> (failures: &[QualificationFailure])
        ensures
            failures@ == self.spec_failures(),
    {
        match &self.outcome {
            CaseOutcome::Failed(failures) => failures.as_slice(),
            _ => &[],
        }
    }

    /// Returns whether this receipt discharges its pair's coverage obligation.
    pub fn discharges(&self) -> (covered: bool)
        ensures
            covered == self.discharges_coverage(),
    {
        let mio_mode = match self.implementation {
            Implementation::Mio => match self.scenario.profile() {
                DeliveryProfile::InitialObservation => false,
                _ => true,
            },
            _ => false,
        };
        let polling_host = match self.implementation {
            Implementation::Polling => match self.scenario.profile() {
                DeliveryProfile::Level => match &self.outcome {
                    CaseOutcome::NotRun(ProfileSupport::HostUnavailable { .. }) => true,
                    _ => false,
                },
                _ => false,
            },
            _ => false,
        };
        if mio_mode {
            let not_exposed = match &self.outcome {
                CaseOutcome::NotRun(ProfileSupport::NotExposed { .. }) => true,
                _ => false,
            };
            not_exposed && self.configured_delivery.is_none()
        } else if polling_host {
            self.configured_delivery.is_none()
        } else {
            let executed = match &self.outcome {
                CaseOutcome::Passed => true,
                CaseOutcome::Failed(_) => true,
                CaseOutcome::NotRun(_) => false,
            };
            executed && self.configured_delivery.is_some()
        }
    }

    fn is_failed(&self) -> (failed: bool)
        ensures
            failed == (self.spec_outcome() is Failed),
    {
        match &self.outcome {
            CaseOutcome::Failed(_) => true,
            _ => false,
        }
    }
}

/// The cases a report is expected to hold.
#[derive(Clone, Copy, Debug)]
pub enum ExpectedScope {
    /// Every candidate and scenario.
    All,
    /// Every scenario of one candidate.
    Implementation(Implementation),
}

impl ExpectedScope {
    /// The number of cases in scope.
    pub open spec fn spec_case_count(self) -> nat {
        match self {
            ExpectedScope::All => 24,
            ExpectedScope::Implementation(_) => 6,
        }
    }

    /// Returns the number of cases in scope: every candidate times every
    /// scenario, or every scenario of one candidate.
    pub fn case_count(self) -> (count: usize)
        ensures
            count == self.spec_case_count(),
            count == match self {
                ExpectedScope::All => all_implementations().len() * all_scenarios().len(),
                ExpectedScope::Implementation(_) => all_scenarios().len(),
            },
    {
        assert(all_implementations().len() == 4);
        assert(all_scenarios().len() == 6);
        match self {
            ExpectedScope::All => 24,
            ExpectedScope::Implementation(_) => 6,
        }
    }
}

/// Whether exactly one receipt names the pair and that receipt discharges
/// the pair's coverage obligation.
pub open spec fn pair_covered(
    results: Seq<CaseResult>,
    implementation: Implementation,
    scenario: Scenario,
) -> bool {
    exists|i: int|
        #![trigger results[i]]
        0 <= i < results.len() && results[i].names(implementation, scenario)
            && results[i].discharges_coverage() && forall|j: int|
            0 <= j < results.len() && j != i ==> !(#[trigger] results[j]).names(
                implementation,
                scenario,
            )
}

/// Whether every scenario of `implementation` is covered.
pub open spec fn implementation_covered(
    results: Seq<CaseResult>,
    implementation: Implementation,
) -> bool {
    forall|k: int|
        0 <= k < 6 ==> #[trigger] pair_covered(results, implementation, all_scenarios()[k])
}

/// Whether a report of `results` covers `scope`.
pub open spec fn scope_covered(results: Seq<CaseResult>, scope: ExpectedScope) -> bool {
    &&& results.len() == scope.spec_case_count()
    &&& match scope {
        ExpectedScope::All => forall|m: int|
            0 <= m < 4 ==> #[trigger] implementation_covered(results, all_implementations()[m]),
        ExpectedScope::Implementation(implementation) => implementation_covered(
            results,
            implementation,
        ),
    }
}

/// Whether some receipt failed.
pub open spec fn any_failed(results: Seq<CaseResult>) -> bool {
    exists|i: int| 0 <= i < results.len() && (#[trigger] results[i]).spec_outcome() is Failed
}

/// Independent-candidate qualification receipt.
#[derive(Debug)]
pub struct QualificationReport {
    results: Vec<CaseResult>,
    expected_scope: ExpectedScope,
}

fn pair_is_covered(results: &Vec<CaseResult>, implementation: Implementation, scenario: Scenario) -> (covered: bool)
    ensures
        covered == pair_covered(results@, implementation, scenario),
{
    let mut first: Option<usize> = None;
    let mut i: usize = 0;
    while i < results.len()
        invariant
            i <= results@.len(),
            match first {
                None => forall|j: int| 0 <= j < i ==> !(#[trigger] results@[j]).names(implementation, scenario),
                Some(f) => f < i && results@[f as int].names(implementation, scenario)
                    && forall|j: int| 0 <= j < i && j != f ==> !(#[trigger] results@[j]).names(implementation, scenario),
            },
        decreases results@.len() - i,
    {
        let result = &results[i];
        if result.implementation() == implementation && result.scenario() == scenario {
            match first {
                None => {
                    first = Some(i);
                },
                Some(f) => {
                    // A second receipt for the pair: the pair is not covered.
                    assert(!pair_covered(results@, implementation, scenario)) by {
                        if pair_covered(results@, implementation, scenario) {
                            let w = choose|w: int|
                                #![trigger results@[w]]
                                0 <= w < results@.len() && results@[w].names(implementation, scenario)
                                    && results@[w].discharges_coverage() && forall|j: int|
                                    0 <= j < results@.len() && j != w ==> !(#[trigger] results@[j]).names(
                                        implementation,
                                        scenario,
                                    );
                            assert(results@[f as int].names(implementation, scenario));
                            assert(results@[i as int].names(implementation, scenario));
                        }
                    }
                    return false;
                },
            }
        }
        i = i + 1;
    }
    match first {
        None => false,
        Some(f) => {
            let covered = results[f].discharges();
            proof {
                if !covered && pair_covered(results@, implementation, scenario) {
                    let w = choose|w: int|
                        #![trigger results@[w]]
                        0 <= w < results@.len() && results@[w].names(implementation, scenario)
                            && results@[w].discharges_coverage() && forall|j: int|
                            0 <= j < results@.len() && j != w ==> !(#[trigger] results@[j]).names(
                                implementation,
                                scenario,
                            );
                    assert(results@[f as int].names(implementation, scenario));
                }
            }
            covered
        },
    }
}

fn implementation_is_covered(results: &Vec<CaseResult>, implementation: Implementation) -> (covered: bool)
    ensures
        covered == implementation_covered(results@, implementation),
{
    let scenarios = Scenario::all();
    let mut k: usize = 0;
    while k < 6
        invariant
            k <= 6,
            scenarios@ == all_scenarios(),
            forall|m: int| 0 <= m < k ==> #[trigger] pair_covered(results@, implementation, all_scenarios()[m]),
        decreases 6 - k,
    {
        if !pair_is_covered(results, implementation, scenarios[k]) {
            return false;
        }
        k = k + 1;
    }
    true
}

impl QualificationReport {
    /// Every case in stable execution order.
    pub closed spec fn spec_results(&self) -> Seq<CaseResult> {
        self.results@
    }

    /// The declared scope.
    pub closed spec fn spec_scope(&self) -> ExpectedScope {
        self.expected_scope
    }

    /// Whether the report covers its declared scope.
    pub open spec fn covered(&self) -> bool {
        scope_covered(self.spec_results(), self.spec_scope())
    }

    /// Whether the report is covered and no case failed.
    pub open spec fn conformant(&self) -> bool {
        self.covered() && !any_failed(self.spec_results())
    }

    /// Creates a report whose scope is every candidate and scenario.
    pub fn for_all(results: Vec<CaseResult>) -> (report: QualificationReport)
        ensures
            report.spec_results() == results@,
            report.spec_scope() == ExpectedScope::All,
    {
        QualificationReport { results, expected_scope: ExpectedScope::All }
    }

    /// Creates a report whose scope is every scenario of one candidate.
    pub fn for_implementation(
        implementation: Implementation,
        results: Vec<CaseResult>,
    ) -> (report: QualificationReport)
        ensures
            report.spec_results() == results@,
            report.spec_scope() == ExpectedScope::Implementation(implementation),
    {
        QualificationReport { results, expected_scope: ExpectedScope::Implementation(implementation) }
    }

    /// Returns every case in stable execution order.
    pub fn results(&self) -> (results: &[CaseResult])
        ensures
            results@ == self.spec_results(),
    {
        self.results.as_slice()
    }

    /// Returns whether every case in the report's declared scope is covered.
    pub fn has_required_coverage(&self) -> (covered: bool)
        ensures
            covered == self.covered(),
    {
        if self.results.len() != self.expected_scope.case_count() {
            return false;
        }
        match self.expected_scope {
            ExpectedScope::All => {
                let implementations = Implementation::all();
                let mut m: usize = 0;
                while m < 4
                    invariant
                        m <= 4,
                        implementations@ == all_implementations(),
                        self.spec_scope() == ExpectedScope::All,
                        self.results@.len() == 24,
                        forall|n: int| 0 <= n < m ==> #[trigger] implementation_covered(self.results@, all_implementations()[n]),
                    decreases 4 - m,
                {
                    if !implementation_is_covered(&self.results, implementations[m]) {
                        assert(!implementation_covered(self.results@, all_implementations()[m as int]));
                        assert(!scope_covered(self.results@, ExpectedScope::All));
                        return false;
                    }
                    m = m + 1;
                }
                true
            },
            ExpectedScope::Implementation(implementation) => implementation_is_covered(
                &self.results,
                implementation,
            ),
        }
    }

    /// Returns whether required coverage exists and no case failed.
    pub fn is_conformant(&self) -> (conformant: bool)
        ensures
            conformant == self.conformant(),
    {
        if !self.has_required_coverage() {
            return false;
        }
        let mut i: usize = 0;
        while i < self.results.len()
            invariant
                i <= self.results@.len(),
                forall|j: int| 0 <= j < i ==> !((#[trigger] self.results@[j]).spec_outcome() is Failed),
            decreases self.results@.len() - i,
        {
            if self.results[i].is_failed() {
                return false;
            }
            i = i + 1;
        }
        true
    }

    /// Converts a conformant receipt into success while preserving failures.
    pub fn into_result(self) -> (outcome: Result<(), QualificationReport>)
        ensures
            outcome is Ok <==> self.conformant(),
            outcome matches Err(report) ==> report == self,
    {
        if self.is_conformant() {
            Ok(())
        } else {
            Err(self)
        }
    }
}


/// The receipt that covers a pair, when the pair is covered.
pub open spec fn covering_index(
    results: Seq<CaseResult>,
    implementation: Implementation,
    scenario: Scenario,
) -> int {
    choose|i: int|
        #![trigger results[i]]
        0 <= i < results.len() && results[i].names(implementation, scenario)
            && results[i].discharges_coverage() && forall|j: int|
            0 <= j < results.len() && j != i ==> !(#[trigger] results[j]).names(
                implementation,
                scenario,
            )
}

proof fn lemma_covering_index(
    results: Seq<CaseResult>,
    implementation: Implementation,
    scenario: Scenario,
)
    requires
        pair_covered(results, implementation, scenario),
    ensures
        0 <= covering_index(results, implementation, scenario) < results.len(),
        results[covering_index(results, implementation, scenario)].names(implementation, scenario),
        results[covering_index(results, implementation, scenario)].discharges_coverage(),
{
}

/// A report covering one candidate's scope holds only that candidate's
/// receipts: its six receipts are exactly one per scenario.
pub proof fn law_implementation_scope_holds_only_its_candidate(
    results: Seq<CaseResult>,
    implementation: Implementation,
)
    requires
        scope_covered(results, ExpectedScope::Implementation(implementation)),
    ensures
        forall|i: int|
            0 <= i < results.len() ==> (#[trigger] results[i]).spec_implementation()
                == implementation,
{
    assert forall|i: int| 0 <= i < results.len() implies (#[trigger] results[i]).spec_implementation()
        == implementation by {
        if results[i].spec_implementation() != implementation {
            let sc = all_scenarios();
            assert(pair_covered(results, implementation, sc[0]));
            assert(pair_covered(results, implementation, sc[1]));
            assert(pair_covered(results, implementation, sc[2]));
            assert(pair_covered(results, implementation, sc[3]));
            assert(pair_covered(results, implementation, sc[4]));
            assert(pair_covered(results, implementation, sc[5]));
            lemma_covering_index(results, implementation, sc[0]);
            lemma_covering_index(results, implementation, sc[1]);
            lemma_covering_index(results, implementation, sc[2]);
            lemma_covering_index(results, implementation, sc[3]);
            lemma_covering_index(results, implementation, sc[4]);
            lemma_covering_index(results, implementation, sc[5]);
            let w0 = covering_index(results, implementation, sc[0]);
            let w1 = covering_index(results, implementation, sc[1]);
            let w2 = covering_index(results, implementation, sc[2]);
            let w3 = covering_index(results, implementation, sc[3]);
            let w4 = covering_index(results, implementation, sc[4]);
            let w5 = covering_index(results, implementation, sc[5]);
            let indices = Set::<int>::empty().insert(w0).insert(w1).insert(w2).insert(w3).insert(
                w4,
            ).insert(w5).insert(i);
            assert(indices.len() == 7);
            lemma_int_range(0, 6);
            assert(indices.subset_of(set_int_range(0, 6)));
            lemma_len_subset(indices, set_int_range(0, 6));
        }
    }
}

/// Coverage is never claimed by a report in which nothing ran: every scope
/// requires an executed initial-observation receipt.
pub proof fn law_coverage_requires_an_executed_case(
    results: Seq<CaseResult>,
    scope: ExpectedScope,
)
    requires
        scope_covered(results, scope),
    ensures
        exists|i: int|
            0 <= i < results.len() && ((#[trigger] results[i]).spec_outcome() is Passed
                || results[i].spec_outcome() is Failed),
{
    let implementation = match scope {
        ExpectedScope::All => {
            assert(implementation_covered(results, all_implementations()[0]));
            Implementation::Zio
        },
        ExpectedScope::Implementation(implementation) => implementation,
    };
    assert(pair_covered(results, implementation, all_scenarios()[0]));
    lemma_covering_index(results, implementation, all_scenarios()[0]);
    let w = covering_index(results, implementation, all_scenarios()[0]);
    assert(results[w].spec_outcome() is Passed || results[w].spec_outcome() is Failed);
}

/// A conformant report is covered and holds no failed receipt; its
/// conversion into a result succeeds exactly then.
pub proof fn law_conformance_is_coverage_without_failure(report: QualificationReport)
    ensures
        report.conformant() ==> report.covered(),
        report.conformant() ==> forall|i: int|
            0 <= i < report.spec_results().len() ==> !((#[trigger] report.spec_results()[i]).spec_outcome() is Failed),
{
}

} // verus!
