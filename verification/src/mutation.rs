//! Mutation conformance scenarios, their scripted plans, and diagnostics.

use vstd::prelude::*;

use crate::model_sequence::{CommitStatus, Operation, Outcome, PlannedStep};

verus! {

/// One of the three registration mutations covered by the suite.
#[derive(Clone, Copy, Debug, Eq, Hash, PartialEq, Structural)]
pub enum MutationOperation {
    /// Acquire and install a registration.
    Register,
    /// Replace registration configuration and rearm it.
    Modify,
    /// Remove and retire a registration.
    Delete,
}

impl MutationOperation {
    /// The operation's word in scenario names.
    pub open spec fn spec_word(self) -> Seq<char> {
        match self {
            MutationOperation::Register => "register"@,
            MutationOperation::Modify => "modify"@,
            MutationOperation::Delete => "delete"@,
        }
    }

    /// The corresponding poller operation.
    pub open spec fn spec_operation(self) -> Operation {
        match self {
            MutationOperation::Register => Operation::Register,
            MutationOperation::Modify => Operation::Modify,
            MutationOperation::Delete => Operation::Delete,
        }
    }

    /// Returns the corresponding poller operation.
    pub fn operation(self) -> (operation: Operation)
        ensures
            operation == self.spec_operation(),
    {
        match self {
            MutationOperation::Register => Operation::Register,
            MutationOperation::Modify => Operation::Modify,
            MutationOperation::Delete => Operation::Delete,
        }
    }
}

/// Observable branch selected for a mutation.
#[derive(Clone, Copy, Debug, Eq, Hash, PartialEq, Structural)]
pub enum Branch {
    /// The backend mutation succeeds.
    Success,
    /// The mutation fails and is proven not to have applied.
    NotApplied,
    /// The mutation applies before a later failure is reported.
    Applied,
    /// The resulting backend state cannot be proven.
    Unknown,
}

impl Branch {
    /// The failed branch's commit status.
    pub open spec fn spec_commit(self) -> Option<CommitStatus> {
        match self {
            Branch::Success => None,
            Branch::NotApplied => Some(CommitStatus::NotApplied),
            Branch::Applied => Some(CommitStatus::Applied),
            Branch::Unknown => Some(CommitStatus::Unknown),
        }
    }

    /// The planned outcome of the branch.
    pub open spec fn spec_outcome(self) -> Outcome {
        match self {
            Branch::Success => Outcome::Success,
            Branch::NotApplied => Outcome::NotApplied,
            Branch::Applied => Outcome::Applied,
            Branch::Unknown => Outcome::Unknown,
        }
    }

    /// Returns the failed branch's commit status.
    pub fn commit(self) -> (commit: Option<CommitStatus>)
        ensures
            commit == self.spec_commit(),
    {
        match self {
            Branch::Success => None,
            Branch::NotApplied => Some(CommitStatus::NotApplied),
            Branch::Applied => Some(CommitStatus::Applied),
            Branch::Unknown => Some(CommitStatus::Unknown),
        }
    }
}

/// One stable mutation conformance scenario.
#[derive(Clone, Copy, Debug, Eq, Hash, PartialEq, Structural)]
pub struct MutationScenario {
    operation: MutationOperation,
    branch: Branch,
}

/// Every mutation scenario in stable execution order.
pub open spec fn all_mutation_scenarios() -> Seq<MutationScenario> {
    Seq::new(12, |i: int| MutationScenario::spec_new(
        if i < 4 {
            MutationOperation::Register
        } else if i < 8 {
            MutationOperation::Modify
        } else {
            MutationOperation::Delete
        },
        if i % 4 == 0 {
            Branch::Success
        } else if i % 4 == 1 {
            Branch::NotApplied
        } else if i % 4 == 2 {
            Branch::Applied
        } else {
            Branch::Unknown
        },
    ))
}

impl MutationScenario {
    /// The scenario of an operation and branch.
    pub closed spec fn spec_new(operation: MutationOperation, branch: Branch) -> MutationScenario {
        MutationScenario { operation, branch }
    }

    /// The covered mutation.
    pub closed spec fn spec_operation(self) -> MutationOperation {
        self.operation
    }

    /// The selected branch.
    pub closed spec fn spec_branch(self) -> Branch {
        self.branch
    }

    /// A scenario gives back the operation and branch it was made of.
    pub broadcast proof fn lemma_parts(operation: MutationOperation, branch: Branch)
        ensures
            #[trigger] MutationScenario::spec_new(operation, branch).spec_operation() == operation,
            MutationScenario::spec_new(operation, branch).spec_branch() == branch,
    {
    }

    /// Every mutation scenario in stable execution order.
    pub fn all() -> (all: Vec<MutationScenario>)
        ensures
            all@ == all_mutation_scenarios(),
    {
        let operations = [MutationOperation::Register, MutationOperation::Modify, MutationOperation::Delete];
        let branches = [Branch::Success, Branch::NotApplied, Branch::Applied, Branch::Unknown];
        let mut all: Vec<MutationScenario> = Vec::new();
        let mut i: usize = 0;
        while i < 12
            invariant
                i <= 12,
                operations@ == seq![MutationOperation::Register, MutationOperation::Modify, MutationOperation::Delete],
                branches@ == seq![Branch::Success, Branch::NotApplied, Branch::Applied, Branch::Unknown],
                all@ == all_mutation_scenarios().take(i as int),
            decreases 12 - i,
        {
            all.push(MutationScenario::new(operations[i / 4], branches[i % 4]));
            assert(all@ =~= all_mutation_scenarios().take(i as int + 1));
            i = i + 1;
        }
        assert(all_mutation_scenarios().take(12) =~= all_mutation_scenarios());
        all
    }

    /// Creates a scenario for an operation and branch.
    pub fn new(operation: MutationOperation, branch: Branch) -> (scenario: MutationScenario)
        ensures
            scenario == MutationScenario::spec_new(operation, branch),
    {
        MutationScenario { operation, branch }
    }

    /// Creates a register scenario.
    pub fn register(branch: Branch) -> (scenario: MutationScenario)
        ensures
            scenario == MutationScenario::spec_new(MutationOperation::Register, branch),
    {
        MutationScenario::new(MutationOperation::Register, branch)
    }

    /// Creates a modify scenario.
    pub fn modify(branch: Branch) -> (scenario: MutationScenario)
        ensures
            scenario == MutationScenario::spec_new(MutationOperation::Modify, branch),
    {
        MutationScenario::new(MutationOperation::Modify, branch)
    }

    /// Creates a delete scenario.
    pub fn delete(branch: Branch) -> (scenario: MutationScenario)
        ensures
            scenario == MutationScenario::spec_new(MutationOperation::Delete, branch),
    {
        MutationScenario::new(MutationOperation::Delete, branch)
    }

    /// Returns the covered mutation.
    pub fn operation(self) -> (operation: MutationOperation)
        ensures
            operation == self.spec_operation(),
    {
        self.operation
    }

    /// Returns the selected branch.
    pub fn branch(self) -> (branch: Branch)
        ensures
            branch == self.spec_branch(),
    {
        self.branch
    }

    /// The stable scenario name: operation and branch joined by a dot.
    pub open spec fn spec_name(self) -> Seq<char> {
        match (self.spec_operation(), self.spec_branch()) {
            (MutationOperation::Register, Branch::Success) => "register.success"@,
            (MutationOperation::Register, Branch::NotApplied) => "register.not_applied"@,
            (MutationOperation::Register, Branch::Applied) => "register.applied"@,
            (MutationOperation::Register, Branch::Unknown) => "register.unknown"@,
            (MutationOperation::Modify, Branch::Success) => "modify.success"@,
            (MutationOperation::Modify, Branch::NotApplied) => "modify.not_applied"@,
            (MutationOperation::Modify, Branch::Applied) => "modify.applied"@,
            (MutationOperation::Modify, Branch::Unknown) => "modify.unknown"@,
            (MutationOperation::Delete, Branch::Success) => "delete.success"@,
            (MutationOperation::Delete, Branch::NotApplied) => "delete.not_applied"@,
            (MutationOperation::Delete, Branch::Applied) => "delete.applied"@,
            (MutationOperation::Delete, Branch::Unknown) => "delete.unknown"@,
        }
    }

    /// Returns the stable scenario name.
    pub fn name(self) -> (name: &'static str)
        ensures
            name@ == self.spec_name(),
    {
        match (self.operation, self.branch) {
            (MutationOperation::Register, Branch::Success) => "register.success",
            (MutationOperation::Register, Branch::NotApplied) => "register.not_applied",
            (MutationOperation::Register, Branch::Applied) => "register.applied",
            (MutationOperation::Register, Branch::Unknown) => "register.unknown",
            (MutationOperation::Modify, Branch::Success) => "modify.success",
            (MutationOperation::Modify, Branch::NotApplied) => "modify.not_applied",
            (MutationOperation::Modify, Branch::Applied) => "modify.applied",
            (MutationOperation::Modify, Branch::Unknown) => "modify.unknown",
            (MutationOperation::Delete, Branch::Success) => "delete.success",
            (MutationOperation::Delete, Branch::NotApplied) => "delete.not_applied",
            (MutationOperation::Delete, Branch::Applied) => "delete.applied",
            (MutationOperation::Delete, Branch::Unknown) => "delete.unknown",
        }
    }
}

/// The scripted step of an operation with a planned outcome.
pub open spec fn step(operation: Operation, outcome: Outcome) -> PlannedStep {
    PlannedStep { operation, outcome }
}

/// The scripted backend plan of a scenario: the scenario's mutation with
/// the selected branch, preceded by a successful registration for modify
/// and delete scenarios, followed by the retries and replacement the branch
/// exercises, and ending with a successful cleanup deletion.
pub open spec fn spec_mutation_plan(scenario: MutationScenario) -> Seq<PlannedStep> {
    let outcome = scenario.spec_branch().spec_outcome();
    let register_ok = step(Operation::Register, Outcome::Success);
    let modify_ok = step(Operation::Modify, Outcome::Success);
    let delete_ok = step(Operation::Delete, Outcome::Success);
    match scenario.spec_operation() {
        MutationOperation::Register => {
            let head = seq![step(Operation::Register, outcome)];
            let retry = if outcome == Outcome::NotApplied {
                seq![register_ok]
            } else {
                Seq::empty()
            };
            head + retry + seq![delete_ok]
        },
        MutationOperation::Modify => {
            let head = seq![register_ok, step(Operation::Modify, outcome)];
            let retry = if outcome == Outcome::NotApplied {
                seq![modify_ok]
            } else {
                Seq::empty()
            };
            let confirm = if outcome != Outcome::Unknown {
                seq![modify_ok]
            } else {
                Seq::empty()
            };
            head + retry + confirm + seq![delete_ok]
        },
        MutationOperation::Delete => {
            let head = seq![register_ok, step(Operation::Delete, outcome)];
            let tail = if outcome == Outcome::Success || outcome == Outcome::Applied {
                seq![register_ok, delete_ok]
            } else {
                seq![delete_ok]
            };
            head + tail
        },
    }
}

/// Returns the scripted backend plan of a scenario.
pub fn mutation_plan(scenario: MutationScenario) -> (plan: Vec<PlannedStep>)
    ensures
        plan@ == spec_mutation_plan(scenario),
{
    let outcome = match scenario.branch() {
        Branch::Success => Outcome::Success,
        Branch::NotApplied => Outcome::NotApplied,
        Branch::Applied => Outcome::Applied,
        Branch::Unknown => Outcome::Unknown,
    };
    let register_ok = PlannedStep { operation: Operation::Register, outcome: Outcome::Success };
    let modify_ok = PlannedStep { operation: Operation::Modify, outcome: Outcome::Success };
    let delete_ok = PlannedStep { operation: Operation::Delete, outcome: Outcome::Success };
    let mut plan: Vec<PlannedStep> = Vec::new();
    match scenario.operation() {
        MutationOperation::Register => {
            plan.push(PlannedStep { operation: Operation::Register, outcome });
            if outcome == Outcome::NotApplied {
                plan.push(register_ok);
            }
            plan.push(delete_ok);
        },
        MutationOperation::Modify => {
            plan.push(register_ok);
            plan.push(PlannedStep { operation: Operation::Modify, outcome });
            if outcome == Outcome::NotApplied {
                plan.push(modify_ok);
            }
            if outcome != Outcome::Unknown {
                plan.push(modify_ok);
            }
            plan.push(delete_ok);
        },
        MutationOperation::Delete => {
            plan.push(register_ok);
            plan.push(PlannedStep { operation: Operation::Delete, outcome });
            if outcome == Outcome::Success || outcome == Outcome::Applied {
                plan.push(register_ok);
            }
            plan.push(delete_ok);
        },
    }
    assert(plan@ =~= spec_mutation_plan(scenario));
    plan
}

/// Every scenario's plan exercises its selected branch on its own
/// operation, and ends with a successful cleanup deletion.
pub proof fn law_mutation_plan_exercises_branch_and_cleans_up(scenario: MutationScenario)
    ensures
        spec_mutation_plan(scenario).len() >= 2,
        spec_mutation_plan(scenario).last() == step(Operation::Delete, Outcome::Success),
        spec_mutation_plan(scenario).contains(
            step(scenario.spec_operation().spec_operation(), scenario.spec_branch().spec_outcome()),
        ),
{
    let plan = spec_mutation_plan(scenario);
    let target = step(scenario.spec_operation().spec_operation(), scenario.spec_branch().spec_outcome());
    match scenario.spec_operation() {
        MutationOperation::Register => {
            assert(plan[0] == target);
        },
        _ => {
            assert(plan[1] == target);
        },
    }
}

/// Every operation and branch pair names exactly one scenario of the
/// stable order, and no scenario occurs twice.
pub proof fn law_mutation_scenarios_cover_each_pair_once(operation: MutationOperation, branch: Branch)
    ensures
        all_mutation_scenarios().len() == 12,
        exists|i: int|
            0 <= i < 12 && #[trigger] all_mutation_scenarios()[i] == MutationScenario::spec_new(operation, branch),
        forall|i: int, j: int|
            0 <= i < j < 12 ==> #[trigger] all_mutation_scenarios()[i] != #[trigger] all_mutation_scenarios()[j],
{
    broadcast use MutationScenario::lemma_parts;
    let all = all_mutation_scenarios();
    let o: int = match operation {
        MutationOperation::Register => 0,
        MutationOperation::Modify => 1,
        MutationOperation::Delete => 2,
    };
    let b: int = match branch {
        Branch::Success => 0,
        Branch::NotApplied => 1,
        Branch::Applied => 2,
        Branch::Unknown => 3,
    };
    assert(all[4 * o + b] == MutationScenario::spec_new(operation, branch));
    assert forall|i: int, j: int| 0 <= i < j < 12 implies #[trigger] all[i] != #[trigger] all[j] by {
        if all[i] == all[j] {
            assert(all[i].spec_operation() == all[j].spec_operation());
            assert(all[i].spec_branch() == all[j].spec_branch());
        }
    }
}

/// A mutation scenario's name is its operation's word, a dot, and its
/// branch's outcome label.
pub proof fn law_mutation_name_joins_parts(scenario: MutationScenario)
    ensures
        scenario.spec_name() == scenario.spec_operation().spec_word() + "."@
            + scenario.spec_branch().spec_outcome().spec_name(),
{
    reveal_strlit(".");
    match (scenario.spec_operation(), scenario.spec_branch()) {
        (MutationOperation::Register, Branch::Success) => {
            reveal_strlit("register.success");
            reveal_strlit("register");
            reveal_strlit("success");
        },
        (MutationOperation::Register, Branch::NotApplied) => {
            reveal_strlit("register.not_applied");
            reveal_strlit("register");
            reveal_strlit("not_applied");
        },
        (MutationOperation::Register, Branch::Applied) => {
            reveal_strlit("register.applied");
            reveal_strlit("register");
            reveal_strlit("applied");
        },
        (MutationOperation::Register, Branch::Unknown) => {
            reveal_strlit("register.unknown");
            reveal_strlit("register");
            reveal_strlit("unknown");
        },
        (MutationOperation::Modify, Branch::Success) => {
            reveal_strlit("modify.success");
            reveal_strlit("modify");
            reveal_strlit("success");
        },
        (MutationOperation::Modify, Branch::NotApplied) => {
            reveal_strlit("modify.not_applied");
            reveal_strlit("modify");
            reveal_strlit("not_applied");
        },
        (MutationOperation::Modify, Branch::Applied) => {
            reveal_strlit("modify.applied");
            reveal_strlit("modify");
            reveal_strlit("applied");
        },
        (MutationOperation::Modify, Branch::Unknown) => {
            reveal_strlit("modify.unknown");
            reveal_strlit("modify");
            reveal_strlit("unknown");
        },
        (MutationOperation::Delete, Branch::Success) => {
            reveal_strlit("delete.success");
            reveal_strlit("delete");
            reveal_strlit("success");
        },
        (MutationOperation::Delete, Branch::NotApplied) => {
            reveal_strlit("delete.not_applied");
            reveal_strlit("delete");
            reveal_strlit("not_applied");
        },
        (MutationOperation::Delete, Branch::Applied) => {
            reveal_strlit("delete.applied");
            reveal_strlit("delete");
            reveal_strlit("applied");
        },
        (MutationOperation::Delete, Branch::Unknown) => {
            reveal_strlit("delete.unknown");
            reveal_strlit("delete");
            reveal_strlit("unknown");
        },
    }
    assert(scenario.spec_name() =~= scenario.spec_operation().spec_word() + "."@
        + scenario.spec_branch().spec_outcome().spec_name());
}

/// No two mutation scenarios share a name, so the names of the scenarios in
/// `all_mutation_scenarios` are pairwise distinct.
pub proof fn law_mutation_names_distinct(first: MutationScenario, second: MutationScenario)
    ensures
        first.spec_name() == second.spec_name() ==> first == second,
        forall|i: int, j: int|
            0 <= i < 12 && 0 <= j < 12 && i != j ==> #[trigger] all_mutation_scenarios()[i].spec_name()
                != #[trigger] all_mutation_scenarios()[j].spec_name(),
{
    assert forall|x: MutationScenario, y: MutationScenario| #[trigger] x.spec_name() == #[trigger] y.spec_name()
        implies x == y by {
        reveal_strlit(".");
        lemma_word_and_label_initials(x);
        lemma_word_and_label_initials(y);
        law_mutation_name_joins_parts(x);
        law_mutation_name_joins_parts(y);
        let wx = x.spec_operation().spec_word();
        let wy = y.spec_operation().spec_word();
        assert(x.spec_name()[0] == wx[0]);
        assert(y.spec_name()[0] == wy[0]);
        assert(x.spec_operation() == y.spec_operation());
        assert(x.spec_name()[wx.len() as int + 1] == x.spec_branch().spec_outcome().spec_name()[0]);
        assert(y.spec_name()[wx.len() as int + 1] == y.spec_branch().spec_outcome().spec_name()[0]);
        assert(x.spec_branch() == y.spec_branch());
    }
    law_mutation_scenarios_cover_each_pair_once(MutationOperation::Register, Branch::Success);
}

proof fn lemma_word_and_label_initials(scenario: MutationScenario)
    ensures
        scenario.spec_operation().spec_word().len() > 0,
        scenario.spec_branch().spec_outcome().spec_name().len() > 0,
        scenario.spec_operation().spec_word()[0] == match scenario.spec_operation() {
            MutationOperation::Register => 'r',
            MutationOperation::Modify => 'm',
            MutationOperation::Delete => 'd',
        },
        scenario.spec_branch().spec_outcome().spec_name()[0] == match scenario.spec_branch() {
            Branch::Success => 's',
            Branch::NotApplied => 'n',
            Branch::Applied => 'a',
            Branch::Unknown => 'u',
        },
{
    match scenario.spec_operation() {
        MutationOperation::Register => reveal_strlit("register"),
        MutationOperation::Modify => reveal_strlit("modify"),
        MutationOperation::Delete => reveal_strlit("delete"),
    }
    match scenario.spec_branch() {
        Branch::Success => reveal_strlit("success"),
        Branch::NotApplied => reveal_strlit("not_applied"),
        Branch::Applied => reveal_strlit("applied"),
        Branch::Unknown => reveal_strlit("unknown"),
    }
}

/// Contract checkpoint that rejected a mutation observation.
#[derive(Clone, Copy, Debug, Eq, Hash, PartialEq, Structural)]
pub enum ConformanceCheck {
    /// The scripted poll or source fixture could not be created.
    Setup,
    /// Success and failure did not match the selected branch.
    Result,
    /// The error named another operation.
    Operation,
    /// The mutation reported another commit status.
    Commit,
    /// The underlying I/O error was not preserved.
    Source,
    /// Authoritative portable or scripted backend state diverged.
    State,
    /// A move-only registration was lost, invented, or replaced.
    Handle,
    /// A retained registration stopped consuming fixed capacity.
    CapacityRetention,
    /// A returned capability could not perform the required retry.
    Retry,
    /// Splitting an error lost one of its owned parts.
    IntoParts,
    /// The scripted backend observed missing, extra, or misordered calls.
    Script,
    /// A descriptor stayed retained after an applied deletion, so its
    /// replacement registration failed.
    DuplicateRetention,
}

impl ConformanceCheck {
    /// The checkpoint's stable diagnostic name.
    pub open spec fn spec_label(self) -> Seq<char> {
        match self {
            ConformanceCheck::Setup => "Setup"@,
            ConformanceCheck::Result => "Result"@,
            ConformanceCheck::Operation => "Operation"@,
            ConformanceCheck::Commit => "Commit"@,
            ConformanceCheck::Source => "Source"@,
            ConformanceCheck::State => "State"@,
            ConformanceCheck::Handle => "Handle"@,
            ConformanceCheck::CapacityRetention => "CapacityRetention"@,
            ConformanceCheck::Retry => "Retry"@,
            ConformanceCheck::IntoParts => "IntoParts"@,
            ConformanceCheck::Script => "Script"@,
            ConformanceCheck::DuplicateRetention => "DuplicateRetention"@,
        }
    }

    /// Returns the checkpoint's stable diagnostic name.
    pub fn label(self) -> (label: &'static str)
        ensures
            label@ == self.spec_label(),
    {
        match self {
            ConformanceCheck::Setup => "Setup",
            ConformanceCheck::Result => "Result",
            ConformanceCheck::Operation => "Operation",
            ConformanceCheck::Commit => "Commit",
            ConformanceCheck::Source => "Source",
            ConformanceCheck::State => "State",
            ConformanceCheck::Handle => "Handle",
            ConformanceCheck::CapacityRetention => "CapacityRetention",
            ConformanceCheck::Retry => "Retry",
            ConformanceCheck::IntoParts => "IntoParts",
            ConformanceCheck::Script => "Script",
            ConformanceCheck::DuplicateRetention => "DuplicateRetention",
        }
    }
}

/// One scenario failure with machine-readable location and human-readable values.
#[derive(Clone, Debug, Eq, PartialEq)]
pub struct ConformanceFailure {
    scenario: MutationScenario,
    check: ConformanceCheck,
    expected: String,
    actual: String,
}

impl ConformanceFailure {
    /// The failed scenario.
    pub closed spec fn spec_scenario(&self) -> MutationScenario {
        self.scenario
    }

    /// The failed checkpoint.
    pub closed spec fn spec_check(&self) -> ConformanceCheck {
        self.check
    }

    /// The expected observation.
    pub closed spec fn spec_expected(&self) -> Seq<char> {
        self.expected@
    }

    /// The actual observation.
    pub closed spec fn spec_actual(&self) -> Seq<char> {
        self.actual@
    }

    /// Creates a structured scenario failure.
    pub fn new(scenario: MutationScenario, check: ConformanceCheck, expected: String, actual: String) -> (failure: ConformanceFailure)
        ensures
            failure.spec_scenario() == scenario,
            failure.spec_check() == check,
            failure.spec_expected() == expected@,
            failure.spec_actual() == actual@,
    {
        ConformanceFailure { scenario, check, expected, actual }
    }

    /// Returns the failed scenario.
    pub fn scenario(&self) -> (scenario: MutationScenario)
        ensures
            scenario == self.spec_scenario(),
    {
        self.scenario
    }

    /// Returns the failed contract checkpoint.
    pub fn check(&self) -> (check: ConformanceCheck)
        ensures
            check == self.spec_check(),
    {
        self.check
    }

    /// Returns the expected observation.
    pub fn expected(&self) -> (expected: &str)
        ensures
            expected@ == self.spec_expected(),
    {
        self.expected.as_str()
    }

    /// Returns the actual observation.
    pub fn actual(&self) -> (actual: &str)
        ensures
            actual@ == self.spec_actual(),
    {
        self.actual.as_str()
    }

    /// The text form: scenario, checkpoint, expectation, and observation.
    pub open spec fn spec_text(&self) -> Seq<char> {
        self.spec_scenario().spec_name() + " failed "@ + self.spec_check().spec_label()
            + ": expected "@ + self.spec_expected() + ", observed "@ + self.spec_actual()
    }

    /// Returns the text form: scenario, checkpoint, expectation, and
    /// observation.
    pub fn to_text(&self) -> (text: String)
        ensures
            text@ == self.spec_text(),
    {
        let mut text = String::from_str(self.scenario.name());
        text.append(" failed ");
        text.append(self.check.label());
        text.append(": expected ");
        text.append(self.expected.as_str());
        text.append(", observed ");
        text.append(self.actual.as_str());
        text
    }
}

} // verus!
