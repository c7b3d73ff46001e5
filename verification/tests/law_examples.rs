//! Concrete instances of the laws the library proves: the scramble
//! finalizer, the stable scenario names, and the replay of generated
//! programs from a vacant slot.

use std::collections::HashSet;

use zio_testkit::{
    corpus_seed, generate, scramble, Action, ArmState, Branch, Mode, MutationOperation,
    MutationScenario, Outcome, ReadinessScenario, CORPUS_SIZE,
};

#[test]
fn scramble_keeps_zero_and_keeps_values_apart() {
    assert_eq!(scramble(0), 0);
    assert_ne!(scramble(1), 0);
    let mixed: HashSet<u64> = (0..4096u64).map(scramble).collect();
    assert_eq!(mixed.len(), 4096);
    let seeds: HashSet<u64> = (0..CORPUS_SIZE).map(corpus_seed).collect();
    assert_eq!(seeds.len(), CORPUS_SIZE);
}

#[test]
fn readiness_names_are_distinct_and_shaped_by_mode() {
    let all = ReadinessScenario::all();
    let names: HashSet<&str> = all.iter().map(|scenario| scenario.name()).collect();
    assert_eq!(names.len(), 12);
    for scenario in all {
        let name = scenario.name();
        assert!(name.starts_with("readiness."), "{name}");
        assert_eq!(name.ends_with(".one_shot"), scenario.mode() == Mode::OneShot, "{name}");
        assert_eq!(name.ends_with(".level"), scenario.mode() == Mode::Level, "{name}");
    }
    assert_eq!(
        ReadinessScenario::UnixPendingEofReadableLevel.name(),
        "readiness.unix.pending_eof.readable.level"
    );
}

fn operation_word(operation: MutationOperation) -> &'static str {
    match operation {
        MutationOperation::Register => "register",
        MutationOperation::Modify => "modify",
        MutationOperation::Delete => "delete",
    }
}

fn branch_word(branch: Branch) -> &'static str {
    match branch {
        Branch::Success => "success",
        Branch::NotApplied => "not_applied",
        Branch::Applied => "applied",
        Branch::Unknown => "unknown",
    }
}

#[test]
fn mutation_names_join_operation_and_branch() {
    let all = MutationScenario::all();
    let names: HashSet<&str> = all.iter().map(|scenario| scenario.name()).collect();
    assert_eq!(names.len(), 12);
    for scenario in all {
        let joined = format!(
            "{}.{}",
            operation_word(scenario.operation()),
            branch_word(scenario.branch())
        );
        assert_eq!(scenario.name(), joined);
    }
    assert_eq!(MutationScenario::modify(Branch::Applied).name(), "modify.applied");
}

#[derive(Clone, Copy, PartialEq, Debug)]
enum Slot {
    Vacant,
    Registered(Mode, ArmState),
    Uncertain,
}

fn after_mutation(outcome: Outcome, mode: Mode, kept_on_not_applied: Slot) -> Slot {
    match outcome {
        Outcome::Success | Outcome::Applied => Slot::Registered(mode, ArmState::Armed),
        Outcome::NotApplied => kept_on_not_applied,
        Outcome::Unknown => Slot::Uncertain,
    }
}

#[test]
fn generated_programs_replay_from_a_vacant_slot() {
    for index in 0..CORPUS_SIZE {
        let program = generate(corpus_seed(index));
        assert!(matches!(
            program.actions[0],
            Action::Register { .. } | Action::RegisterInvalid { .. }
        ));
        let mut slot = Slot::Vacant;
        let mut retired = false;
        for action in program.actions {
            match action {
                Action::Register { outcome, mode, .. } => {
                    assert_eq!(slot, Slot::Vacant);
                    slot = after_mutation(outcome, mode, Slot::Vacant);
                }
                Action::RegisterInvalid { .. } => assert_eq!(slot, Slot::Vacant),
                Action::Disarm => {
                    assert_eq!(slot, Slot::Registered(Mode::OneShot, ArmState::Armed));
                    slot = Slot::Registered(Mode::OneShot, ArmState::Disarmed);
                }
                Action::Modify { outcome, mode, .. } => {
                    assert!(matches!(slot, Slot::Registered(..)));
                    slot = after_mutation(outcome, mode, slot);
                }
                Action::ModifyInvalid { .. } => assert!(matches!(slot, Slot::Registered(..))),
                Action::SetKey { .. } | Action::ProbeWrongPoller => assert_ne!(slot, Slot::Vacant),
                Action::Delete { outcome } => {
                    assert_ne!(slot, Slot::Vacant);
                    slot = match outcome {
                        Outcome::Success | Outcome::Applied => {
                            retired = true;
                            Slot::Vacant
                        }
                        Outcome::NotApplied => slot,
                        Outcome::Unknown => Slot::Uncertain,
                    };
                }
                Action::ProbeStale => assert!(retired),
            }
        }
    }
}
