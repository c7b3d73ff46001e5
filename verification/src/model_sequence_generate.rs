//! Dependency-free deterministic generation with explicit preconditions.

use vstd::prelude::*;

use crate::model_sequence::{
    spec_scramble, scramble, Action, ArmState, InterestSet, Key, Mode, Outcome, ACTION_LIMIT,
    SEED_GAMMA,
};
use crate::model_sequence_model::{
    spec_after_delete, spec_after_disarm, spec_after_modify, spec_after_register, Entry,
    RegistrationId, RegistrationState,
};
use crate::model_sequence_coverage::{
    set_bit, Coverage, DISARM, INVALID_MODIFY, INVALID_REGISTER, REARM, REUSE, SET_KEY_ARMED,
    SET_KEY_DISARMED, SET_KEY_UNCERTAIN, STALE, WRONG_POLLER,
};

verus! {

/// The registration slot as the generator tracks it.
#[derive(Clone, Copy, Debug, Eq, PartialEq, Structural)]
pub enum GeneratedState {
    /// No registration is active.
    Vacant,
    /// A registration is active and proven registered.
    Registered { mode: Mode, arm: ArmState },
    /// A registration is active but its backend state is uncertain.
    Uncertain,
}

/// The generator: SplitMix64 state, tracked slot, whether a registration
/// was retired, and the coverage generated so far.
#[derive(Clone, Copy, Debug)]
pub struct Generator {
    /// SplitMix64 state.
    pub random: u64,
    /// Tracked registration slot.
    pub state: GeneratedState,
    /// Whether a registration was retired.
    pub has_stale: bool,
    /// Coverage generated so far.
    pub coverage: Coverage,
}

/// The SplitMix64 state after one draw.
pub open spec fn advanced(random: u64) -> u64 {
    random.wrapping_add(SEED_GAMMA)
}

/// The generator after one draw, and the drawn value.
pub open spec fn spec_draw(g: Generator) -> (Generator, u64) {
    (Generator { random: advanced(g.random), ..g }, spec_scramble(advanced(g.random)))
}

/// The generator after choosing among `options`, and the choice.
pub open spec fn spec_choose(g: Generator, options: u64) -> (Generator, u64) {
    (spec_draw(g).0, spec_draw(g).1 % options)
}

/// The outcome of a choice among four.
pub open spec fn outcome_of(choice: u64) -> Outcome {
    if choice == 0 {
        Outcome::Success
    } else if choice == 1 {
        Outcome::NotApplied
    } else if choice == 2 {
        Outcome::Applied
    } else {
        Outcome::Unknown
    }
}

/// The interest of a choice among three.
pub open spec fn interest_of(choice: u64) -> InterestSet {
    if choice == 0 {
        InterestSet { readable: true, writable: false }
    } else if choice == 1 {
        InterestSet { readable: false, writable: true }
    } else {
        InterestSet { readable: true, writable: true }
    }
}

/// The mode of a choice among two.
pub open spec fn mode_of(choice: u64) -> Mode {
    if choice == 0 {
        Mode::Level
    } else {
        Mode::OneShot
    }
}

/// A generated registration: outcome, key, interest, then mode.
pub open spec fn spec_register(g: Generator) -> (Generator, Action) {
    let (g1, o) = spec_choose(g, 4);
    let (g2, k) = spec_draw(g1);
    let (g3, i) = spec_choose(g2, 3);
    let (g4, m) = spec_choose(g3, 2);
    (
        g4,
        Action::Register {
            outcome: outcome_of(o),
            key: Key { value: k },
            interest: interest_of(i),
            mode: mode_of(m),
        },
    )
}

/// A generated modification: outcome, interest, then mode.
pub open spec fn spec_modify(g: Generator) -> (Generator, Action) {
    let (g1, o) = spec_choose(g, 4);
    let (g2, i) = spec_choose(g1, 3);
    let (g3, m) = spec_choose(g2, 2);
    (g3, Action::Modify { outcome: outcome_of(o), interest: interest_of(i), mode: mode_of(m) })
}

/// A generated deletion.
pub open spec fn spec_delete(g: Generator) -> (Generator, Action) {
    let (g1, o) = spec_choose(g, 4);
    (g1, Action::Delete { outcome: outcome_of(o) })
}

/// A generated key change.
pub open spec fn spec_set_key(g: Generator) -> (Generator, Action) {
    let (g1, k) = spec_draw(g);
    (g1, Action::SetKey { key: Key { value: k } })
}

/// The general choice for a registered slot.
pub open spec fn spec_registered_choice(g: Generator) -> (Generator, Action) {
    let (g1, c) = spec_choose(g, 10);
    if c <= 2 {
        spec_modify(g1)
    } else if c <= 4 {
        spec_delete(g1)
    } else if c == 5 {
        (g1, Action::ProbeWrongPoller)
    } else if c == 6 {
        let (g2, m) = spec_choose(g1, 2);
        (g2, Action::ModifyInvalid { mode: mode_of(m) })
    } else if c == 7 {
        spec_set_key(g1)
    } else if g.has_stale {
        (g1, Action::ProbeStale)
    } else {
        spec_delete(g1)
    }
}

/// The action chosen for the generator's slot, before coverage is updated.
pub open spec fn spec_pick(g: Generator) -> (Generator, Action) {
    match g.state {
        GeneratedState::Vacant => {
            let (g1, c) = spec_choose(g, 6);
            if c == 0 {
                let (g2, k) = spec_draw(g1);
                let (g3, m) = spec_choose(g2, 2);
                (g3, Action::RegisterInvalid { key: Key { value: k }, mode: mode_of(m) })
            } else {
                spec_register(g1)
            }
        },
        GeneratedState::Registered { mode, arm } => {
            if mode == Mode::OneShot && arm == ArmState::Armed {
                let (g1, c) = spec_choose(g, 8);
                if c == 0 {
                    (g1, Action::Disarm)
                } else {
                    spec_registered_choice(g1)
                }
            } else if arm == ArmState::Disarmed {
                let (g1, c) = spec_choose(g, 4);
                if c == 0 {
                    spec_set_key(g1)
                } else {
                    spec_registered_choice(g1)
                }
            } else {
                spec_registered_choice(g)
            }
        },
        GeneratedState::Uncertain => {
            let (g1, c) = spec_choose(g, 8);
            if c <= 4 {
                spec_delete(g1)
            } else if c == 5 {
                (g1, Action::ProbeWrongPoller)
            } else if c == 6 {
                spec_set_key(g1)
            } else if g.has_stale {
                (g1, Action::ProbeStale)
            } else {
                spec_delete(g1)
            }
        },
    }
}

/// The coverage after marking `flag`.
pub open spec fn with_flag(c: Coverage, flag: u16) -> Coverage {
    Coverage::spec_of(
        c.spec_register(),
        c.spec_modify(),
        c.spec_modify_with_key(),
        c.spec_delete(),
        c.spec_special() | flag,
    )
}

/// The slot after a retaining or releasing mutation outcome.
pub open spec fn after_outcome(state: GeneratedState, outcome: Outcome, mode: Mode) -> GeneratedState {
    match outcome {
        Outcome::Success | Outcome::Applied => GeneratedState::Registered { mode, arm: ArmState::Armed },
        Outcome::NotApplied => state,
        Outcome::Unknown => GeneratedState::Uncertain,
    }
}

/// The generator after it observes its own action.
pub open spec fn spec_observe(g: Generator, action: Action) -> Generator {
    match action {
        Action::Register { outcome, mode, .. } => {
            let c1 = Coverage::spec_of(
                set_bit(g.coverage.spec_register(), outcome.spec_index()),
                g.coverage.spec_modify(),
                g.coverage.spec_modify_with_key(),
                g.coverage.spec_delete(),
                g.coverage.spec_special(),
            );
            let c2 = if g.has_stale && outcome != Outcome::NotApplied {
                with_flag(c1, REUSE)
            } else {
                c1
            };
            let state = match outcome {
                Outcome::NotApplied => GeneratedState::Vacant,
                _ => after_outcome(g.state, outcome, mode),
            };
            Generator { state, coverage: c2, ..g }
        },
        Action::RegisterInvalid { .. } => Generator { coverage: with_flag(g.coverage, INVALID_REGISTER), ..g },
        Action::Disarm => {
            let state = match g.state {
                GeneratedState::Registered { mode, .. } => GeneratedState::Registered {
                    mode,
                    arm: ArmState::Disarmed,
                },
                other => other,
            };
            Generator { state, coverage: with_flag(g.coverage, DISARM), ..g }
        },
        Action::SetKey { .. } => {
            let coverage = match g.state {
                GeneratedState::Registered { arm: ArmState::Armed, .. } => with_flag(g.coverage, SET_KEY_ARMED),
                GeneratedState::Registered { arm: ArmState::Disarmed, .. } => with_flag(g.coverage, SET_KEY_DISARMED),
                GeneratedState::Uncertain => with_flag(g.coverage, SET_KEY_UNCERTAIN),
                GeneratedState::Vacant => g.coverage,
            };
            Generator { coverage, ..g }
        },
        Action::Modify { outcome, mode, .. } => {
            let c1 = Coverage::spec_of(
                g.coverage.spec_register(),
                set_bit(g.coverage.spec_modify(), outcome.spec_index()),
                g.coverage.spec_modify_with_key(),
                g.coverage.spec_delete(),
                g.coverage.spec_special(),
            );
            let rearm = (g.state matches GeneratedState::Registered { arm: ArmState::Disarmed, .. })
                && (outcome == Outcome::Success || outcome == Outcome::Applied);
            let c2 = if rearm { with_flag(c1, REARM) } else { c1 };
            Generator { state: after_outcome(g.state, outcome, mode), coverage: c2, ..g }
        },
        Action::ModifyInvalid { .. } => Generator { coverage: with_flag(g.coverage, INVALID_MODIFY), ..g },
        Action::Delete { outcome } => {
            let c1 = Coverage::spec_of(
                g.coverage.spec_register(),
                g.coverage.spec_modify(),
                g.coverage.spec_modify_with_key(),
                set_bit(g.coverage.spec_delete(), outcome.spec_index()),
                g.coverage.spec_special(),
            );
            let retires = outcome == Outcome::Success || outcome == Outcome::Applied;
            let state = if retires {
                GeneratedState::Vacant
            } else if outcome == Outcome::Unknown {
                GeneratedState::Uncertain
            } else {
                g.state
            };
            Generator { state, has_stale: g.has_stale || retires, coverage: c1, ..g }
        },
        Action::ProbeStale => Generator { coverage: with_flag(g.coverage, STALE), ..g },
        Action::ProbeWrongPoller => Generator { coverage: with_flag(g.coverage, WRONG_POLLER), ..g },
    }
}

/// The generator after one action, and the action.
#[verifier::opaque]
pub open spec fn spec_next(g: Generator) -> (Generator, Action) {
    let (g1, action) = spec_pick(g);
    (spec_observe(g1, action), action)
}

/// The fresh generator of a seed.
pub open spec fn spec_start(seed: u64) -> Generator {
    Generator {
        random: seed,
        state: GeneratedState::Vacant,
        has_stale: false,
        coverage: Coverage::spec_of(0, 0, 0, 0, 0),
    }
}

/// The generator after `n` actions from `seed`, and those actions.
pub open spec fn spec_run(seed: u64, n: nat) -> (Generator, Seq<Action>)
    decreases n,
{
    if n == 0 {
        (spec_start(seed), Seq::empty())
    } else {
        let (g, actions) = spec_run(seed, (n - 1) as nat);
        let (g1, action) = spec_next(g);
        (g1, actions.push(action))
    }
}

/// A generated program and the coverage it generated.
#[derive(Clone, Debug)]
pub struct GeneratedProgram {
    /// The generated actions in order.
    pub actions: Vec<Action>,
    /// The transition classes the actions cover.
    pub coverage: Coverage,
}

impl Generator {
    fn draw(&mut self) -> (value: u64)
        ensures
            (*final(self), value) == spec_draw(*old(self)),
    {
        self.random = self.random.wrapping_add(SEED_GAMMA);
        scramble(self.random)
    }

    fn pick_among(&mut self, options: u64) -> (choice: u64)
        requires
            options > 0,
        ensures
            (*final(self), choice) == spec_choose(*old(self), options),
            choice < options,
    {
        self.draw() % options
    }

    fn outcome(&mut self) -> (outcome: Outcome)
        ensures
            *final(self) == spec_choose(*old(self), 4).0,
            outcome == outcome_of(spec_choose(*old(self), 4).1),
    {
        let c = self.pick_among(4);
        if c == 0 {
            Outcome::Success
        } else if c == 1 {
            Outcome::NotApplied
        } else if c == 2 {
            Outcome::Applied
        } else {
            Outcome::Unknown
        }
    }

    fn interest(&mut self) -> (interest: InterestSet)
        ensures
            *final(self) == spec_choose(*old(self), 3).0,
            interest == interest_of(spec_choose(*old(self), 3).1),
    {
        let c = self.pick_among(3);
        if c == 0 {
            InterestSet::readable()
        } else if c == 1 {
            InterestSet::writable()
        } else {
            InterestSet::readable().union(InterestSet::writable())
        }
    }

    fn mode(&mut self) -> (mode: Mode)
        ensures
            *final(self) == spec_choose(*old(self), 2).0,
            mode == mode_of(spec_choose(*old(self), 2).1),
    {
        let c = self.pick_among(2);
        if c == 0 {
            Mode::Level
        } else {
            Mode::OneShot
        }
    }

    fn register(&mut self) -> (action: Action)
        ensures
            (*final(self), action) == spec_register(*old(self)),
    {
        let outcome = self.outcome();
        let key = Key::new(self.draw());
        let interest = self.interest();
        let mode = self.mode();
        Action::Register { outcome, key, interest, mode }
    }

    fn modify(&mut self) -> (action: Action)
        ensures
            (*final(self), action) == spec_modify(*old(self)),
    {
        let outcome = self.outcome();
        let interest = self.interest();
        let mode = self.mode();
        Action::Modify { outcome, interest, mode }
    }

    fn delete(&mut self) -> (action: Action)
        ensures
            (*final(self), action) == spec_delete(*old(self)),
    {
        let outcome = self.outcome();
        Action::Delete { outcome }
    }

    fn set_key(&mut self) -> (action: Action)
        ensures
            (*final(self), action) == spec_set_key(*old(self)),
    {
        let key = Key::new(self.draw());
        Action::SetKey { key }
    }

    fn registered_choice(&mut self) -> (action: Action)
        ensures
            (*final(self), action) == spec_registered_choice(*old(self)),
    {
        let has_stale = self.has_stale;
        let c = self.pick_among(10);
        if c <= 2 {
            self.modify()
        } else if c <= 4 {
            self.delete()
        } else if c == 5 {
            Action::ProbeWrongPoller
        } else if c == 6 {
            let mode = self.mode();
            Action::ModifyInvalid { mode }
        } else if c == 7 {
            self.set_key()
        } else if has_stale {
            Action::ProbeStale
        } else {
            self.delete()
        }
    }

    fn pick(&mut self) -> (action: Action)
        ensures
            (*final(self), action) == spec_pick(*old(self)),
    {
        match self.state {
            GeneratedState::Vacant => {
                let c = self.pick_among(6);
                if c == 0 {
                    let key = Key::new(self.draw());
                    let mode = self.mode();
                    Action::RegisterInvalid { key, mode }
                } else {
                    self.register()
                }
            },
            GeneratedState::Registered { mode, arm } => {
                if mode == Mode::OneShot && arm == ArmState::Armed {
                    let c = self.pick_among(8);
                    if c == 0 {
                        Action::Disarm
                    } else {
                        self.registered_choice()
                    }
                } else if arm == ArmState::Disarmed {
                    let c = self.pick_among(4);
                    if c == 0 {
                        self.set_key()
                    } else {
                        self.registered_choice()
                    }
                } else {
                    self.registered_choice()
                }
            },
            GeneratedState::Uncertain => {
                let has_stale = self.has_stale;
                let c = self.pick_among(8);
                if c <= 4 {
                    self.delete()
                } else if c == 5 {
                    Action::ProbeWrongPoller
                } else if c == 6 {
                    self.set_key()
                } else if has_stale {
                    Action::ProbeStale
                } else {
                    self.delete()
                }
            },
        }
    }
}


impl Generator {
    fn observe(&mut self, action: Action)
        ensures
            *final(self) == spec_observe(*old(self), action),
    {
        broadcast use Coverage::lemma_spec_of, Coverage::lemma_parts_determine;

        match action {
            Action::Register { outcome, mode, .. } => {
                self.coverage.mark_register(outcome.index());
                if self.has_stale && outcome != Outcome::NotApplied {
                    self.coverage.mark(REUSE);
                }
                self.state = match outcome {
                    Outcome::Success | Outcome::Applied => GeneratedState::Registered {
                        mode,
                        arm: ArmState::Armed,
                    },
                    Outcome::NotApplied => GeneratedState::Vacant,
                    Outcome::Unknown => GeneratedState::Uncertain,
                };
            },
            Action::RegisterInvalid { .. } => self.coverage.mark(INVALID_REGISTER),
            Action::Disarm => {
                self.coverage.mark(DISARM);
                match self.state {
                    GeneratedState::Registered { mode, .. } => {
                        self.state = GeneratedState::Registered { mode, arm: ArmState::Disarmed };
                    },
                    _ => {},
                }
            },
            Action::SetKey { .. } => match self.state {
                GeneratedState::Registered { arm: ArmState::Armed, .. } => self.coverage.mark(
                    SET_KEY_ARMED,
                ),
                GeneratedState::Registered { arm: ArmState::Disarmed, .. } => self.coverage.mark(
                    SET_KEY_DISARMED,
                ),
                GeneratedState::Uncertain => self.coverage.mark(SET_KEY_UNCERTAIN),
                GeneratedState::Vacant => {},
            },
            Action::Modify { outcome, mode, .. } => {
                self.coverage.mark_modify(outcome.index());
                let disarmed = match self.state {
                    GeneratedState::Registered { arm: ArmState::Disarmed, .. } => true,
                    _ => false,
                };
                if disarmed && (outcome == Outcome::Success || outcome == Outcome::Applied) {
                    self.coverage.mark(REARM);
                }
                self.state = match outcome {
                    Outcome::Success | Outcome::Applied => GeneratedState::Registered {
                        mode,
                        arm: ArmState::Armed,
                    },
                    Outcome::NotApplied => self.state,
                    Outcome::Unknown => GeneratedState::Uncertain,
                };
            },
            Action::ModifyInvalid { .. } => self.coverage.mark(INVALID_MODIFY),
            Action::Delete { outcome } => {
                self.coverage.mark_delete(outcome.index());
                self.state = match outcome {
                    Outcome::Success | Outcome::Applied => {
                        self.has_stale = true;
                        GeneratedState::Vacant
                    },
                    Outcome::NotApplied => self.state,
                    Outcome::Unknown => GeneratedState::Uncertain,
                };
            },
            Action::ProbeStale => self.coverage.mark(STALE),
            Action::ProbeWrongPoller => self.coverage.mark(WRONG_POLLER),
        }
    }

    fn next_action(&mut self) -> (action: Action)
        ensures
            (*final(self), action) == spec_next(*old(self)),
    {
        let action = self.pick();
        self.observe(action);
        proof {
            reveal(spec_next);
        }
        action
    }
}

/// Generates the bounded program of `seed`: `ACTION_LIMIT` actions and the
/// coverage they generate.
pub fn generate(seed: u64) -> (program: GeneratedProgram)
    ensures
        program.actions@ == spec_run(seed, ACTION_LIMIT as nat).1,
        program.coverage == spec_run(seed, ACTION_LIMIT as nat).0.coverage,
{
    let mut generator = Generator {
        random: seed,
        state: GeneratedState::Vacant,
        has_stale: false,
        coverage: Coverage::new(),
    };
    let mut actions: Vec<Action> = Vec::new();
    let mut i: usize = 0;
    while i < ACTION_LIMIT
        invariant
            i <= ACTION_LIMIT,
            (generator, actions@) == spec_run(seed, i as nat),
        decreases ACTION_LIMIT - i,
    {
        let action = generator.next_action();
        actions.push(action);
        i = i + 1;
    }
    GeneratedProgram { actions, coverage: generator.coverage }
}


/// Whether `action` respects the reference model's precondition in the
/// tracked slot: registrations need a vacant slot; disarm needs an armed
/// one-shot registration; modifications need a proven registered slot; key
/// changes, deletions, and wrong-poller probes need an active handle; stale
/// probes need a retired handle.
pub open spec fn action_enabled(state: GeneratedState, has_stale: bool, action: Action) -> bool {
    match action {
        Action::Register { .. } | Action::RegisterInvalid { .. } => state == GeneratedState::Vacant,
        Action::Disarm => state == GeneratedState::Registered {
            mode: Mode::OneShot,
            arm: ArmState::Armed,
        },
        Action::Modify { .. } | Action::ModifyInvalid { .. } => state is Registered,
        Action::SetKey { .. } | Action::Delete { .. } | Action::ProbeWrongPoller => state
            != GeneratedState::Vacant,
        Action::ProbeStale => has_stale,
    }
}

proof fn lemma_pick_enabled(g: Generator)
    ensures
        action_enabled(g.state, g.has_stale, spec_pick(g).1),
{
}

proof fn lemma_run_prefix(seed: u64, n: nat, i: nat)
    requires
        i < n,
    ensures
        spec_run(seed, n).1.len() == n,
        spec_run(seed, n).1[i as int] == spec_next(spec_run(seed, i).0).1,
    decreases n,
{
    lemma_run_len(seed, (n - 1) as nat);
    if n == i + 1 {
    } else {
        lemma_run_prefix(seed, (n - 1) as nat, i);
    }
}

proof fn lemma_run_len(seed: u64, n: nat)
    ensures
        spec_run(seed, n).1.len() == n,
    decreases n,
{
    if n > 0 {
        lemma_run_len(seed, (n - 1) as nat);
    }
}

/// Every generated program respects the reference model's preconditions:
/// each action is enabled in the slot the generator tracks before it.
pub proof fn law_generated_actions_respect_preconditions(seed: u64, n: nat)
    ensures
        spec_run(seed, n).1.len() == n,
        forall|i: nat|
            i < n ==> action_enabled(
                #[trigger] spec_run(seed, i).0.state,
                spec_run(seed, i).0.has_stale,
                spec_run(seed, n).1[i as int],
            ),
{
    lemma_run_len(seed, n);
    assert forall|i: nat| i < n implies action_enabled(
        #[trigger] spec_run(seed, i).0.state,
        spec_run(seed, i).0.has_stale,
        spec_run(seed, n).1[i as int],
    ) by {
        lemma_run_prefix(seed, n, i);
        lemma_pick_enabled(spec_run(seed, i).0);
        reveal(spec_next);
    }
}

/// The slot after `action`, replayed from `state` the way the reference
/// model moves its active entry: a successful or applied registration or
/// modification holds an armed registration in the requested mode, a
/// not-applied registration leaves the slot vacant, a not-applied
/// modification or deletion keeps it, an unknown outcome makes it
/// uncertain, a successful or applied deletion vacates it, and a disarm
/// disarms the registration.
pub open spec fn slot_after(state: GeneratedState, action: Action) -> GeneratedState {
    match action {
        Action::Register { outcome, mode, .. } => match outcome {
            Outcome::Success | Outcome::Applied => GeneratedState::Registered { mode, arm: ArmState::Armed },
            Outcome::NotApplied => GeneratedState::Vacant,
            Outcome::Unknown => GeneratedState::Uncertain,
        },
        Action::Modify { outcome, mode, .. } => after_outcome(state, outcome, mode),
        Action::Delete { outcome } => match outcome {
            Outcome::Success | Outcome::Applied => GeneratedState::Vacant,
            Outcome::NotApplied => state,
            Outcome::Unknown => GeneratedState::Uncertain,
        },
        Action::Disarm => match state {
            GeneratedState::Registered { mode, .. } => GeneratedState::Registered {
                mode,
                arm: ArmState::Disarmed,
            },
            other => other,
        },
        _ => state,
    }
}

/// Whether `action` is a deletion that retired its handle.
pub open spec fn retires(action: Action) -> bool {
    action matches Action::Delete { outcome } && (outcome == Outcome::Success || outcome
        == Outcome::Applied)
}

/// The slot after replaying `actions` from a vacant slot.
pub open spec fn replay_slot(actions: Seq<Action>) -> GeneratedState
    decreases actions.len(),
{
    if actions.len() == 0 {
        GeneratedState::Vacant
    } else {
        slot_after(replay_slot(actions.drop_last()), actions.last())
    }
}

/// Whether some deletion among `actions` retired its handle.
pub open spec fn replay_retired(actions: Seq<Action>) -> bool {
    exists|j: int| 0 <= j < actions.len() && retires(#[trigger] actions[j])
}

proof fn lemma_retired_push(actions: Seq<Action>, action: Action)
    ensures
        replay_retired(actions.push(action)) == (replay_retired(actions) || retires(action)),
{
    let pushed = actions.push(action);
    if replay_retired(actions) {
        let j = choose|j: int| 0 <= j < actions.len() && retires(#[trigger] actions[j]);
        assert(pushed[j] == actions[j]);
    }
    if retires(action) {
        assert(pushed[actions.len() as int] == action);
    }
    if replay_retired(pushed) {
        let j = choose|j: int| 0 <= j < pushed.len() && retires(#[trigger] pushed[j]);
        if j < actions.len() {
            assert(pushed[j] == actions[j]);
        }
    }
}

proof fn lemma_run_replays(seed: u64, n: nat)
    ensures
        spec_run(seed, n).0.state == replay_slot(spec_run(seed, n).1),
        spec_run(seed, n).0.has_stale == replay_retired(spec_run(seed, n).1),
    decreases n,
{
    if n > 0 {
        lemma_run_replays(seed, (n - 1) as nat);
        let (g, actions) = spec_run(seed, (n - 1) as nat);
        let (g1, action) = spec_pick(g);
        reveal(spec_next);
        assert(g1.state == g.state && g1.has_stale == g.has_stale);
        assert(actions.push(action).drop_last() =~= actions);
        lemma_retired_push(actions, action);
    }
}

proof fn lemma_run_take(seed: u64, n: nat, i: nat)
    requires
        i <= n,
    ensures
        spec_run(seed, n).1.take(i as int) == spec_run(seed, i).1,
    decreases n,
{
    lemma_run_len(seed, n);
    lemma_run_len(seed, i);
    if i < n {
        lemma_run_take(seed, (n - 1) as nat, i);
        lemma_run_len(seed, (n - 1) as nat);
        reveal(spec_next);
        assert(spec_run(seed, n).1.take(i as int) =~= spec_run(seed, (n - 1) as nat).1.take(i as int));
    } else {
        assert(spec_run(seed, n).1.take(i as int) =~= spec_run(seed, n).1);
    }
}

/// Replayed from a vacant slot, every generated program respects the
/// reference model's preconditions: its first action is a registration,
/// valid or not; registrations come only while the slot is vacant; a
/// disarm only for an armed one-shot registration; modifications only
/// while a registration is proven; key changes, deletions, and
/// wrong-poller probes only while a handle is active; and stale probes only
/// after an earlier deletion that succeeded or applied.
pub proof fn law_generated_program_replays_from_vacant(seed: u64, n: nat)
    ensures
        spec_run(seed, n).1.len() == n,
        n > 0 ==> (spec_run(seed, n).1[0] is Register || spec_run(seed, n).1[0] is RegisterInvalid),
        forall|i: int|
            0 <= i < n ==> action_enabled(
                replay_slot(#[trigger] spec_run(seed, n).1.take(i)),
                replay_retired(spec_run(seed, n).1.take(i)),
                spec_run(seed, n).1[i],
            ),
{
    law_generated_actions_respect_preconditions(seed, n);
    assert forall|i: int| 0 <= i < n implies action_enabled(
        replay_slot(#[trigger] spec_run(seed, n).1.take(i)),
        replay_retired(spec_run(seed, n).1.take(i)),
        spec_run(seed, n).1[i],
    ) by {
        lemma_run_take(seed, n, i as nat);
        lemma_run_replays(seed, i as nat);
        assert(action_enabled(
            spec_run(seed, i as nat).0.state,
            spec_run(seed, i as nat).0.has_stale,
            spec_run(seed, n).1[i],
        ));
    }
    if n > 0 {
        let first = spec_run(seed, n).1[0];
        assert(spec_run(seed, n).1.take(0) =~= Seq::<Action>::empty());
        assert(action_enabled(
            replay_slot(spec_run(seed, n).1.take(0)),
            replay_retired(spec_run(seed, n).1.take(0)),
            first,
        ));
    }
}

/// The tracked slot follows each action the way the reference model does:
/// a successful or applied registration or modification leaves a registered,
/// armed slot in the requested mode; a not-applied modification or deletion
/// leaves the slot as it was; an unknown outcome leaves it uncertain; a
/// successful or applied deletion vacates it and records a retired handle;
/// a disarm disarms it; key changes, rejected requests, and probes leave it
/// unchanged.
pub proof fn law_generator_slot_follows_outcomes(g: Generator, action: Action)
    requires
        action_enabled(g.state, g.has_stale, action),
    ensures
        spec_observe(g, action).state == match action {
            Action::Register { outcome, mode, .. } => match outcome {
                Outcome::Success | Outcome::Applied => GeneratedState::Registered {
                    mode,
                    arm: ArmState::Armed,
                },
                Outcome::NotApplied => GeneratedState::Vacant,
                Outcome::Unknown => GeneratedState::Uncertain,
            },
            Action::Modify { outcome, mode, .. } => match outcome {
                Outcome::Success | Outcome::Applied => GeneratedState::Registered {
                    mode,
                    arm: ArmState::Armed,
                },
                Outcome::NotApplied => g.state,
                Outcome::Unknown => GeneratedState::Uncertain,
            },
            Action::Delete { outcome } => match outcome {
                Outcome::Success | Outcome::Applied => GeneratedState::Vacant,
                Outcome::NotApplied => g.state,
                Outcome::Unknown => GeneratedState::Uncertain,
            },
            Action::Disarm => GeneratedState::Registered {
                mode: Mode::OneShot,
                arm: ArmState::Disarmed,
            },
            _ => g.state,
        },
        spec_observe(g, action).has_stale == (g.has_stale || (action matches Action::Delete {
            outcome,
        } && (outcome == Outcome::Success || outcome == Outcome::Applied))),
        spec_observe(g, action).random == g.random,
{
}

/// The slot the generator tracks for the reference model's active entry.
pub open spec fn slot_of(active: Option<Entry>) -> GeneratedState {
    match active {
        None => GeneratedState::Vacant,
        Some(entry) => match entry.state {
            RegistrationState::Registered { arm } => GeneratedState::Registered { mode: entry.mode, arm },
            RegistrationState::Uncertain => GeneratedState::Uncertain,
        },
    }
}

/// Generated programs keep in step with the reference model: when the
/// generator's slot is the model's active entry seen from outside, every
/// action the generator emits meets the model's precondition for it, and
/// after the model completes the action the generator's next slot is again
/// the model's entry seen from outside.
pub proof fn law_generator_tracks_reference_model(
    g: Generator,
    active: Option<Entry>,
    action: Action,
    fresh: RegistrationId,
)
    requires
        slot_of(active) == g.state,
        action_enabled(g.state, g.has_stale, action),
    ensures
        match action {
            Action::Register { outcome, key, interest, mode } => active is None && slot_of(
                spec_after_register(outcome, fresh, key, interest, mode),
            ) == spec_observe(g, action).state,
            Action::RegisterInvalid { .. } => active is None && slot_of(active) == spec_observe(
                g,
                action,
            ).state,
            Action::Disarm => active matches Some(entry) && entry.mode == Mode::OneShot && entry.state
                == (RegistrationState::Registered { arm: ArmState::Armed }) && slot_of(
                Some(spec_after_disarm(entry)),
            ) == spec_observe(g, action).state,
            Action::SetKey { key } => active matches Some(entry) && slot_of(Some(Entry { key, ..entry }))
                == spec_observe(g, action).state,
            Action::Modify { outcome, interest, mode } => active matches Some(entry) && entry.state
                is Registered && slot_of(Some(spec_after_modify(entry, outcome, None, interest, mode)))
                == spec_observe(g, action).state,
            Action::ModifyInvalid { .. } => active matches Some(entry) && entry.state is Registered
                && slot_of(active) == spec_observe(g, action).state,
            Action::Delete { outcome } => active matches Some(entry) && slot_of(
                spec_after_delete(entry, outcome),
            ) == spec_observe(g, action).state,
            Action::ProbeWrongPoller => active is Some && slot_of(active) == spec_observe(g, action).state,
            Action::ProbeStale => slot_of(active) == spec_observe(g, action).state,
        },
{
}

} // verus!
