//! Stable action vocabulary for bounded mutation-model sequences.

use vstd::prelude::*;

verus! {

/// Number of seeds in the deterministic corpus.
pub const CORPUS_SIZE: usize = 64;

/// Number of actions in each generated program.
pub const ACTION_LIMIT: usize = 64;

/// First corpus seed before scrambling.
pub const BASE_SEED: u64 = 0x5a10_5eed_0000_0001;

/// Golden-ratio increment of the SplitMix64 generator.
pub const SEED_GAMMA: u64 = 0x9e37_79b9_7f4a_7c15;

/// Curated seed covering every register, modify, and delete outcome.
pub const MODEL_SEQUENCE_OUTCOME_MATRIX_SEED: u64 = 0x93f8_3818_b027_780d;

/// Curated seed covering delivered one-shot disarm and explicit rearm.
pub const MODEL_SEQUENCE_DISARM_REARM_SEED: u64 = 0xffb3_6b94_4ca5_3a48;

/// Curated seed covering terminal generations, replacement, and stale probes.
pub const MODEL_SEQUENCE_STALE_REUSE_SEED: u64 = 0x2536_9410_a954_fafc;

/// Curated seed covering foreign-poller rejection without backend work.
pub const MODEL_SEQUENCE_WRONG_POLLER_SEED: u64 = 0x5da8_3ce4_73ec_3f07;

/// Stable curated seeds for focused replay in downstream tests.
pub fn model_sequence_sentinel_seeds() -> (seeds: [u64; 4])
    ensures
        seeds@ == seq![
            MODEL_SEQUENCE_OUTCOME_MATRIX_SEED,
            MODEL_SEQUENCE_DISARM_REARM_SEED,
            MODEL_SEQUENCE_STALE_REUSE_SEED,
            MODEL_SEQUENCE_WRONG_POLLER_SEED,
        ],
{
    let seeds = [
        MODEL_SEQUENCE_OUTCOME_MATRIX_SEED,
        MODEL_SEQUENCE_DISARM_REARM_SEED,
        MODEL_SEQUENCE_STALE_REUSE_SEED,
        MODEL_SEQUENCE_WRONG_POLLER_SEED,
    ];
    assert(seeds@ =~= seq![
        MODEL_SEQUENCE_OUTCOME_MATRIX_SEED,
        MODEL_SEQUENCE_DISARM_REARM_SEED,
        MODEL_SEQUENCE_STALE_REUSE_SEED,
        MODEL_SEQUENCE_WRONG_POLLER_SEED,
    ]);
    seeds
}

/// Caller-selected logical source marker of a registration.
#[derive(Clone, Copy, Debug, Eq, Hash, PartialEq, Structural)]
pub struct Key {
    /// The marker's value.
    pub value: u64,
}

impl Key {
    /// Creates a key.
    pub fn new(value: u64) -> (key: Key)
        ensures
            key.value == value,
    {
        Key { value }
    }

    /// Returns the key's value.
    pub fn get(self) -> (value: u64)
        ensures
            value == self.value,
    {
        self.value
    }
}

/// Requested readiness directions of a registration.
#[derive(Clone, Copy, Debug, Eq, Hash, PartialEq, Structural)]
pub struct InterestSet {
    /// Readable progress is requested.
    pub readable: bool,
    /// Writable progress is requested.
    pub writable: bool,
}

impl InterestSet {
    /// Readable interest.
    pub fn readable() -> (interest: InterestSet)
        ensures
            interest.readable && !interest.writable,
    {
        InterestSet { readable: true, writable: false }
    }

    /// Writable interest.
    pub fn writable() -> (interest: InterestSet)
        ensures
            !interest.readable && interest.writable,
    {
        InterestSet { readable: false, writable: true }
    }

    /// No interest; registrations and modifications reject it.
    pub fn empty() -> (interest: InterestSet)
        ensures
            !interest.readable && !interest.writable,
    {
        InterestSet { readable: false, writable: false }
    }

    /// The union of two interests.
    pub fn union(self, other: InterestSet) -> (joined: InterestSet)
        ensures
            joined.readable == (self.readable || other.readable),
            joined.writable == (self.writable || other.writable),
    {
        InterestSet { readable: self.readable || other.readable, writable: self.writable || other.writable }
    }

    /// The interest's stable label.
    pub open spec fn spec_name(self) -> Seq<char> {
        if self.readable && self.writable {
            "read_write"@
        } else if self.readable {
            "readable"@
        } else if self.writable {
            "writable"@
        } else {
            "empty"@
        }
    }

    /// Returns the interest's stable label.
    pub fn name(self) -> (name: &'static str)
        ensures
            name@ == self.spec_name(),
    {
        if self.readable && self.writable {
            "read_write"
        } else if self.readable {
            "readable"
        } else if self.writable {
            "writable"
        } else {
            "empty"
        }
    }
}

/// Readiness delivery mode of a registration.
#[derive(Clone, Copy, Debug, Eq, Hash, PartialEq, Structural)]
pub enum Mode {
    /// Deliver while the source stays ready.
    Level,
    /// Deliver once, then disarm until an explicit rearm.
    OneShot,
}

impl Mode {
    /// The mode's stable label.
    pub open spec fn spec_name(self) -> Seq<char> {
        match self {
            Mode::Level => "level"@,
            Mode::OneShot => "one_shot"@,
        }
    }

    /// Returns the mode's stable label.
    pub fn name(self) -> (name: &'static str)
        ensures
            name@ == self.spec_name(),
    {
        match self {
            Mode::Level => "level",
            Mode::OneShot => "one_shot",
        }
    }
}

/// Delivery eligibility of a registered source.
#[derive(Clone, Copy, Debug, Eq, Hash, PartialEq, Structural)]
pub enum ArmState {
    /// The registration may deliver.
    Armed,
    /// A one-shot registration delivered and awaits an explicit rearm.
    Disarmed,
}

/// What a failed mutation changed in the backend.
#[derive(Clone, Copy, Debug, Eq, Hash, PartialEq, Structural)]
pub enum CommitStatus {
    /// The mutation is proven not to have applied.
    NotApplied,
    /// The mutation applied before a later failure.
    Applied,
    /// The resulting backend state cannot be proven.
    Unknown,
}

/// One of the three registration mutations.
#[derive(Clone, Copy, Debug, Eq, Hash, PartialEq, Structural)]
pub enum Operation {
    /// Acquire and install a registration.
    Register,
    /// Replace registration configuration and rearm it.
    Modify,
    /// Remove and retire a registration.
    Delete,
}

/// Planned outcome of one scripted mutation.
#[derive(Clone, Copy, Debug, Eq, Hash, PartialEq, Structural)]
pub enum Outcome {
    /// The backend mutation succeeds.
    Success,
    /// The mutation fails and is proven not to have applied.
    NotApplied,
    /// The mutation applies before a later failure is reported.
    Applied,
    /// The resulting backend state cannot be proven.
    Unknown,
}

impl Outcome {
    /// The outcome's stable label.
    pub open spec fn spec_name(self) -> Seq<char> {
        match self {
            Outcome::Success => "success"@,
            Outcome::NotApplied => "not_applied"@,
            Outcome::Applied => "applied"@,
            Outcome::Unknown => "unknown"@,
        }
    }

    /// The outcome's position in the coverage matrix.
    pub open spec fn spec_index(self) -> nat {
        match self {
            Outcome::Success => 0,
            Outcome::NotApplied => 1,
            Outcome::Applied => 2,
            Outcome::Unknown => 3,
        }
    }

    /// The commit status of a failed outcome.
    pub open spec fn spec_commit(self) -> Option<CommitStatus> {
        match self {
            Outcome::Success => None,
            Outcome::NotApplied => Some(CommitStatus::NotApplied),
            Outcome::Applied => Some(CommitStatus::Applied),
            Outcome::Unknown => Some(CommitStatus::Unknown),
        }
    }

    /// Returns the outcome's stable label.
    pub fn name(self) -> (name: &'static str)
        ensures
            name@ == self.spec_name(),
    {
        match self {
            Outcome::Success => "success",
            Outcome::NotApplied => "not_applied",
            Outcome::Applied => "applied",
            Outcome::Unknown => "unknown",
        }
    }

    /// Returns the outcome's position in the coverage matrix.
    pub fn index(self) -> (index: usize)
        ensures
            index == self.spec_index(),
    {
        match self {
            Outcome::Success => 0,
            Outcome::NotApplied => 1,
            Outcome::Applied => 2,
            Outcome::Unknown => 3,
        }
    }

    /// Returns the commit status of a failed outcome.
    pub fn commit(self) -> (commit: Option<CommitStatus>)
        ensures
            commit == self.spec_commit(),
    {
        match self {
            Outcome::Success => None,
            Outcome::NotApplied => Some(CommitStatus::NotApplied),
            Outcome::Applied => Some(CommitStatus::Applied),
            Outcome::Unknown => Some(CommitStatus::Unknown),
        }
    }
}

/// One generated action.
#[derive(Clone, Copy, Debug, Eq, PartialEq, Structural)]
pub enum Action {
    /// Register a fresh source with a planned outcome.
    Register { outcome: Outcome, key: Key, interest: InterestSet, mode: Mode },
    /// Register with empty interest, which must be rejected before backend work.
    RegisterInvalid { key: Key, mode: Mode },
    /// Deliver and disarm an armed one-shot registration.
    Disarm,
    /// Replace the active registration's key without backend work.
    SetKey { key: Key },
    /// Modify the active registration with a planned outcome.
    Modify { outcome: Outcome, interest: InterestSet, mode: Mode },
    /// Modify with empty interest, which must be rejected before backend work.
    ModifyInvalid { mode: Mode },
    /// Delete the active registration with a planned outcome.
    Delete { outcome: Outcome },
    /// Probe a retired handle, which must be rejected as stale.
    ProbeStale,
    /// Probe the active handle through another poller.
    ProbeWrongPoller,
}

/// A scripted backend step that an action consumes.
#[derive(Clone, Copy, Debug, Eq, PartialEq, Structural)]
pub struct PlannedStep {
    /// The mutation the step answers.
    pub operation: Operation,
    /// The planned result.
    pub outcome: Outcome,
}

/// The scripted backend step an action consumes, if any.
pub open spec fn spec_planned_step(action: Action) -> Option<PlannedStep> {
    match action {
        Action::Register { outcome, .. } => Some(PlannedStep { operation: Operation::Register, outcome }),
        Action::Modify { outcome, .. } => Some(PlannedStep { operation: Operation::Modify, outcome }),
        Action::Delete { outcome } => Some(PlannedStep { operation: Operation::Delete, outcome }),
        _ => None,
    }
}

/// Returns the scripted backend step an action consumes: register, modify,
/// and delete consume one; rejected, delivery, key, and probe actions
/// consume none.
pub fn planned_step(action: Action) -> (step: Option<PlannedStep>)
    ensures
        step == spec_planned_step(action),
{
    match action {
        Action::Register { outcome, .. } => Some(PlannedStep { operation: Operation::Register, outcome }),
        Action::Modify { outcome, .. } => Some(PlannedStep { operation: Operation::Modify, outcome }),
        Action::Delete { outcome } => Some(PlannedStep { operation: Operation::Delete, outcome }),
        _ => None,
    }
}

/// The planned script of a program: the consumed steps in action order.
pub open spec fn spec_script(actions: Seq<Action>) -> Seq<PlannedStep>
    decreases actions.len(),
{
    if actions.len() == 0 {
        Seq::empty()
    } else {
        let before = spec_script(actions.drop_last());
        match spec_planned_step(actions.last()) {
            Some(step) => before.push(step),
            None => before,
        }
    }
}

/// Returns the planned script of a program.
pub fn script_for(actions: &Vec<Action>) -> (script: Vec<PlannedStep>)
    ensures
        script@ == spec_script(actions@),
{
    let mut script = Vec::new();
    let mut i: usize = 0;
    while i < actions.len()
        invariant
            i <= actions@.len(),
            script@ == spec_script(actions@.take(i as int)),
        decreases actions@.len() - i,
    {
        assert(actions@.take(i as int + 1).drop_last() =~= actions@.take(i as int));
        match planned_step(actions[i]) {
            Some(step) => script.push(step),
            None => {},
        }
        i = i + 1;
    }
    assert(actions@.take(i as int) =~= actions@);
    script
}


/// The SplitMix64 finalizer applied to `value`.
pub open spec fn spec_scramble(value: u64) -> u64 {
    let a = (value ^ (value >> 30u64)).wrapping_mul(0xbf58_476d_1ce4_e5b9u64);
    let b = (a ^ (a >> 27u64)).wrapping_mul(0x94d0_49bb_1331_11ebu64);
    b ^ (b >> 31u64)
}

/// Applies the SplitMix64 finalizer.
pub fn scramble(value: u64) -> (mixed: u64)
    ensures
        mixed == spec_scramble(value),
{
    let a = (value ^ (value >> 30u64)).wrapping_mul(0xbf58_476d_1ce4_e5b9u64);
    let b = (a ^ (a >> 27u64)).wrapping_mul(0x94d0_49bb_1331_11ebu64);
    b ^ (b >> 31u64)
}

/// Multiplying by an odd constant modulo 2^64 loses nothing: the multiplier
/// `factor` has the inverse `inverse`, with `factor * inverse == 1 + k * 2^64`.
proof fn lemma_mul_by_invertible(x: u64, factor: u64, inverse: u64, k: int)
    requires
        factor * inverse == 1 + k * 0x1_0000_0000_0000_0000int,
    ensures
        x.wrapping_mul(factor).wrapping_mul(inverse) == x,
{
    let m: int = 0x1_0000_0000_0000_0000int;
    let p: int = (x as int * factor as int) % m;
    assert(0 <= p < m) by {
        vstd::arithmetic::div_mod::lemma_mod_bound(x as int * factor as int, m);
    }
    assert(x.wrapping_mul(factor) as int == p);
    vstd::arithmetic::div_mod::lemma_mul_mod_noop_left(x as int * factor as int, inverse as int, m);
    vstd::arithmetic::mul::lemma_mul_is_associative(x as int, factor as int, inverse as int);
    vstd::arithmetic::mul::lemma_mul_is_distributive_add(x as int, 1, k * m);
    vstd::arithmetic::mul::lemma_mul_is_associative(x as int, k, m);
    vstd::arithmetic::mul::lemma_mul_is_commutative(x as int * k, m);
    vstd::arithmetic::div_mod::lemma_mod_multiples_vanish(x as int * k, x as int, m);
    vstd::arithmetic::div_mod::lemma_small_mod(x as nat, m as nat);
    assert((p * inverse as int) % m == x as int);
}

/// Scrambling zero gives zero, and no two values scramble to the same value:
/// each xor-shift step and each multiplication by an odd constant can be undone.
pub proof fn law_scramble_injective(a: u64, b: u64)
    ensures
        spec_scramble(0) == 0,
        spec_scramble(a) == spec_scramble(b) ==> a == b,
{
    assert(0u64 ^ (0u64 >> 30u64) == 0u64) by (bit_vector);
    assert(0u64 ^ (0u64 >> 27u64) == 0u64) by (bit_vector);
    assert(0u64 ^ (0u64 >> 31u64) == 0u64) by (bit_vector);
    assert(0u64.wrapping_mul(0xbf58_476d_1ce4_e5b9u64) == 0u64);
    assert(0u64.wrapping_mul(0x94d0_49bb_1331_11ebu64) == 0u64);
    let a1 = (a ^ (a >> 30u64)).wrapping_mul(0xbf58_476d_1ce4_e5b9u64);
    let b1 = (b ^ (b >> 30u64)).wrapping_mul(0xbf58_476d_1ce4_e5b9u64);
    let a2 = (a1 ^ (a1 >> 27u64)).wrapping_mul(0x94d0_49bb_1331_11ebu64);
    let b2 = (b1 ^ (b1 >> 27u64)).wrapping_mul(0x94d0_49bb_1331_11ebu64);
    if spec_scramble(a) == spec_scramble(b) {
        assert(a2 ^ (a2 >> 31u64) == b2 ^ (b2 >> 31u64));
        assert(a2 == b2) by (bit_vector)
            requires
                a2 ^ (a2 >> 31u64) == b2 ^ (b2 >> 31u64),
        ;
        lemma_mul_by_invertible(
            a1 ^ (a1 >> 27u64),
            0x94d0_49bb_1331_11ebu64,
            0x3196_42b2_d24d_8ec3u64,
            0x1cd3_36ed_a85f_1453int,
        );
        lemma_mul_by_invertible(
            b1 ^ (b1 >> 27u64),
            0x94d0_49bb_1331_11ebu64,
            0x3196_42b2_d24d_8ec3u64,
            0x1cd3_36ed_a85f_1453int,
        );
        assert(a1 ^ (a1 >> 27u64) == b1 ^ (b1 >> 27u64));
        assert(a1 == b1) by (bit_vector)
            requires
                a1 ^ (a1 >> 27u64) == b1 ^ (b1 >> 27u64),
        ;
        lemma_mul_by_invertible(
            a ^ (a >> 30u64),
            0xbf58_476d_1ce4_e5b9u64,
            0x96de_1b17_3f11_9089u64,
            0x70c3_bca7_8f27_f46cint,
        );
        lemma_mul_by_invertible(
            b ^ (b >> 30u64),
            0xbf58_476d_1ce4_e5b9u64,
            0x96de_1b17_3f11_9089u64,
            0x70c3_bca7_8f27_f46cint,
        );
        assert(a ^ (a >> 30u64) == b ^ (b >> 30u64));
        assert(a == b) by (bit_vector)
            requires
                a ^ (a >> 30u64) == b ^ (b >> 30u64),
        ;
    }
}

/// The seed of corpus entry `index`.
pub open spec fn spec_corpus_seed(index: u64) -> u64 {
    spec_scramble(BASE_SEED.wrapping_add(index).wrapping_add(SEED_GAMMA))
}

/// Returns the seed of corpus entry `index`.
pub fn corpus_seed(index: usize) -> (seed: u64)
    ensures
        seed == spec_corpus_seed(index as u64),
{
    scramble(BASE_SEED.wrapping_add(index as u64).wrapping_add(SEED_GAMMA))
}

/// The lower-case hexadecimal digit for `d`.
pub open spec fn hex_char(d: nat) -> char {
    if d < 10 {
        crate::text::digit_char(d)
    } else if d == 10 {
        'a'
    } else if d == 11 {
        'b'
    } else if d == 12 {
        'c'
    } else if d == 13 {
        'd'
    } else if d == 14 {
        'e'
    } else {
        'f'
    }
}

/// The nibble of `value` at position `i`, most significant first.
pub open spec fn nibble(value: u64, i: int) -> u64 {
    (value >> ((60 - 4 * i) as u64)) & 15u64
}

/// The sixteen-digit, zero-padded, lower-case hexadecimal text of `value`.
pub open spec fn hex16(value: u64) -> Seq<char> {
    Seq::new(16, |i: int| hex_char(nibble(value, i) as nat))
}

fn hex_text(d: u64) -> (text: &'static str)
    requires
        d < 16,
    ensures
        text@ == seq![hex_char(d as nat)],
{
    proof {
        reveal_strlit("0");
        reveal_strlit("1");
        reveal_strlit("2");
        reveal_strlit("3");
        reveal_strlit("4");
        reveal_strlit("5");
        reveal_strlit("6");
        reveal_strlit("7");
        reveal_strlit("8");
        reveal_strlit("9");
        reveal_strlit("a");
        reveal_strlit("b");
        reveal_strlit("c");
        reveal_strlit("d");
        reveal_strlit("e");
        reveal_strlit("f");
    }
    if d == 0 {
        "0"
    } else if d == 1 {
        "1"
    } else if d == 2 {
        "2"
    } else if d == 3 {
        "3"
    } else if d == 4 {
        "4"
    } else if d == 5 {
        "5"
    } else if d == 6 {
        "6"
    } else if d == 7 {
        "7"
    } else if d == 8 {
        "8"
    } else if d == 9 {
        "9"
    } else if d == 10 {
        "a"
    } else if d == 11 {
        "b"
    } else if d == 12 {
        "c"
    } else if d == 13 {
        "d"
    } else if d == 14 {
        "e"
    } else {
        "f"
    }
}

/// Appends the sixteen-digit hexadecimal text of `value`.
pub fn push_hex16(text: &mut String, value: u64)
    ensures
        final(text)@ == old(text)@ + hex16(value),
{
    let mut i: u64 = 0;
    while i < 16
        invariant
            i <= 16,
            text@ == old(text)@ + hex16(value).take(i as int),
        decreases 16 - i,
    {
        let shift: u64 = 60 - 4 * i;
        let d: u64 = (value >> shift) & 15u64;
        assert(d < 16) by (bit_vector)
            requires
                d == (value >> shift) & 15u64,
        ;
        let piece = hex_text(d);
        text.append(piece);
        assert(hex16(value).take(i as int + 1) =~= hex16(value).take(i as int).push(
            hex_char(nibble(value, i as int) as nat),
        ));
        i = i + 1;
    }
    assert(hex16(value).take(16) =~= hex16(value));
}

impl Action {
    /// The action's stable replay label.
    pub open spec fn spec_name(self) -> Seq<char> {
        match self {
            Action::Register { outcome, key, interest, mode } => "register."@ + outcome.spec_name()
                + "."@ + interest.spec_name() + "."@ + mode.spec_name() + ".key_"@ + hex16(
                key.value,
            ),
            Action::RegisterInvalid { key, mode } => "register.invalid_interest."@
                + mode.spec_name() + ".key_"@ + hex16(key.value),
            Action::Disarm => "delivery.disarm"@,
            Action::SetKey { key } => "set_key.key_"@ + hex16(key.value),
            Action::Modify { outcome, interest, mode } => "modify."@ + outcome.spec_name() + "."@
                + interest.spec_name() + "."@ + mode.spec_name(),
            Action::ModifyInvalid { mode } => "modify.invalid_interest."@ + mode.spec_name(),
            Action::Delete { outcome } => "delete."@ + outcome.spec_name(),
            Action::ProbeStale => "probe.stale"@,
            Action::ProbeWrongPoller => "probe.wrong_poller"@,
        }
    }

    /// Returns the action's stable replay label.
    pub fn name(self) -> (name: String)
        ensures
            name@ == self.spec_name(),
    {
        match self {
            Action::Register { outcome, key, interest, mode } => {
                let mut text = String::from_str("register.");
                text.append(outcome.name());
                text.append(".");
                text.append(interest.name());
                text.append(".");
                text.append(mode.name());
                text.append(".key_");
                push_hex16(&mut text, key.value);
                text
            },
            Action::RegisterInvalid { key, mode } => {
                let mut text = String::from_str("register.invalid_interest.");
                text.append(mode.name());
                text.append(".key_");
                push_hex16(&mut text, key.value);
                text
            },
            Action::Disarm => String::from_str("delivery.disarm"),
            Action::SetKey { key } => {
                let mut text = String::from_str("set_key.key_");
                push_hex16(&mut text, key.value);
                text
            },
            Action::Modify { outcome, interest, mode } => {
                let mut text = String::from_str("modify.");
                text.append(outcome.name());
                text.append(".");
                text.append(interest.name());
                text.append(".");
                text.append(mode.name());
                text
            },
            Action::ModifyInvalid { mode } => {
                let mut text = String::from_str("modify.invalid_interest.");
                text.append(mode.name());
                text
            },
            Action::Delete { outcome } => {
                let mut text = String::from_str("delete.");
                text.append(outcome.name());
                text
            },
            Action::ProbeStale => String::from_str("probe.stale"),
            Action::ProbeWrongPoller => String::from_str("probe.wrong_poller"),
        }
    }
}

} // verus!
