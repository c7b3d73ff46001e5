//! Vendor-neutral readiness observations and contract policy.

use vstd::prelude::*;

verus! {

/// Vendor-neutral readiness hints, held as a set of six flag bits.
#[derive(Clone, Copy, Debug, Default, Eq, Hash, PartialEq, Structural)]
pub struct Observation {
    bits: u8,
}

/// Every hint bit that the vocabulary defines.
pub open spec fn known_bits() -> u8 {
    0x3f
}

/// The hint set holding exactly `bits`.
pub closed spec fn observation_of(bits: u8) -> Observation {
    Observation { bits }
}

/// The hint set of `observation_of(bits)` holds exactly `bits`, and hint
/// sets with the same bits are equal.
pub broadcast proof fn lemma_observation_of_bits(bits: u8)
    ensures
        #[trigger] observation_of(bits).bits() == bits,
{
}

/// Hint sets are determined by their bits.
pub broadcast proof fn lemma_observation_bits_determine(observation: Observation)
    ensures
        #[trigger] observation_of(observation.bits()) == observation,
{
}

impl Observation {
    /// No hints.
    pub fn empty() -> (flag: Observation)
        ensures
            flag.bits() == 0,
    {
        Observation { bits: 0 }
    }

    /// A read may make progress.
    pub fn readable() -> (flag: Observation)
        ensures
            flag.bits() == 1,
    {
        Observation { bits: 1 }
    }

    /// A write may make progress.
    pub fn writable() -> (flag: Observation)
        ensures
            flag.bits() == 2,
    {
        Observation { bits: 2 }
    }

    /// The readable direction reported a terminal condition.
    pub fn read_closed() -> (flag: Observation)
        ensures
            flag.bits() == 4,
    {
        Observation { bits: 4 }
    }

    /// The writable direction reported a terminal condition.
    pub fn write_closed() -> (flag: Observation)
        ensures
            flag.bits() == 8,
    {
        Observation { bits: 8 }
    }

    /// A resource error was reported.
    pub fn error() -> (flag: Observation)
        ensures
            flag.bits() == 16,
    {
        Observation { bits: 16 }
    }

    /// A direction-neutral interruption or hangup was reported.
    pub fn interrupt() -> (flag: Observation)
        ensures
            flag.bits() == 32,
    {
        Observation { bits: 32 }
    }

    /// The flag bits of this hint set.
    pub closed spec fn bits(self) -> u8 {
        self.bits
    }

    /// Whether every flag of `other` is present in `self`.
    pub open spec fn spec_contains(self, other: Observation) -> bool {
        self.bits() & other.bits() == other.bits()
    }

    /// Whether some flag of `other` is present in `self`.
    pub open spec fn spec_intersects(self, other: Observation) -> bool {
        self.bits() & other.bits() != 0
    }

    /// The hint set holding exactly `bits`.
    pub fn from_bits(bits: u8) -> (observation: Observation)
        ensures
            observation.bits() == bits,
    {
        Observation { bits }
    }

    /// Returns the flag bits.
    pub fn to_bits(self) -> (bits: u8)
        ensures
            bits == self.bits(),
    {
        self.bits
    }

    /// Returns whether no hint is present.
    pub fn is_empty(self) -> (empty: bool)
        ensures
            empty == (self.bits() == 0),
    {
        self.bits == 0
    }

    /// Returns whether every flag in `other` is present.
    pub fn contains(self, other: Observation) -> (contained: bool)
        ensures
            contained == self.spec_contains(other),
    {
        self.bits & other.bits == other.bits
    }

    /// Returns whether any flag in `other` is present.
    pub fn intersects(self, other: Observation) -> (meets: bool)
        ensures
            meets == self.spec_intersects(other),
    {
        self.bits & other.bits != 0
    }

    /// Returns the union of two hint sets.
    pub fn union(self, other: Observation) -> (joined: Observation)
        ensures
            joined.bits() == self.bits() | other.bits(),
    {
        Observation { bits: self.bits | other.bits }
    }
}


/// The flag bit at index `i` of the stable flag order.
pub open spec fn flag_bit(i: int) -> u8 {
    if i == 0 {
        1
    } else if i == 1 {
        2
    } else if i == 2 {
        4
    } else if i == 3 {
        8
    } else if i == 4 {
        16
    } else {
        32
    }
}

/// The stable name of the flag at index `i`.
pub open spec fn flag_name(i: int) -> Seq<char> {
    if i == 0 {
        "readable"@
    } else if i == 1 {
        "writable"@
    } else if i == 2 {
        "read_closed"@
    } else if i == 3 {
        "write_closed"@
    } else if i == 4 {
        "error"@
    } else {
        "interrupt"@
    }
}

/// Names of the flags with index below `i` that `bits` holds, in flag order.
pub open spec fn present_names(bits: u8, i: nat) -> Seq<Seq<char>>
    decreases i,
{
    if i == 0 {
        Seq::empty()
    } else {
        let before = present_names(bits, (i - 1) as nat);
        if bits & flag_bit(i - 1) != 0 {
            before.push(flag_name(i - 1))
        } else {
            before
        }
    }
}

/// Joins names with a `|` separator.
pub open spec fn join_bar(names: Seq<Seq<char>>) -> Seq<char>
    decreases names.len(),
{
    if names.len() == 0 {
        Seq::empty()
    } else if names.len() == 1 {
        names[0]
    } else {
        join_bar(names.drop_last()) + "|"@ + names.last()
    }
}

/// The text form of a hint set: `empty`, or its flag names joined by `|`.
pub open spec fn describe_bits(bits: u8) -> Seq<char> {
    if bits == 0 {
        "empty"@
    } else {
        join_bar(present_names(bits, 6))
    }
}

proof fn lemma_join_push(names: Seq<Seq<char>>, name: Seq<char>)
    ensures
        join_bar(names.push(name)) == if names.len() == 0 {
            name
        } else {
            join_bar(names) + "|"@ + name
        },
{
    assert(names.push(name).drop_last() =~= names);
}

fn flag_entry(i: usize) -> (entry: (u8, &'static str))
    requires
        i < 6,
    ensures
        entry.0 == flag_bit(i as int),
        entry.1@ == flag_name(i as int),
{
    if i == 0 {
        (1, "readable")
    } else if i == 1 {
        (2, "writable")
    } else if i == 2 {
        (4, "read_closed")
    } else if i == 3 {
        (8, "write_closed")
    } else if i == 4 {
        (16, "error")
    } else {
        (32, "interrupt")
    }
}

impl Observation {
    /// Returns the stable text form: `empty`, or the present flag names in
    /// flag order joined by `|`.
    pub fn describe(self) -> (text: String)
        ensures
            text@ == describe_bits(self.bits()),
    {
        if self.bits == 0 {
            return String::from_str("empty");
        }
        let mut text = String::new();
        let mut i: usize = 0;
        let mut any: bool = false;
        while i < 6
            invariant
                i <= 6,
                text@ == join_bar(present_names(self.bits(), i as nat)),
                any == (present_names(self.bits(), i as nat).len() != 0),
            decreases 6 - i,
        {
            let (flag, name) = flag_entry(i);
            if self.bits & flag != 0 {
                proof {
                    lemma_join_push(present_names(self.bits(), i as nat), name@);
                }
                if any {
                    text.append("|");
                }
                text.append(name);
                any = true;
            }
            i = i + 1;
        }
        text
    }
}


/// A contract's required minimum, required alternatives, and complete
/// allowance.
#[derive(Clone, Copy, Debug, Eq, PartialEq)]
pub struct ExpectedObservation {
    required: Observation,
    required_any: Observation,
    allowed: Observation,
}

/// The precise way an observation failed its contract.
#[derive(Clone, Copy, Debug, Eq, PartialEq)]
pub enum ContractViolation {
    /// A required flag was absent.
    MissingRequired {
        /// Required flags.
        required: Observation,
        /// Actual hints.
        actual: Observation,
    },
    /// None of the required alternatives was present.
    MissingOneOf {
        /// Alternative flags.
        required_any: Observation,
        /// Actual hints.
        actual: Observation,
    },
    /// An undeclared flag was present.
    Undocumented {
        /// Complete allowance.
        allowed: Observation,
        /// Actual hints.
        actual: Observation,
    },
}

impl ExpectedObservation {
    /// The flags required together.
    pub closed spec fn spec_required(self) -> Observation {
        self.required
    }

    /// The flags of which at least one is required, when nonempty.
    pub closed spec fn spec_required_any(self) -> Observation {
        self.required_any
    }

    /// The complete documented allowance.
    pub closed spec fn spec_allowed(self) -> Observation {
        self.allowed
    }

    /// The contract with the given required flags, alternatives, and
    /// allowance.
    pub closed spec fn spec_new(
        required: Observation,
        required_any: Observation,
        allowed: Observation,
    ) -> ExpectedObservation {
        ExpectedObservation { required, required_any, allowed }
    }

    /// The fields of `spec_new` are its arguments.
    pub broadcast proof fn lemma_spec_new(
        required: Observation,
        required_any: Observation,
        allowed: Observation,
    )
        ensures
            #[trigger] ExpectedObservation::spec_new(required, required_any, allowed).spec_required()
                == required,
            ExpectedObservation::spec_new(required, required_any, allowed).spec_required_any()
                == required_any,
            ExpectedObservation::spec_new(required, required_any, allowed).spec_allowed()
                == allowed,
    {
    }

    /// Whether `actual` holds the required flags.
    pub open spec fn meets_required(self, actual: Observation) -> bool {
        actual.spec_contains(self.spec_required())
    }

    /// Whether `actual` holds one of the alternatives, or none are declared.
    pub open spec fn meets_one_of(self, actual: Observation) -> bool {
        self.spec_required_any().bits() == 0 || actual.spec_intersects(self.spec_required_any())
    }

    /// Whether `actual` stays within the allowance.
    pub open spec fn within_allowance(self, actual: Observation) -> bool {
        self.spec_allowed().spec_contains(actual)
    }

    /// Whether the contract accepts `actual`.
    pub open spec fn accepts(self, actual: Observation) -> bool {
        &&& self.meets_required(actual)
        &&& self.meets_one_of(actual)
        &&& self.within_allowance(actual)
    }

    /// The verdict that `validate` gives for `actual`.
    pub open spec fn verdict(self, actual: Observation) -> Result<(), ContractViolation> {
        if !self.meets_required(actual) {
            Err(ContractViolation::MissingRequired { required: self.spec_required(), actual })
        } else if !self.meets_one_of(actual) {
            Err(ContractViolation::MissingOneOf { required_any: self.spec_required_any(), actual })
        } else if !self.within_allowance(actual) {
            Err(ContractViolation::Undocumented { allowed: self.spec_allowed(), actual })
        } else {
            Ok(())
        }
    }

    /// Creates a declared observation contract.
    pub fn new(
        required: Observation,
        required_any: Observation,
        allowed: Observation,
    ) -> (contract: ExpectedObservation)
        ensures
            contract == ExpectedObservation::spec_new(required, required_any, allowed),
            contract.spec_required() == required,
            contract.spec_required_any() == required_any,
            contract.spec_allowed() == allowed,
    {
        ExpectedObservation { required, required_any, allowed }
    }

    /// Returns the flags required together.
    pub fn required(self) -> (flags: Observation)
        ensures
            flags == self.spec_required(),
    {
        self.required
    }

    /// Returns the flags from which at least one is required.
    pub fn required_any(self) -> (flags: Observation)
        ensures
            flags == self.spec_required_any(),
    {
        self.required_any
    }

    /// Returns the complete documented allowance.
    pub fn allowed(self) -> (flags: Observation)
        ensures
            flags == self.spec_allowed(),
    {
        self.allowed
    }

    /// Validates one observation without consulting another candidate.
    ///
    /// The checks run in order: required flags, then one declared
    /// alternative, then the allowance; the first that fails is reported.
    pub fn validate(self, actual: Observation) -> (verdict: Result<(), ContractViolation>)
        ensures
            verdict == self.verdict(actual),
            verdict is Ok <==> self.accepts(actual),
    {
        if !actual.contains(self.required) {
            return Err(ContractViolation::MissingRequired { required: self.required, actual });
        }
        if !self.required_any.is_empty() && !actual.intersects(self.required_any) {
            return Err(ContractViolation::MissingOneOf { required_any: self.required_any, actual });
        }
        if !self.allowed.contains(actual) {
            return Err(ContractViolation::Undocumented { allowed: self.allowed, actual });
        }
        Ok(())
    }
}

/// Facts relating hint sets and contracts to their parts.
pub broadcast group group_observation_facts {
    lemma_observation_of_bits,
    lemma_observation_bits_determine,
    ExpectedObservation::lemma_spec_new,
}

/// A contract that accepts two observations accepts their union: the
/// accepted observations are closed under joining hints.
pub proof fn law_accepted_observations_closed_under_union(
    contract: ExpectedObservation,
    first: Observation,
    second: Observation,
    joined: Observation,
)
    requires
        contract.accepts(first),
        contract.accepts(second),
        joined.bits() == first.bits() | second.bits(),
    ensures
        contract.accepts(joined),
{
    let r = contract.spec_required().bits();
    let q = contract.spec_required_any().bits();
    let a = contract.spec_allowed().bits();
    let x = first.bits();
    let y = second.bits();
    assert((x & r == r) ==> ((x | y) & r == r)) by (bit_vector);
    assert((x & q != 0) ==> ((x | y) & q != 0)) by (bit_vector);
    assert((a & x == x && a & y == y) ==> (a & (x | y) == (x | y))) by (bit_vector);
}

/// Adding hints an observation already holds changes nothing: union with a
/// contained set is the identity, and a union contains both of its parts.
pub proof fn law_union_contains_parts(first: Observation, second: Observation, joined: Observation)
    requires
        joined.bits() == first.bits() | second.bits(),
    ensures
        joined.spec_contains(first),
        joined.spec_contains(second),
        first.spec_contains(second) ==> joined.bits() == first.bits(),
{
    let x = first.bits();
    let y = second.bits();
    assert((x | y) & x == x) by (bit_vector);
    assert((x | y) & y == y) by (bit_vector);
    assert((x & y == y) ==> (x | y) == x) by (bit_vector);
}

} // verus!
