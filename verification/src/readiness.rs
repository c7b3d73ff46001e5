//! Native readiness scenarios: their names, parameters, declared readiness
//! masks, and structured diagnostics.

use vstd::prelude::*;

use crate::model_sequence::{InterestSet, Mode};
use crate::observation::{ExpectedObservation, Observation};
use crate::text::{decimal, push_decimal};

verus! {

/// Native resource behavior exercised by a readiness scenario.
#[derive(Clone, Copy, Debug, Eq, Hash, PartialEq, Structural)]
pub enum ReadinessFixture {
    /// A Unix stream has buffered bytes followed by a write-half close.
    UnixPendingEof,
    /// A connected Unix stream can accept a write.
    UnixWritable,
    /// A TCP stream has buffered bytes followed by a write-half close.
    TcpPendingEof,
    /// A pipe has buffered bytes followed by its writer closing.
    PipePendingEof,
    /// A pipe writer observes that its reader closed.
    PipeReaderClosed,
}

/// One public-API native readiness behavior covered by the suite.
#[derive(Clone, Copy, Debug, Eq, Hash, PartialEq, Structural)]
pub enum ReadinessScenario {
    /// Unix pending bytes and EOF, read interest, level delivery.
    UnixPendingEofReadableLevel,
    /// Unix pending bytes and EOF, read interest, one-shot delivery.
    UnixPendingEofReadableOneShot,
    /// Unix pending bytes and EOF, combined interest, level delivery.
    UnixPendingEofCombinedLevel,
    /// Unix pending bytes and EOF, combined interest, one-shot delivery.
    UnixPendingEofCombinedOneShot,
    /// Unix writable readiness, level delivery.
    UnixWritableLevel,
    /// Unix writable readiness, one-shot delivery.
    UnixWritableOneShot,
    /// TCP pending bytes and EOF, level delivery.
    TcpPendingEofLevel,
    /// TCP pending bytes and EOF, one-shot delivery.
    TcpPendingEofOneShot,
    /// Pipe pending bytes and EOF, level delivery.
    PipePendingEofLevel,
    /// Pipe pending bytes and EOF, one-shot delivery.
    PipePendingEofOneShot,
    /// A pipe reader closes, level delivery.
    PipeReaderClosedLevel,
    /// A pipe reader closes, one-shot delivery.
    PipeReaderClosedOneShot,
}

/// Every readiness scenario in stable execution order.
pub open spec fn all_readiness_scenarios() -> Seq<ReadinessScenario> {
    seq![
        ReadinessScenario::UnixPendingEofReadableLevel,
        ReadinessScenario::UnixPendingEofReadableOneShot,
        ReadinessScenario::UnixPendingEofCombinedLevel,
        ReadinessScenario::UnixPendingEofCombinedOneShot,
        ReadinessScenario::UnixWritableLevel,
        ReadinessScenario::UnixWritableOneShot,
        ReadinessScenario::TcpPendingEofLevel,
        ReadinessScenario::TcpPendingEofOneShot,
        ReadinessScenario::PipePendingEofLevel,
        ReadinessScenario::PipePendingEofOneShot,
        ReadinessScenario::PipeReaderClosedLevel,
        ReadinessScenario::PipeReaderClosedOneShot,
    ]
}

impl ReadinessScenario {
    /// Every readiness scenario in stable execution order.
    pub fn all() -> (all: Vec<ReadinessScenario>)
        ensures
            all@ == all_readiness_scenarios(),
    {
        let all = vec![
            ReadinessScenario::UnixPendingEofReadableLevel,
            ReadinessScenario::UnixPendingEofReadableOneShot,
            ReadinessScenario::UnixPendingEofCombinedLevel,
            ReadinessScenario::UnixPendingEofCombinedOneShot,
            ReadinessScenario::UnixWritableLevel,
            ReadinessScenario::UnixWritableOneShot,
            ReadinessScenario::TcpPendingEofLevel,
            ReadinessScenario::TcpPendingEofOneShot,
            ReadinessScenario::PipePendingEofLevel,
            ReadinessScenario::PipePendingEofOneShot,
            ReadinessScenario::PipeReaderClosedLevel,
            ReadinessScenario::PipeReaderClosedOneShot,
        ];
        assert(all@ =~= all_readiness_scenarios());
        all
    }

    /// The stable scenario name.
    pub open spec fn spec_name(self) -> Seq<char> {
        match self {
            ReadinessScenario::UnixPendingEofReadableLevel => "readiness.unix.pending_eof.readable.level"@,
            ReadinessScenario::UnixPendingEofReadableOneShot => "readiness.unix.pending_eof.readable.one_shot"@,
            ReadinessScenario::UnixPendingEofCombinedLevel => "readiness.unix.pending_eof.combined.level"@,
            ReadinessScenario::UnixPendingEofCombinedOneShot => "readiness.unix.pending_eof.combined.one_shot"@,
            ReadinessScenario::UnixWritableLevel => "readiness.unix.writable.level"@,
            ReadinessScenario::UnixWritableOneShot => "readiness.unix.writable.one_shot"@,
            ReadinessScenario::TcpPendingEofLevel => "readiness.tcp.pending_eof.readable.level"@,
            ReadinessScenario::TcpPendingEofOneShot => "readiness.tcp.pending_eof.readable.one_shot"@,
            ReadinessScenario::PipePendingEofLevel => "readiness.pipe.pending_eof.readable.level"@,
            ReadinessScenario::PipePendingEofOneShot => "readiness.pipe.pending_eof.readable.one_shot"@,
            ReadinessScenario::PipeReaderClosedLevel => "readiness.pipe.reader_closed.writable.level"@,
            ReadinessScenario::PipeReaderClosedOneShot => "readiness.pipe.reader_closed.writable.one_shot"@,
        }
    }

    /// Returns the stable scenario name.
    pub fn name(self) -> (name: &'static str)
        ensures
            name@ == self.spec_name(),
    {
        match self {
            ReadinessScenario::UnixPendingEofReadableLevel => "readiness.unix.pending_eof.readable.level",
            ReadinessScenario::UnixPendingEofReadableOneShot => "readiness.unix.pending_eof.readable.one_shot",
            ReadinessScenario::UnixPendingEofCombinedLevel => "readiness.unix.pending_eof.combined.level",
            ReadinessScenario::UnixPendingEofCombinedOneShot => "readiness.unix.pending_eof.combined.one_shot",
            ReadinessScenario::UnixWritableLevel => "readiness.unix.writable.level",
            ReadinessScenario::UnixWritableOneShot => "readiness.unix.writable.one_shot",
            ReadinessScenario::TcpPendingEofLevel => "readiness.tcp.pending_eof.readable.level",
            ReadinessScenario::TcpPendingEofOneShot => "readiness.tcp.pending_eof.readable.one_shot",
            ReadinessScenario::PipePendingEofLevel => "readiness.pipe.pending_eof.readable.level",
            ReadinessScenario::PipePendingEofOneShot => "readiness.pipe.pending_eof.readable.one_shot",
            ReadinessScenario::PipeReaderClosedLevel => "readiness.pipe.reader_closed.writable.level",
            ReadinessScenario::PipeReaderClosedOneShot => "readiness.pipe.reader_closed.writable.one_shot",
        }
    }

    /// The native fixture kind.
    pub open spec fn spec_fixture(self) -> ReadinessFixture {
        match self {
            ReadinessScenario::UnixPendingEofReadableLevel
            | ReadinessScenario::UnixPendingEofReadableOneShot
            | ReadinessScenario::UnixPendingEofCombinedLevel
            | ReadinessScenario::UnixPendingEofCombinedOneShot => ReadinessFixture::UnixPendingEof,
            ReadinessScenario::UnixWritableLevel | ReadinessScenario::UnixWritableOneShot => ReadinessFixture::UnixWritable,
            ReadinessScenario::TcpPendingEofLevel | ReadinessScenario::TcpPendingEofOneShot => ReadinessFixture::TcpPendingEof,
            ReadinessScenario::PipePendingEofLevel | ReadinessScenario::PipePendingEofOneShot => ReadinessFixture::PipePendingEof,
            ReadinessScenario::PipeReaderClosedLevel | ReadinessScenario::PipeReaderClosedOneShot => ReadinessFixture::PipeReaderClosed,
        }
    }

    /// Returns the native fixture kind.
    pub fn fixture(self) -> (fixture: ReadinessFixture)
        ensures
            fixture == self.spec_fixture(),
    {
        match self {
            ReadinessScenario::UnixPendingEofReadableLevel
            | ReadinessScenario::UnixPendingEofReadableOneShot
            | ReadinessScenario::UnixPendingEofCombinedLevel
            | ReadinessScenario::UnixPendingEofCombinedOneShot => ReadinessFixture::UnixPendingEof,
            ReadinessScenario::UnixWritableLevel | ReadinessScenario::UnixWritableOneShot => ReadinessFixture::UnixWritable,
            ReadinessScenario::TcpPendingEofLevel | ReadinessScenario::TcpPendingEofOneShot => ReadinessFixture::TcpPendingEof,
            ReadinessScenario::PipePendingEofLevel | ReadinessScenario::PipePendingEofOneShot => ReadinessFixture::PipePendingEof,
            ReadinessScenario::PipeReaderClosedLevel | ReadinessScenario::PipeReaderClosedOneShot => ReadinessFixture::PipeReaderClosed,
        }
    }

    /// The registered interest: both directions for the combined cases,
    /// writable for the writable and reader-closed cases, readable
    /// otherwise.
    pub open spec fn spec_interest(self) -> InterestSet {
        match self {
            ReadinessScenario::UnixPendingEofCombinedLevel | ReadinessScenario::UnixPendingEofCombinedOneShot => {
                InterestSet { readable: true, writable: true }
            },
            ReadinessScenario::UnixWritableLevel
            | ReadinessScenario::UnixWritableOneShot
            | ReadinessScenario::PipeReaderClosedLevel
            | ReadinessScenario::PipeReaderClosedOneShot => InterestSet { readable: false, writable: true },
            _ => InterestSet { readable: true, writable: false },
        }
    }

    /// Returns the registered interest.
    pub fn interest(self) -> (interest: InterestSet)
        ensures
            interest == self.spec_interest(),
    {
        match self {
            ReadinessScenario::UnixPendingEofCombinedLevel | ReadinessScenario::UnixPendingEofCombinedOneShot => {
                InterestSet { readable: true, writable: true }
            },
            ReadinessScenario::UnixWritableLevel
            | ReadinessScenario::UnixWritableOneShot
            | ReadinessScenario::PipeReaderClosedLevel
            | ReadinessScenario::PipeReaderClosedOneShot => InterestSet { readable: false, writable: true },
            _ => InterestSet { readable: true, writable: false },
        }
    }

    /// The delivery mode.
    pub open spec fn spec_mode(self) -> Mode {
        match self {
            ReadinessScenario::UnixPendingEofReadableOneShot
            | ReadinessScenario::UnixPendingEofCombinedOneShot
            | ReadinessScenario::UnixWritableOneShot
            | ReadinessScenario::TcpPendingEofOneShot
            | ReadinessScenario::PipePendingEofOneShot
            | ReadinessScenario::PipeReaderClosedOneShot => Mode::OneShot,
            _ => Mode::Level,
        }
    }

    /// Returns the delivery mode.
    pub fn mode(self) -> (mode: Mode)
        ensures
            mode == self.spec_mode(),
    {
        match self {
            ReadinessScenario::UnixPendingEofReadableOneShot
            | ReadinessScenario::UnixPendingEofCombinedOneShot
            | ReadinessScenario::UnixWritableOneShot
            | ReadinessScenario::TcpPendingEofOneShot
            | ReadinessScenario::PipePendingEofOneShot
            | ReadinessScenario::PipeReaderClosedOneShot => Mode::OneShot,
            _ => Mode::Level,
        }
    }
}

/// Readable progress.
pub open spec fn readable_bit() -> u8 {
    1
}

/// Writable progress.
pub open spec fn writable_bit() -> u8 {
    2
}

/// Readable-direction closure.
pub open spec fn read_closed_bit() -> u8 {
    4
}

/// Writable-direction closure.
pub open spec fn write_closed_bit() -> u8 {
    8
}

/// Resource error hint.
pub open spec fn error_bit() -> u8 {
    16
}

/// The declared delivery masks of a scenario's data stage, as required,
/// required-alternative, and allowed flag bits: pending data requires
/// readable and may add read closure (pipes may add write closure, and a
/// combined interest may add writable); writability requires and allows
/// exactly writable; a closed reader requires write closure or an error and
/// may add writable.
pub open spec fn spec_data_masks(scenario: ReadinessScenario) -> (u8, u8, u8) {
    match scenario.spec_fixture() {
        ReadinessFixture::UnixPendingEof | ReadinessFixture::TcpPendingEof => if scenario.spec_interest()
            == (InterestSet { readable: true, writable: true }) {
            (1, 0, 7)
        } else {
            (1, 0, 5)
        },
        ReadinessFixture::UnixWritable => (2, 0, 2),
        ReadinessFixture::PipePendingEof => (1, 0, 13),
        ReadinessFixture::PipeReaderClosed => (0, 24, 26),
    }
}

/// Whether `expected` holds exactly the three masks.
pub open spec fn has_masks(expected: ExpectedObservation, masks: (u8, u8, u8)) -> bool {
    &&& expected.spec_required().bits() == masks.0
    &&& expected.spec_required_any().bits() == masks.1
    &&& expected.spec_allowed().bits() == masks.2
}

/// Returns the declared delivery masks of a scenario's data stage.
pub fn expected_for(scenario: ReadinessScenario) -> (expected: ExpectedObservation)
    ensures
        has_masks(expected, spec_data_masks(scenario)),
{
    let (required, required_any, allowed): (u8, u8, u8) = match scenario.fixture() {
        ReadinessFixture::UnixPendingEof | ReadinessFixture::TcpPendingEof => {
            let combined = scenario.interest();
            if combined.readable && combined.writable {
                (1, 0, 7)
            } else {
                (1, 0, 5)
            }
        },
        ReadinessFixture::UnixWritable => (2, 0, 2),
        ReadinessFixture::PipePendingEof => (1, 0, 13),
        ReadinessFixture::PipeReaderClosed => (0, 24, 26),
    };
    ExpectedObservation::new(
        Observation::from_bits(required),
        Observation::from_bits(required_any),
        Observation::from_bits(allowed),
    )
}

/// Returns the declared masks of a scenario's closure stage: read closure
/// is required, within the data stage's allowance.
pub fn closure_for(scenario: ReadinessScenario) -> (expected: ExpectedObservation)
    ensures
        has_masks(expected, (4, 0, spec_data_masks(scenario).2)),
{
    let data = expected_for(scenario);
    ExpectedObservation::new(Observation::from_bits(4), Observation::from_bits(0), data.allowed())
}

/// Whether masks of required, required-alternative, and allowed flag bits
/// can all be met: the required flags and the alternatives lie within the
/// allowance, and some alternative is allowed when any are declared.
pub open spec fn masks_satisfiable(masks: (u8, u8, u8)) -> bool {
    &&& masks.0 & masks.2 == masks.0
    &&& masks.1 & masks.2 == masks.1
    &&& (masks.1 == 0 || masks.1 & masks.2 != 0)
}

/// Every scenario's data-stage contract can be met, and so can the closure
/// contract of every pending-data scenario.
pub proof fn law_readiness_contracts_satisfiable(scenario: ReadinessScenario)
    ensures
        masks_satisfiable(spec_data_masks(scenario)),
        scenario.spec_fixture() == ReadinessFixture::UnixPendingEof || scenario.spec_fixture()
            == ReadinessFixture::TcpPendingEof || scenario.spec_fixture() == ReadinessFixture::PipePendingEof
            ==> masks_satisfiable((4, 0, spec_data_masks(scenario).2)),
{
    assert(masks_satisfiable((1, 0, 7))) by (bit_vector);
    assert(masks_satisfiable((1, 0, 5))) by (bit_vector);
    assert(masks_satisfiable((2, 0, 2))) by (bit_vector);
    assert(masks_satisfiable((1, 0, 13))) by (bit_vector);
    assert(masks_satisfiable((0, 24, 26))) by (bit_vector);
    assert(masks_satisfiable((4, 0, 7))) by (bit_vector);
    assert(masks_satisfiable((4, 0, 5))) by (bit_vector);
    assert(masks_satisfiable((4, 0, 13))) by (bit_vector);
}

/// Features that tell the scenario names apart: the length and the
/// characters at positions 10 and 27.
spec fn readiness_name_key(scenario: ReadinessScenario) -> (nat, char, char) {
    match scenario {
        ReadinessScenario::UnixPendingEofReadableLevel => (41, 'u', 'r'),
        ReadinessScenario::UnixPendingEofReadableOneShot => (44, 'u', 'r'),
        ReadinessScenario::UnixPendingEofCombinedLevel => (41, 'u', 'c'),
        ReadinessScenario::UnixPendingEofCombinedOneShot => (44, 'u', 'c'),
        ReadinessScenario::UnixWritableLevel => (29, 'u', 'e'),
        ReadinessScenario::UnixWritableOneShot => (32, 'u', '_'),
        ReadinessScenario::TcpPendingEofLevel => (40, 't', 'e'),
        ReadinessScenario::TcpPendingEofOneShot => (43, 't', 'e'),
        ReadinessScenario::PipePendingEofLevel => (41, 'p', 'r'),
        ReadinessScenario::PipePendingEofOneShot => (44, 'p', 'r'),
        ReadinessScenario::PipeReaderClosedLevel => (43, 'p', 'd'),
        ReadinessScenario::PipeReaderClosedOneShot => (46, 'p', 'd'),
    }
}

proof fn lemma_readiness_name_key(scenario: ReadinessScenario)
    ensures
        scenario.spec_name().len() == readiness_name_key(scenario).0,
        scenario.spec_name()[10] == readiness_name_key(scenario).1,
        scenario.spec_name()[27] == readiness_name_key(scenario).2,
{
    match scenario {
        ReadinessScenario::UnixPendingEofReadableLevel => reveal_strlit("readiness.unix.pending_eof.readable.level"),
        ReadinessScenario::UnixPendingEofReadableOneShot => reveal_strlit("readiness.unix.pending_eof.readable.one_shot"),
        ReadinessScenario::UnixPendingEofCombinedLevel => reveal_strlit("readiness.unix.pending_eof.combined.level"),
        ReadinessScenario::UnixPendingEofCombinedOneShot => reveal_strlit("readiness.unix.pending_eof.combined.one_shot"),
        ReadinessScenario::UnixWritableLevel => reveal_strlit("readiness.unix.writable.level"),
        ReadinessScenario::UnixWritableOneShot => reveal_strlit("readiness.unix.writable.one_shot"),
        ReadinessScenario::TcpPendingEofLevel => reveal_strlit("readiness.tcp.pending_eof.readable.level"),
        ReadinessScenario::TcpPendingEofOneShot => reveal_strlit("readiness.tcp.pending_eof.readable.one_shot"),
        ReadinessScenario::PipePendingEofLevel => reveal_strlit("readiness.pipe.pending_eof.readable.level"),
        ReadinessScenario::PipePendingEofOneShot => reveal_strlit("readiness.pipe.pending_eof.readable.one_shot"),
        ReadinessScenario::PipeReaderClosedLevel => reveal_strlit("readiness.pipe.reader_closed.writable.level"),
        ReadinessScenario::PipeReaderClosedOneShot => reveal_strlit("readiness.pipe.reader_closed.writable.one_shot"),
    }
}

/// Every readiness scenario name starts with `readiness.`; it ends with
/// `.one_shot` exactly when the scenario delivers one-shot, and with `.level`
/// exactly when it delivers level-triggered.
pub proof fn law_readiness_name_shape(scenario: ReadinessScenario)
    ensures
        "readiness."@.is_prefix_of(scenario.spec_name()),
        ".one_shot"@.is_suffix_of(scenario.spec_name()) <==> scenario.spec_mode() == Mode::OneShot,
        ".level"@.is_suffix_of(scenario.spec_name()) <==> scenario.spec_mode() == Mode::Level,
{
    match scenario {
        ReadinessScenario::UnixPendingEofReadableLevel => reveal_strlit("readiness.unix.pending_eof.readable.level"),
        ReadinessScenario::UnixPendingEofReadableOneShot => reveal_strlit("readiness.unix.pending_eof.readable.one_shot"),
        ReadinessScenario::UnixPendingEofCombinedLevel => reveal_strlit("readiness.unix.pending_eof.combined.level"),
        ReadinessScenario::UnixPendingEofCombinedOneShot => reveal_strlit("readiness.unix.pending_eof.combined.one_shot"),
        ReadinessScenario::UnixWritableLevel => reveal_strlit("readiness.unix.writable.level"),
        ReadinessScenario::UnixWritableOneShot => reveal_strlit("readiness.unix.writable.one_shot"),
        ReadinessScenario::TcpPendingEofLevel => reveal_strlit("readiness.tcp.pending_eof.readable.level"),
        ReadinessScenario::TcpPendingEofOneShot => reveal_strlit("readiness.tcp.pending_eof.readable.one_shot"),
        ReadinessScenario::PipePendingEofLevel => reveal_strlit("readiness.pipe.pending_eof.readable.level"),
        ReadinessScenario::PipePendingEofOneShot => reveal_strlit("readiness.pipe.pending_eof.readable.one_shot"),
        ReadinessScenario::PipeReaderClosedLevel => reveal_strlit("readiness.pipe.reader_closed.writable.level"),
        ReadinessScenario::PipeReaderClosedOneShot => reveal_strlit("readiness.pipe.reader_closed.writable.one_shot"),
    }
    reveal_strlit("readiness.");
    reveal_strlit(".one_shot");
    reveal_strlit(".level");
    let name = scenario.spec_name();
    assert("readiness."@ =~= name.subrange(0, 10));
    if scenario.spec_mode() == Mode::OneShot {
        assert(".one_shot"@ =~= name.subrange(name.len() - 9, name.len() as int));
        assert(name[name.len() - 1] == 't');
        if ".level"@.is_suffix_of(name) {
            assert(".level"@[5] == name.subrange(name.len() - 6, name.len() as int)[5]);
        }
    } else {
        assert(".level"@ =~= name.subrange(name.len() - 6, name.len() as int));
        assert(name[name.len() - 1] == 'l');
        if ".one_shot"@.is_suffix_of(name) {
            assert(".one_shot"@[8] == name.subrange(name.len() - 9, name.len() as int)[8]);
        }
    }
}

/// No two readiness scenarios share a name, so the names of the scenarios
/// in `all_readiness_scenarios` are pairwise distinct.
pub proof fn law_readiness_names_distinct(first: ReadinessScenario, second: ReadinessScenario)
    ensures
        first.spec_name() == second.spec_name() ==> first == second,
        forall|i: int, j: int|
            0 <= i < 12 && 0 <= j < 12 && i != j ==> #[trigger] all_readiness_scenarios()[i].spec_name()
                != #[trigger] all_readiness_scenarios()[j].spec_name(),
{
    lemma_readiness_name_key(first);
    lemma_readiness_name_key(second);
    assert forall|i: int, j: int|
        0 <= i < 12 && 0 <= j < 12 && i != j implies #[trigger] all_readiness_scenarios()[i].spec_name()
            != #[trigger] all_readiness_scenarios()[j].spec_name() by {
        lemma_readiness_name_key(all_readiness_scenarios()[i]);
        lemma_readiness_name_key(all_readiness_scenarios()[j]);
    }
}

/// The debug text of a readiness set: its flag bits.
pub open spec fn readiness_debug(readiness: Observation) -> Seq<char> {
    "Readiness("@ + decimal(readiness.bits() as nat) + ")"@
}

/// Returns the debug text of a readiness set.
pub fn render_readiness(readiness: Observation) -> (text: String)
    ensures
        text@ == readiness_debug(readiness),
{
    let mut text = String::from_str("Readiness(");
    push_decimal(&mut text, readiness.to_bits() as u64);
    text.append(")");
    text
}

/// The description of a contract's required flags: the flags required
/// together, then the alternatives when there are any.
pub open spec fn required_text(expected: ExpectedObservation) -> Seq<char> {
    if expected.spec_required_any().bits() == 0 {
        readiness_debug(expected.spec_required())
    } else {
        readiness_debug(expected.spec_required()) + " plus one of "@ + readiness_debug(
            expected.spec_required_any(),
        )
    }
}

/// Returns the description of a contract's required flags.
pub fn required_description(expected: ExpectedObservation) -> (text: String)
    ensures
        text@ == required_text(expected),
{
    let mut text = render_readiness(expected.required());
    if !expected.required_any().is_empty() {
        text.append(" plus one of ");
        let alternatives = render_readiness(expected.required_any());
        text.append(alternatives.as_str());
    }
    text
}

/// Contract checkpoint that rejected a native readiness observation.
#[derive(Clone, Copy, Debug, Eq, Hash, PartialEq, Structural)]
pub enum ReadinessCheck {
    /// The poller or native fixture could not be created.
    Setup,
    /// A bounded or nonblocking wait failed.
    Wait,
    /// The logical event batch had another shape or key.
    Events,
    /// A portable required readiness hint was absent.
    RequiredReadiness,
    /// A readiness hint outside the scenario's declared allowance appeared.
    AllowedReadiness,
    /// The operation associated with the readiness hint did not agree.
    Operation,
    /// Authoritative registration state diverged after delivery.
    State,
    /// A one-shot resource was delivered again without an explicit rearm.
    Disarm,
    /// A delivery reported post-delivery recovery trouble.
    Recovery,
    /// Registration cleanup failed.
    Cleanup,
}

impl ReadinessCheck {
    /// The checkpoint's stable diagnostic name.
    pub open spec fn spec_label(self) -> Seq<char> {
        match self {
            ReadinessCheck::Setup => "Setup"@,
            ReadinessCheck::Wait => "Wait"@,
            ReadinessCheck::Events => "Events"@,
            ReadinessCheck::RequiredReadiness => "RequiredReadiness"@,
            ReadinessCheck::AllowedReadiness => "AllowedReadiness"@,
            ReadinessCheck::Operation => "Operation"@,
            ReadinessCheck::State => "State"@,
            ReadinessCheck::Disarm => "Disarm"@,
            ReadinessCheck::Recovery => "Recovery"@,
            ReadinessCheck::Cleanup => "Cleanup"@,
        }
    }

    /// Returns the checkpoint's stable diagnostic name.
    pub fn label(self) -> (label: &'static str)
        ensures
            label@ == self.spec_label(),
    {
        match self {
            ReadinessCheck::Setup => "Setup",
            ReadinessCheck::Wait => "Wait",
            ReadinessCheck::Events => "Events",
            ReadinessCheck::RequiredReadiness => "RequiredReadiness",
            ReadinessCheck::AllowedReadiness => "AllowedReadiness",
            ReadinessCheck::Operation => "Operation",
            ReadinessCheck::State => "State",
            ReadinessCheck::Disarm => "Disarm",
            ReadinessCheck::Recovery => "Recovery",
            ReadinessCheck::Cleanup => "Cleanup",
        }
    }
}

/// One readiness failure with machine-readable location and observed values.
#[derive(Clone, Debug, Eq, PartialEq)]
pub struct ReadinessFailure {
    scenario: ReadinessScenario,
    check: ReadinessCheck,
    expected: String,
    actual: String,
}

impl ReadinessFailure {
    /// The failed scenario.
    pub closed spec fn spec_scenario(&self) -> ReadinessScenario {
        self.scenario
    }

    /// The failed checkpoint.
    pub closed spec fn spec_check(&self) -> ReadinessCheck {
        self.check
    }

    /// The expected observation.
    pub closed spec fn spec_expected(&self) -> Seq<char> {
        self.expected@
    }

    /// The actual observation.
    pub closed spec fn spec_actual(&self) -> Seq<char> {
        self.actual@
    }

    /// Creates a structured readiness-conformance failure.
    pub fn new(scenario: ReadinessScenario, check: ReadinessCheck, expected: String, actual: String) -> (failure: ReadinessFailure)
        ensures
            failure.spec_scenario() == scenario,
            failure.spec_check() == check,
            failure.spec_expected() == expected@,
            failure.spec_actual() == actual@,
    {
        ReadinessFailure { scenario, check, expected, actual }
    }

    /// Returns the failed scenario.
    pub fn scenario(&self) -> (scenario: ReadinessScenario)
        ensures
            scenario == self.spec_scenario(),
    {
        self.scenario
    }

    /// Returns the failed contract checkpoint.
    pub fn check(&self) -> (check: ReadinessCheck)
        ensures
            check == self.spec_check(),
    {
        self.check
    }

    /// Returns the expected observation.
    pub fn expected(&self) -> (expected: &str)
        ensures
            expected@ == self.spec_expected(),
    {
        self.expected.as_str()
    }

    /// Returns the actual observation.
    pub fn actual(&self) -> (actual: &str)
        ensures
            actual@ == self.spec_actual(),
    {
        self.actual.as_str()
    }

    /// The text form: scenario, checkpoint, expectation, and observation.
    pub open spec fn spec_text(&self) -> Seq<char> {
        self.spec_scenario().spec_name() + " failed "@ + self.spec_check().spec_label()
            + ": expected "@ + self.spec_expected() + ", observed "@ + self.spec_actual()
    }

    /// Returns the text form.
    pub fn to_text(&self) -> (text: String)
        ensures
            text@ == self.spec_text(),
    {
        let mut text = String::from_str(self.scenario.name());
        text.append(" failed ");
        text.append(self.check.label());
        text.append(": expected ");
        text.append(self.expected.as_str());
        text.append(", observed ");
        text.append(self.actual.as_str());
        text
    }
}

} // verus!
