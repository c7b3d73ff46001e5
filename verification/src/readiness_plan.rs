//! The steps of a native readiness scenario after its first delivery.
//!
//! Which steps follow depends on the fixture, on the delivery mode, and for
//! pending data on whether the first delivery already reported the peer's
//! close: one-shot registrations are checked disarmed and drained after
//! each delivery and rearmed explicitly before the next wait.

use vstd::prelude::*;

use crate::model_sequence::{ArmState, Mode};
use crate::observation::Observation;
use crate::readiness::{ReadinessFixture, ReadinessScenario};
use crate::readiness_verify::{delivery_arm, spec_delivery_arm};

verus! {

/// One step of a readiness scenario after its first delivery.
#[derive(Clone, Copy, Debug, Eq, PartialEq, Structural)]
pub enum ReadinessStep {
    /// The registration's portable state is registered with this eligibility.
    CheckArm(ArmState),
    /// A nonblocking wait delivers nothing before an explicit rearm.
    Drain,
    /// The first delivery of a staged scenario precedes the peer's close.
    ExpectStaged,
    /// Read the complete pending payload.
    ReadPayload,
    /// Explicitly rearm the one-shot registration.
    Rearm,
    /// Close the peer's write half.
    TriggerClose,
    /// Wait for the delivery of the peer's close.
    AwaitClosure,
    /// The next read reports end of file.
    ReadEof,
    /// Perform and verify the fixture's nonblocking operation.
    Operation,
}

/// The checks after a delivery: the eligibility the mode leaves, then for
/// a one-shot registration a drain that must deliver nothing.
pub open spec fn delivery_steps(scenario: ReadinessScenario) -> Seq<ReadinessStep> {
    if scenario.spec_mode() == Mode::OneShot {
        seq![ReadinessStep::CheckArm(spec_delivery_arm(scenario)), ReadinessStep::Drain]
    } else {
        seq![ReadinessStep::CheckArm(spec_delivery_arm(scenario))]
    }
}

/// The explicit rearm a one-shot registration needs before another wait,
/// checked armed; nothing for a level registration.
pub open spec fn rearm_steps(scenario: ReadinessScenario) -> Seq<ReadinessStep> {
    if scenario.spec_mode() == Mode::OneShot {
        seq![ReadinessStep::Rearm, ReadinessStep::CheckArm(ArmState::Armed)]
    } else {
        Seq::empty()
    }
}

/// Whether the first delivery already reported the peer's close.
pub open spec fn reports_read_closed(initial: Observation) -> bool {
    initial.bits() & 4 == 4
}

/// The steps after the first delivery. Pending data is read, then, unless
/// that delivery already reported the close, a second delivery is awaited,
/// and the read after the data must report end of file. A staged scenario
/// first requires the data to be delivered before the close, which it
/// triggers after reading. A writable or reader-closed scenario performs
/// its operation.
pub open spec fn spec_readiness_plan(scenario: ReadinessScenario, initial: Observation) -> Seq<ReadinessStep> {
    let delivery = delivery_steps(scenario);
    match scenario.spec_fixture() {
        ReadinessFixture::UnixPendingEof | ReadinessFixture::PipePendingEof => {
            let closure = if reports_read_closed(initial) {
                Seq::empty()
            } else {
                rearm_steps(scenario) + seq![ReadinessStep::AwaitClosure] + delivery
            };
            delivery + seq![ReadinessStep::ReadPayload] + closure + seq![ReadinessStep::ReadEof]
        },
        ReadinessFixture::TcpPendingEof => seq![ReadinessStep::ExpectStaged] + delivery + seq![ReadinessStep::ReadPayload]
            + rearm_steps(scenario) + seq![ReadinessStep::TriggerClose, ReadinessStep::AwaitClosure] + delivery
            + seq![ReadinessStep::ReadEof],
        ReadinessFixture::UnixWritable | ReadinessFixture::PipeReaderClosed => delivery + seq![ReadinessStep::Operation],
    }
}

fn push_delivery(plan: &mut Vec<ReadinessStep>, scenario: ReadinessScenario)
    ensures
        final(plan)@ == old(plan)@ + delivery_steps(scenario),
{
    plan.push(ReadinessStep::CheckArm(delivery_arm(scenario)));
    if scenario.mode() == Mode::OneShot {
        plan.push(ReadinessStep::Drain);
    }
    assert(final(plan)@ =~= old(plan)@ + delivery_steps(scenario));
}

fn push_rearm(plan: &mut Vec<ReadinessStep>, scenario: ReadinessScenario)
    ensures
        final(plan)@ == old(plan)@ + rearm_steps(scenario),
{
    if scenario.mode() == Mode::OneShot {
        plan.push(ReadinessStep::Rearm);
        plan.push(ReadinessStep::CheckArm(ArmState::Armed));
    }
    assert(final(plan)@ =~= old(plan)@ + rearm_steps(scenario));
}

/// Returns the steps of a scenario after its first delivery `initial`.
pub fn readiness_plan(scenario: ReadinessScenario, initial: Observation) -> (plan: Vec<ReadinessStep>)
    ensures
        plan@ == spec_readiness_plan(scenario, initial),
{
    let mut plan: Vec<ReadinessStep> = Vec::new();
    match scenario.fixture() {
        ReadinessFixture::UnixPendingEof | ReadinessFixture::PipePendingEof => {
            push_delivery(&mut plan, scenario);
            plan.push(ReadinessStep::ReadPayload);
            if !initial.contains(Observation::read_closed()) {
                push_rearm(&mut plan, scenario);
                plan.push(ReadinessStep::AwaitClosure);
                push_delivery(&mut plan, scenario);
            }
            plan.push(ReadinessStep::ReadEof);
        },
        ReadinessFixture::TcpPendingEof => {
            plan.push(ReadinessStep::ExpectStaged);
            push_delivery(&mut plan, scenario);
            plan.push(ReadinessStep::ReadPayload);
            push_rearm(&mut plan, scenario);
            plan.push(ReadinessStep::TriggerClose);
            plan.push(ReadinessStep::AwaitClosure);
            push_delivery(&mut plan, scenario);
            plan.push(ReadinessStep::ReadEof);
        },
        ReadinessFixture::UnixWritable | ReadinessFixture::PipeReaderClosed => {
            push_delivery(&mut plan, scenario);
            plan.push(ReadinessStep::Operation);
        },
    }
    assert(plan@ =~= spec_readiness_plan(scenario, initial));
    plan
}

/// Every readiness plan ends by reading end of file after pending data, or
/// with the fixture's operation. A level registration is never drained or
/// rearmed. Every awaited closure delivery is checked for the eligibility
/// its mode leaves, and a one-shot registration is rearmed before it. A
/// second delivery is awaited exactly for a staged close, or for pending
/// data whose first delivery did not report the close.
pub proof fn law_readiness_plan_shape(scenario: ReadinessScenario, initial: Observation)
    ensures
        ({
            let plan = spec_readiness_plan(scenario, initial);
            &&& plan.len() > 0
            &&& plan.last() == match scenario.spec_fixture() {
                ReadinessFixture::UnixWritable | ReadinessFixture::PipeReaderClosed => ReadinessStep::Operation,
                _ => ReadinessStep::ReadEof,
            }
            &&& scenario.spec_mode() == Mode::Level ==> !plan.contains(ReadinessStep::Rearm) && !plan.contains(
                ReadinessStep::Drain,
            )
            &&& forall|i: int|
                0 <= i < plan.len() && #[trigger] plan[i] == ReadinessStep::AwaitClosure ==> {
                    &&& i + 1 < plan.len()
                    &&& plan[i + 1] == ReadinessStep::CheckArm(spec_delivery_arm(scenario))
                    &&& scenario.spec_mode() == Mode::OneShot ==> exists|j: int|
                        0 <= j < i && #[trigger] plan[j] == ReadinessStep::Rearm
                }
            &&& plan.contains(ReadinessStep::AwaitClosure) <==> (scenario.spec_fixture()
                == ReadinessFixture::TcpPendingEof || ((scenario.spec_fixture() == ReadinessFixture::UnixPendingEof
                || scenario.spec_fixture() == ReadinessFixture::PipePendingEof) && !reports_read_closed(initial)))
        }),
{
    let plan = spec_readiness_plan(scenario, initial);
    let delivery = delivery_steps(scenario);
    let arm = ReadinessStep::CheckArm(spec_delivery_arm(scenario));
    let one_shot = scenario.spec_mode() == Mode::OneShot;
    match scenario.spec_fixture() {
        ReadinessFixture::UnixPendingEof | ReadinessFixture::PipePendingEof => {
            if reports_read_closed(initial) {
                if one_shot {
                    assert(plan =~= seq![arm, ReadinessStep::Drain, ReadinessStep::ReadPayload, ReadinessStep::ReadEof]);
                } else {
                    assert(plan =~= seq![arm, ReadinessStep::ReadPayload, ReadinessStep::ReadEof]);
                }
            } else if one_shot {
                let expected = seq![
                    arm,
                    ReadinessStep::Drain,
                    ReadinessStep::ReadPayload,
                    ReadinessStep::Rearm,
                    ReadinessStep::CheckArm(ArmState::Armed),
                    ReadinessStep::AwaitClosure,
                    arm,
                    ReadinessStep::Drain,
                    ReadinessStep::ReadEof,
                ];
                assert(plan =~= expected);
                assert(plan[3] == ReadinessStep::Rearm);
                assert(plan[5] == ReadinessStep::AwaitClosure);
            } else {
                let expected = seq![arm, ReadinessStep::ReadPayload, ReadinessStep::AwaitClosure, arm, ReadinessStep::ReadEof];
                assert(plan =~= expected);
                assert(plan[2] == ReadinessStep::AwaitClosure);
            }
        },
        ReadinessFixture::TcpPendingEof => {
            if one_shot {
                let expected = seq![
                    ReadinessStep::ExpectStaged,
                    arm,
                    ReadinessStep::Drain,
                    ReadinessStep::ReadPayload,
                    ReadinessStep::Rearm,
                    ReadinessStep::CheckArm(ArmState::Armed),
                    ReadinessStep::TriggerClose,
                    ReadinessStep::AwaitClosure,
                    arm,
                    ReadinessStep::Drain,
                    ReadinessStep::ReadEof,
                ];
                assert(plan =~= expected);
                assert(plan[4] == ReadinessStep::Rearm);
                assert(plan[7] == ReadinessStep::AwaitClosure);
            } else {
                let expected = seq![
                    ReadinessStep::ExpectStaged,
                    arm,
                    ReadinessStep::ReadPayload,
                    ReadinessStep::TriggerClose,
                    ReadinessStep::AwaitClosure,
                    arm,
                    ReadinessStep::ReadEof,
                ];
                assert(plan =~= expected);
                assert(plan[4] == ReadinessStep::AwaitClosure);
            }
        },
        ReadinessFixture::UnixWritable | ReadinessFixture::PipeReaderClosed => {
            if one_shot {
                assert(plan =~= seq![arm, ReadinessStep::Drain, ReadinessStep::Operation]);
            } else {
                assert(plan =~= seq![arm, ReadinessStep::Operation]);
            }
        },
    }
}

/// Whether position `i` of `plan` keeps a disarmed check and its drain
/// together: a check that the registration is disarmed is immediately
/// followed by a drain, and a drain immediately follows such a check.
pub open spec fn drained_at(plan: Seq<ReadinessStep>, i: int) -> bool {
    &&& plan[i] == ReadinessStep::CheckArm(ArmState::Disarmed) ==> i + 1 < plan.len() && plan[i + 1]
        == ReadinessStep::Drain
    &&& plan[i] == ReadinessStep::Drain ==> 0 < i && plan[i - 1] == ReadinessStep::CheckArm(
        ArmState::Disarmed,
    )
}

/// Whether every check that the registration is disarmed is immediately
/// followed by a drain, and every drain immediately follows such a check.
pub open spec fn disarm_checks_drained(plan: Seq<ReadinessStep>) -> bool {
    forall|i: int| 0 <= i < plan.len() ==> #[trigger] drained_at(plan, i)
}

/// Whether `steps` drains after each disarmed check and can be joined to
/// other such blocks: it neither starts with a drain nor ends with a
/// disarmed check.
spec fn joinable(steps: Seq<ReadinessStep>) -> bool {
    &&& disarm_checks_drained(steps)
    &&& steps.len() > 0 ==> steps[0] != ReadinessStep::Drain && steps.last() != ReadinessStep::CheckArm(
        ArmState::Disarmed,
    )
}

/// Whether `steps` holds neither a disarmed check nor a drain.
spec fn undrained(steps: Seq<ReadinessStep>) -> bool {
    forall|i: int|
        0 <= i < steps.len() ==> #[trigger] steps[i] != ReadinessStep::Drain && steps[i]
            != ReadinessStep::CheckArm(ArmState::Disarmed)
}

proof fn lemma_join(first: Seq<ReadinessStep>, second: Seq<ReadinessStep>)
    ensures
        joinable(first) && joinable(second) ==> joinable(first + second),
        undrained(first) && undrained(second) ==> undrained(first + second),
{
    let joined = first + second;
    if joinable(first) && joinable(second) {
        assert forall|i: int| 0 <= i < joined.len() implies #[trigger] drained_at(joined, i) by {
            if i < first.len() {
                assert(drained_at(first, i));
                if i + 1 == first.len() {
                    assert(first[i] == first.last());
                }
            } else {
                assert(drained_at(second, i - first.len()));
            }
        }
    }
    if undrained(first) && undrained(second) {
        assert forall|i: int| 0 <= i < joined.len() implies #[trigger] joined[i] != ReadinessStep::Drain
            && joined[i] != ReadinessStep::CheckArm(ArmState::Disarmed) by {
            if i < first.len() {
                assert(joined[i] == first[i]);
            } else {
                assert(joined[i] == second[i - first.len()]);
            }
        }
    }
}

proof fn lemma_single(step: ReadinessStep)
    requires
        step != ReadinessStep::Drain,
        step != ReadinessStep::CheckArm(ArmState::Disarmed),
    ensures
        joinable(seq![step]),
        undrained(seq![step]),
{
    assert forall|i: int| 0 <= i < 1 implies #[trigger] drained_at(seq![step], i) by {
        assert(i == 0);
    }
}

proof fn lemma_blocks(scenario: ReadinessScenario)
    ensures
        joinable(delivery_steps(scenario)),
        joinable(rearm_steps(scenario)),
        joinable(Seq::<ReadinessStep>::empty()),
        scenario.spec_mode() == Mode::Level ==> undrained(delivery_steps(scenario)) && undrained(
            rearm_steps(scenario),
        ),
        undrained(Seq::<ReadinessStep>::empty()),
{
    let delivery = delivery_steps(scenario);
    let rearm = rearm_steps(scenario);
    assert forall|i: int| 0 <= i < delivery.len() implies #[trigger] drained_at(delivery, i) by {
        assert(i == 0 || i == 1);
    }
    assert forall|i: int| 0 <= i < rearm.len() implies #[trigger] drained_at(rearm, i) by {
        assert(i == 0 || i == 1);
    }
    if scenario.spec_mode() == Mode::Level {
        assert forall|i: int| 0 <= i < delivery.len() implies #[trigger] delivery[i] != ReadinessStep::Drain
            && delivery[i] != ReadinessStep::CheckArm(ArmState::Disarmed) by {
            assert(i == 0);
        }
    }
}

/// A one-shot registration is drained after every delivery: each check
/// that it is disarmed is immediately followed by a drain that must deliver
/// nothing before an explicit rearm. A plan checks a disarmed registration,
/// and drains, exactly when its scenario delivers one-shot.
pub proof fn law_one_shot_deliveries_are_drained(scenario: ReadinessScenario, initial: Observation)
    ensures
        disarm_checks_drained(spec_readiness_plan(scenario, initial)),
        spec_readiness_plan(scenario, initial).contains(ReadinessStep::Drain) <==> scenario.spec_mode()
            == Mode::OneShot,
        spec_readiness_plan(scenario, initial).contains(ReadinessStep::CheckArm(ArmState::Disarmed))
            <==> scenario.spec_mode() == Mode::OneShot,
{
    let plan = spec_readiness_plan(scenario, initial);
    let delivery = delivery_steps(scenario);
    let rearm = rearm_steps(scenario);
    let one_shot = scenario.spec_mode() == Mode::OneShot;
    lemma_blocks(scenario);
    lemma_single(ReadinessStep::ReadPayload);
    lemma_single(ReadinessStep::ReadEof);
    lemma_single(ReadinessStep::AwaitClosure);
    lemma_single(ReadinessStep::ExpectStaged);
    lemma_single(ReadinessStep::TriggerClose);
    lemma_single(ReadinessStep::Operation);
    let payload = seq![ReadinessStep::ReadPayload];
    let eof = seq![ReadinessStep::ReadEof];
    let closure = seq![ReadinessStep::AwaitClosure];
    let k: int;
    match scenario.spec_fixture() {
        ReadinessFixture::UnixPendingEof | ReadinessFixture::PipePendingEof => {
            let tail = if reports_read_closed(initial) {
                Seq::empty()
            } else {
                rearm + closure + delivery
            };
            lemma_join(rearm, closure);
            lemma_join(rearm + closure, delivery);
            lemma_join(delivery, payload);
            lemma_join(delivery + payload, tail);
            lemma_join(delivery + payload + tail, eof);
            assert(plan =~= delivery + payload + tail + eof);
            k = 0;
        },
        ReadinessFixture::TcpPendingEof => {
            let staged = seq![ReadinessStep::ExpectStaged];
            let close = seq![ReadinessStep::TriggerClose, ReadinessStep::AwaitClosure];
            assert(close =~= seq![ReadinessStep::TriggerClose] + closure);
            lemma_join(seq![ReadinessStep::TriggerClose], closure);
            lemma_join(staged, delivery);
            lemma_join(staged + delivery, payload);
            lemma_join(staged + delivery + payload, rearm);
            lemma_join(staged + delivery + payload + rearm, close);
            lemma_join(staged + delivery + payload + rearm + close, delivery);
            lemma_join(staged + delivery + payload + rearm + close + delivery, eof);
            assert(plan =~= staged + delivery + payload + rearm + close + delivery + eof);
            k = 1;
        },
        _ => {
            let operation = seq![ReadinessStep::Operation];
            lemma_join(delivery, operation);
            assert(plan =~= delivery + operation);
            k = 0;
        },
    }
    if one_shot {
        assert(plan[k] == ReadinessStep::CheckArm(ArmState::Disarmed));
        assert(plan[k + 1] == ReadinessStep::Drain);
    } else {
        if plan.contains(ReadinessStep::Drain) {
            let i = choose|i: int| 0 <= i < plan.len() && plan[i] == ReadinessStep::Drain;
            assert(plan[i] != ReadinessStep::Drain);
        }
        if plan.contains(ReadinessStep::CheckArm(ArmState::Disarmed)) {
            let i = choose|i: int| 0 <= i < plan.len() && plan[i] == ReadinessStep::CheckArm(ArmState::Disarmed);
            assert(plan[i] != ReadinessStep::CheckArm(ArmState::Disarmed));
        }
    }
}

} // verus!