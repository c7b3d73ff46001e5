//! Contract checkpoints of the native readiness scenarios.
//!
//! The caller waits on the native poller and performs the associated I/O;
//! it hands each outcome here, and these functions decide whether the
//! scenario still conforms and how it failed.

use vstd::prelude::*;

use crate::delivery::{bytes_debug, events_debug, render_bytes, render_events, DeliveredEvent};
use crate::model_sequence::{ArmState, Key, Mode};
use crate::model_sequence_expect::{quote, quoted, render_state, state_text, ObservedError, SourceKind};
use crate::model_sequence_model::RegistrationState;
use crate::mutation_text::key_debug;
use crate::observation::{ExpectedObservation, Observation};
use crate::readiness::{
    readiness_debug, render_readiness, required_description, required_text, ReadinessCheck,
    ReadinessFailure, ReadinessScenario,
};
use crate::text::{decimal, push_decimal};

verus! {

/// Whether `verdict` rejected `scenario` at `check` with the two texts.
pub open spec fn readiness_rejected<T>(
    verdict: Result<T, ReadinessFailure>,
    scenario: ReadinessScenario,
    check: ReadinessCheck,
    expected: Seq<char>,
    actual: Seq<char>,
) -> bool {
    &&& verdict matches Err(failure)
    &&& failure.spec_scenario() == scenario
    &&& failure.spec_check() == check
    &&& failure.spec_expected() == expected
    &&& failure.spec_actual() == actual
}

fn fail(
    scenario: ReadinessScenario,
    check: ReadinessCheck,
    expected: String,
    actual: String,
) -> (failure: ReadinessFailure)
    ensures
        readiness_rejected(Err::<(), ReadinessFailure>(failure), scenario, check, expected@, actual@),
{
    ReadinessFailure::new(scenario, check, expected, actual)
}

/// The key every readiness scenario registers its resource under.
pub open spec fn spec_resource_key() -> Key {
    Key { value: 5001 }
}

/// Returns the key every readiness scenario registers its resource under.
pub fn resource_key() -> (key: Key)
    ensures
        key == spec_resource_key(),
{
    Key { value: 5001 }
}

/// Requires a delivered readiness set to hold the required flags, one of
/// the alternatives when there are any, and nothing outside the allowance,
/// checked in that order.
pub fn verify_expected(
    scenario: ReadinessScenario,
    expected: ExpectedObservation,
    actual: Observation,
) -> (verdict: Result<(), ReadinessFailure>)
    ensures
        if !(expected.meets_required(actual) && expected.meets_one_of(actual)) {
            readiness_rejected(
                verdict,
                scenario,
                ReadinessCheck::RequiredReadiness,
                quoted(required_text(expected)),
                readiness_debug(actual),
            )
        } else if !expected.within_allowance(actual) {
            readiness_rejected(
                verdict,
                scenario,
                ReadinessCheck::AllowedReadiness,
                readiness_debug(expected.spec_allowed()),
                readiness_debug(actual),
            )
        } else {
            verdict is Ok
        },
{
    let has_required = actual.contains(expected.required()) && (expected.required_any().is_empty()
        || actual.intersects(expected.required_any()));
    if !has_required {
        let description = required_description(expected);
        return Err(
            fail(
                scenario,
                ReadinessCheck::RequiredReadiness,
                quote(description.as_str()),
                render_readiness(actual),
            ),
        );
    }
    if !expected.allowed().contains(actual) {
        return Err(
            fail(
                scenario,
                ReadinessCheck::AllowedReadiness,
                render_readiness(expected.allowed()),
                render_readiness(actual),
            ),
        );
    }
    Ok(())
}

/// The expectation text of a single resource event.
pub open spec fn single_event_text() -> Seq<char> {
    quoted("one resource event with key "@ + key_debug(spec_resource_key()))
}

/// Requires a wait to deliver exactly one resource event under the
/// scenario's key, and returns its readiness.
pub fn single_readiness(
    scenario: ReadinessScenario,
    events: &[DeliveredEvent],
) -> (verdict: Result<Observation, ReadinessFailure>)
    ensures
        match events@ {
            s => if s.len() == 1 && (s[0] matches DeliveredEvent::Resource { key, readiness } && key
                == spec_resource_key()) {
                verdict == Ok::<Observation, ReadinessFailure>(s[0]->readiness)
            } else {
                readiness_rejected(
                    verdict,
                    scenario,
                    ReadinessCheck::Events,
                    single_event_text(),
                    events_debug(s),
                )
            },
        },
{
    if events.len() == 1 {
        match events[0] {
            DeliveredEvent::Resource { key, readiness } => {
                if key.value == 5001 {
                    return Ok(readiness);
                }
            },
            DeliveredEvent::Wake { .. } => {},
        }
    }
    let mut expected = String::from_str("one resource event with key Key(");
    push_decimal(&mut expected, 5001);
    expected.append(")");
    proof {
        reveal_strlit("one resource event with key Key(");
        reveal_strlit("one resource event with key ");
        reveal_strlit("Key(");
    }
    assert(expected@ =~= "one resource event with key "@ + key_debug(spec_resource_key()));
    Err(fail(scenario, ReadinessCheck::Events, quote(expected.as_str()), render_events(events)))
}

/// The delivery eligibility a delivered registration must report: one-shot
/// registrations disarm, level registrations stay armed.
pub open spec fn spec_delivery_arm(scenario: ReadinessScenario) -> ArmState {
    if scenario.spec_mode() == Mode::OneShot {
        ArmState::Disarmed
    } else {
        ArmState::Armed
    }
}

/// Returns the delivery eligibility a delivered registration must report.
pub fn delivery_arm(scenario: ReadinessScenario) -> (arm: ArmState)
    ensures
        arm == spec_delivery_arm(scenario),
{
    match scenario.mode() {
        Mode::OneShot => ArmState::Disarmed,
        Mode::Level => ArmState::Armed,
    }
}

/// The debug text of a state query's result.
pub open spec fn state_result_debug(result: Result<RegistrationState, ObservedError>) -> Seq<char> {
    match result {
        Ok(state) => "Ok("@ + state_text(state) + ")"@,
        Err(error) => "Err("@ + error.text@ + ")"@,
    }
}

/// Requires the registration's portable state to be registered with `arm`.
pub fn verify_arm(
    scenario: ReadinessScenario,
    arm: ArmState,
    actual: &Result<RegistrationState, ObservedError>,
) -> (verdict: Result<(), ReadinessFailure>)
    ensures
        (verdict is Ok) <==> (actual matches Ok(state) && state == (RegistrationState::Registered { arm })),
        verdict is Err ==> readiness_rejected(
            verdict,
            scenario,
            ReadinessCheck::State,
            state_text(RegistrationState::Registered { arm }),
            state_result_debug(*actual),
        ),
{
    let expected = RegistrationState::Registered { arm };
    match actual {
        Ok(state) => {
            if *state == expected {
                return Ok(());
            }
            let mut text = String::from_str("Ok(");
            text.append(render_state(*state));
            text.append(")");
            Err(fail(scenario, ReadinessCheck::State, String::from_str(render_state(expected)), text))
        },
        Err(error) => {
            let mut text = String::from_str("Err(");
            text.append(error.text.as_str());
            text.append(")");
            Err(fail(scenario, ReadinessCheck::State, String::from_str(render_state(expected)), text))
        },
    }
}

/// Requires a nonblocking drain of a one-shot registration to deliver
/// nothing before an explicit rearm.
pub fn expect_drained(
    scenario: ReadinessScenario,
    events: &[DeliveredEvent],
) -> (verdict: Result<(), ReadinessFailure>)
    ensures
        (verdict is Ok) <==> events@.len() == 0,
        verdict is Err ==> readiness_rejected(
            verdict,
            scenario,
            ReadinessCheck::Disarm,
            quoted("no delivery before explicit rearm"@),
            events_debug(events@),
        ),
{
    if events.len() == 0 {
        Ok(())
    } else {
        Err(fail(scenario, ReadinessCheck::Disarm, quote("no delivery before explicit rearm"), render_events(events)))
    }
}

/// The outcome text of a delivery with recovery trouble.
pub open spec fn recovery_text(recovery: Seq<char>, events: Seq<DeliveredEvent>) -> Seq<char> {
    quoted(recovery + "; delivered events: "@ + events_debug(events))
}

/// Requires a wait to report no post-delivery recovery trouble;
/// `recovery` is the text of the reported trouble.
pub fn reject_recovery(
    scenario: ReadinessScenario,
    recovery: Option<&str>,
    events: &[DeliveredEvent],
) -> (verdict: Result<(), ReadinessFailure>)
    ensures
        match recovery {
            None => verdict is Ok,
            Some(text) => readiness_rejected(
                verdict,
                scenario,
                ReadinessCheck::Recovery,
                quoted("valid delivery without post-delivery recovery trouble"@),
                recovery_text(text@, events@),
            ),
        },
{
    match recovery {
        None => Ok(()),
        Some(text) => {
            let mut actual = String::from_str(text);
            actual.append("; delivered events: ");
            let delivered = render_events(events);
            actual.append(delivered.as_str());
            Err(
                fail(
                    scenario,
                    ReadinessCheck::Recovery,
                    quote("valid delivery without post-delivery recovery trouble"),
                    quote(actual.as_str()),
                ),
            )
        },
    }
}

/// Whether a pending-data scenario must wait for a separate closure
/// delivery: the first delivery did not already report read closure.
pub fn needs_closure_stage(initial: Observation) -> (needed: bool)
    ensures
        needed == (initial.bits() & 4 != 4),
{
    !initial.contains(Observation::read_closed())
}

/// Requires the first delivery of a staged scenario to precede the peer's
/// close: it reports no read closure.
pub fn expect_staged_data(scenario: ReadinessScenario, initial: Observation) -> (verdict: Result<(), ReadinessFailure>)
    ensures
        (verdict is Ok) <==> (initial.bits() & 4 != 4),
        verdict is Err ==> readiness_rejected(
            verdict,
            scenario,
            ReadinessCheck::Events,
            quoted("data readiness before the staged peer close"@),
            readiness_debug(initial),
        ),
{
    if initial.contains(Observation::read_closed()) {
        Err(
            fail(
                scenario,
                ReadinessCheck::Events,
                quote("data readiness before the staged peer close"),
                render_readiness(initial),
            ),
        )
    } else {
        Ok(())
    }
}

/// Requires the bytes read after delivery to be the pending payload.
pub fn verify_payload(
    scenario: ReadinessScenario,
    expected: &[u8],
    actual: &[u8],
) -> (verdict: Result<(), ReadinessFailure>)
    ensures
        (verdict is Ok) <==> actual@ == expected@,
        verdict is Err ==> readiness_rejected(
            verdict,
            scenario,
            ReadinessCheck::Operation,
            bytes_debug(expected@),
            bytes_debug(actual@),
        ),
{
    let mut same = expected.len() == actual.len();
    let mut i: usize = 0;
    while same && i < expected.len()
        invariant
            i <= expected@.len(),
            same ==> expected@.len() == actual@.len(),
            same ==> forall|j: int| 0 <= j < i ==> expected@[j] == actual@[j],
            !same ==> expected@ != actual@,
        decreases expected@.len() - i,
    {
        if expected[i] != actual[i] {
            same = false;
        }
        i = i + 1;
    }
    if same {
        assert(expected@ =~= actual@);
        Ok(())
    } else {
        Err(fail(scenario, ReadinessCheck::Operation, render_bytes(expected), render_bytes(actual)))
    }
}

/// The debug text of a read's result.
pub open spec fn read_result_debug(result: Result<usize, ObservedError>) -> Seq<char> {
    match result {
        Ok(count) => "Ok("@ + decimal(count as nat) + ")"@,
        Err(error) => "Err("@ + error.text@ + ")"@,
    }
}

/// Requires the read after the payload to report end of file: zero bytes.
pub fn verify_eof(
    scenario: ReadinessScenario,
    read: &Result<usize, ObservedError>,
) -> (verdict: Result<(), ReadinessFailure>)
    ensures
        (verdict is Ok) <==> (read matches Ok(count) && count == 0),
        verdict is Err ==> readiness_rejected(
            verdict,
            scenario,
            ReadinessCheck::Operation,
            quoted("zero-byte EOF after pending payload"@),
            read_result_debug(*read),
        ),
{
    match read {
        Ok(count) => {
            if *count == 0 {
                return Ok(());
            }
            let mut text = String::from_str("Ok(");
            push_decimal(&mut text, *count as u64);
            text.append(")");
            Err(fail(scenario, ReadinessCheck::Operation, quote("zero-byte EOF after pending payload"), text))
        },
        Err(error) => {
            let mut text = String::from_str("Err(");
            text.append(error.text.as_str());
            text.append(")");
            Err(fail(scenario, ReadinessCheck::Operation, quote("zero-byte EOF after pending payload"), text))
        },
    }
}

/// Requires the peer of a writable stream to receive the one byte written:
/// the letter `w`.
pub fn verify_written_byte(scenario: ReadinessScenario, received: u8) -> (verdict: Result<(), ReadinessFailure>)
    ensures
        (verdict is Ok) <==> received == 119,
        verdict is Err ==> readiness_rejected(
            verdict,
            scenario,
            ReadinessCheck::Operation,
            bytes_debug(seq![119u8]),
            bytes_debug(seq![received]),
        ),
{
    if received == 119 {
        Ok(())
    } else {
        let expected: [u8; 1] = [119];
        let actual: [u8; 1] = [received];
        let expected_text = render_bytes(&expected);
        let actual_text = render_bytes(&actual);
        assert(expected@ =~= seq![119u8]);
        assert(actual@ =~= seq![received]);
        Err(fail(scenario, ReadinessCheck::Operation, expected_text, actual_text))
    }
}

/// Requires a write after the reader closed to fail with a broken pipe;
/// `write_text` is the diagnostic text of the write's result.
pub fn verify_broken_pipe(
    scenario: ReadinessScenario,
    write: &Result<usize, SourceKind>,
    write_text: &str,
) -> (verdict: Result<(), ReadinessFailure>)
    ensures
        (verdict is Ok) <==> (write matches Err(kind) && kind == SourceKind::BrokenPipe),
        verdict is Err ==> readiness_rejected(
            verdict,
            scenario,
            ReadinessCheck::Operation,
            quoted("BrokenPipe from write after reader close"@),
            write_text@,
        ),
{
    match write {
        Err(SourceKind::BrokenPipe) => Ok(()),
        _ => Err(
            fail(
                scenario,
                ReadinessCheck::Operation,
                quote("BrokenPipe from write after reader close"),
                String::from_str(write_text),
            ),
        ),
    }
}

/// The verdict of a scenario whose observation ended with `result` and
/// whose registration cleanup ended with `cleanup`: the observation's
/// failure wins, then the cleanup's.
pub fn with_cleanup(
    result: Result<(), ReadinessFailure>,
    cleanup: Result<(), ReadinessFailure>,
) -> (verdict: Result<(), ReadinessFailure>)
    ensures
        verdict == match result {
            Err(failure) => Err(failure),
            Ok(()) => cleanup,
        },
{
    match result {
        Err(failure) => Err(failure),
        Ok(()) => cleanup,
    }
}

} // verus!
