//! Debug texts of the poller vocabulary that mutation diagnostics quote.

use vstd::prelude::*;

use crate::model_sequence::{ArmState, InterestSet, Key, Mode};
use crate::model_sequence_expect::{id_text, render_id, render_state, state_text};
use crate::model_sequence_model::{BackendState, MutationCall};
use crate::text::{decimal, push_decimal};

verus! {

/// The debug text of an interest: its flag bits, readable first.
pub open spec fn interest_debug(interest: InterestSet) -> Seq<char> {
    if interest.readable && interest.writable {
        "Interest(3)"@
    } else if interest.readable {
        "Interest(1)"@
    } else if interest.writable {
        "Interest(2)"@
    } else {
        "Interest(0)"@
    }
}

/// Returns the debug text of an interest.
pub fn render_interest(interest: InterestSet) -> (text: &'static str)
    ensures
        text@ == interest_debug(interest),
{
    if interest.readable && interest.writable {
        "Interest(3)"
    } else if interest.readable {
        "Interest(1)"
    } else if interest.writable {
        "Interest(2)"
    } else {
        "Interest(0)"
    }
}

/// The debug text of a mode.
pub open spec fn mode_debug(mode: Mode) -> Seq<char> {
    match mode {
        Mode::Level => "Level"@,
        Mode::OneShot => "OneShot"@,
    }
}

/// Returns the debug text of a mode.
pub fn render_mode(mode: Mode) -> (text: &'static str)
    ensures
        text@ == mode_debug(mode),
{
    match mode {
        Mode::Level => "Level",
        Mode::OneShot => "OneShot",
    }
}

/// The debug text of a delivery eligibility.
pub open spec fn arm_debug(arm: ArmState) -> Seq<char> {
    match arm {
        ArmState::Armed => "Armed"@,
        ArmState::Disarmed => "Disarmed"@,
    }
}

/// Returns the debug text of a delivery eligibility.
pub fn render_arm(arm: ArmState) -> (text: &'static str)
    ensures
        text@ == arm_debug(arm),
{
    match arm {
        ArmState::Armed => "Armed",
        ArmState::Disarmed => "Disarmed",
    }
}

/// The debug text of a key.
pub open spec fn key_debug(key: Key) -> Seq<char> {
    "Key("@ + decimal(key.value as nat) + ")"@
}

/// Returns the debug text of a key.
pub fn render_key(key: Key) -> (text: String)
    ensures
        text@ == key_debug(key),
{
    let mut text = String::from_str("Key(");
    push_decimal(&mut text, key.value);
    text.append(")");
    text
}

/// The debug text of a scripted backend state.
pub open spec fn backend_debug(state: BackendState) -> Seq<char> {
    match state {
        BackendState::Absent => "Absent"@,
        BackendState::Registered { interest, mode, arm } => "Registered { interest: "@
            + interest_debug(interest) + ", mode: "@ + mode_debug(mode) + ", arm: "@ + arm_debug(arm)
            + " }"@,
        BackendState::Unknown => "Unknown"@,
    }
}

/// Returns the debug text of a scripted backend state.
pub fn render_backend(state: BackendState) -> (text: String)
    ensures
        text@ == backend_debug(state),
{
    match state {
        BackendState::Absent => String::from_str("Absent"),
        BackendState::Registered { interest, mode, arm } => {
            let mut text = String::from_str("Registered { interest: ");
            text.append(render_interest(interest));
            text.append(", mode: ");
            text.append(render_mode(mode));
            text.append(", arm: ");
            text.append(render_arm(arm));
            text.append(" }");
            text
        },
        BackendState::Unknown => String::from_str("Unknown"),
    }
}

/// The debug text of a normalized backend call.
pub open spec fn call_debug(call: MutationCall) -> Seq<char> {
    match call {
        MutationCall::Register { registration, key, interest, mode } => "Register { registration: "@
            + id_text(registration) + ", key: "@ + key_debug(key) + ", interest: "@ + interest_debug(
            interest,
        ) + ", mode: "@ + mode_debug(mode) + " }"@,
        MutationCall::Modify {
            registration,
            previous_interest,
            previous_mode,
            previous_arm,
            desired_interest,
            desired_mode,
        } => "Modify { registration: "@ + id_text(registration) + ", previous_interest: "@
            + interest_debug(previous_interest) + ", previous_mode: "@ + mode_debug(previous_mode)
            + ", previous_arm: "@ + arm_debug(previous_arm) + ", desired_interest: "@ + interest_debug(
            desired_interest,
        ) + ", desired_mode: "@ + mode_debug(desired_mode) + " }"@,
        MutationCall::Delete { registration, interest, state } => "Delete { registration: "@
            + id_text(registration) + ", interest: "@ + interest_debug(interest) + ", state: "@
            + state_text(state) + " }"@,
        MutationCall::EstablishDisarmed { registration } => "EstablishDisarmed { registration: "@
            + id_text(registration) + " }"@,
    }
}

/// Returns the debug text of a normalized backend call.
pub fn render_call(call: MutationCall) -> (text: String)
    ensures
        text@ == call_debug(call),
{
    match call {
        MutationCall::Register { registration, key, interest, mode } => {
            let mut text = String::from_str("Register { registration: ");
            let id = render_id(registration);
            text.append(id.as_str());
            text.append(", key: ");
            let key_text = render_key(key);
            text.append(key_text.as_str());
            text.append(", interest: ");
            text.append(render_interest(interest));
            text.append(", mode: ");
            text.append(render_mode(mode));
            text.append(" }");
            text
        },
        MutationCall::Modify {
            registration,
            previous_interest,
            previous_mode,
            previous_arm,
            desired_interest,
            desired_mode,
        } => {
            let mut text = String::from_str("Modify { registration: ");
            let id = render_id(registration);
            text.append(id.as_str());
            text.append(", previous_interest: ");
            text.append(render_interest(previous_interest));
            text.append(", previous_mode: ");
            text.append(render_mode(previous_mode));
            text.append(", previous_arm: ");
            text.append(render_arm(previous_arm));
            text.append(", desired_interest: ");
            text.append(render_interest(desired_interest));
            text.append(", desired_mode: ");
            text.append(render_mode(desired_mode));
            text.append(" }");
            text
        },
        MutationCall::Delete { registration, interest, state } => {
            let mut text = String::from_str("Delete { registration: ");
            let id = render_id(registration);
            text.append(id.as_str());
            text.append(", interest: ");
            text.append(render_interest(interest));
            text.append(", state: ");
            text.append(render_state(state));
            text.append(" }");
            text
        },
        MutationCall::EstablishDisarmed { registration } => {
            let mut text = String::from_str("EstablishDisarmed { registration: ");
            let id = render_id(registration);
            text.append(id.as_str());
            text.append(" }");
            text
        },
    }
}

} // verus!
