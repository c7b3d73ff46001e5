//! The stranger poller that wrong-poller probes use, and its invariant.

use vstd::prelude::*;

use crate::model_sequence::{ArmState, InterestSet, Key, Mode};
use crate::model_sequence_expect::{quote, quoted, render_state, state_text, ObservedError};
use crate::model_sequence_failure::{divergence_is, Divergence, ModelSequenceCheck};
use crate::model_sequence_model::{BackendState, RegistrationState};
use crate::mutation_text::{backend_debug, render_backend};
use crate::text::{decimal, push_decimal};

verus! {

/// The key of the stranger poller's one registration.
pub fn stranger_key() -> (key: Key)
    ensures
        key.value == 0x5a10_ffff_ffff_ffff,
{
    Key { value: 0x5a10_ffff_ffff_ffff }
}

/// The stranger registration's interest: readable.
pub open spec fn spec_stranger_interest() -> InterestSet {
    InterestSet { readable: true, writable: false }
}

/// Returns the stranger registration's interest.
pub fn stranger_interest() -> (interest: InterestSet)
    ensures
        interest == spec_stranger_interest(),
{
    InterestSet { readable: true, writable: false }
}

/// Returns the stranger registration's mode: level.
pub fn stranger_mode() -> (mode: Mode)
    ensures
        mode == Mode::Level,
{
    Mode::Level
}

/// The backend state the stranger registration keeps.
pub open spec fn spec_stranger_backend() -> BackendState {
    BackendState::Registered { interest: spec_stranger_interest(), mode: Mode::Level, arm: ArmState::Armed }
}

/// Requires the stranger poller to be untouched by every probe: its one
/// registration stays armed, its backend keeps the registered level
/// readable state, and it has seen exactly its setup call.
pub fn verify_stranger(
    state: &Result<RegistrationState, ObservedError>,
    backend: BackendState,
    calls: usize,
) -> (verdict: Result<(), Divergence>)
    ensures
        match state {
            Err(error) => verdict matches Err(d) && divergence_is(
                d,
                ModelSequenceCheck::Result,
                quoted("registered stranger handle"@),
                error.text@,
            ),
            Ok(actual) => if *actual != (RegistrationState::Registered { arm: ArmState::Armed }) {
                verdict matches Err(d) && divergence_is(
                    d,
                    ModelSequenceCheck::State,
                    state_text(RegistrationState::Registered { arm: ArmState::Armed }),
                    state_text(*actual),
                )
            } else if backend != spec_stranger_backend() {
                verdict matches Err(d) && divergence_is(
                    d,
                    ModelSequenceCheck::Backend,
                    backend_debug(spec_stranger_backend()),
                    backend_debug(backend),
                )
            } else if calls != 1 {
                verdict matches Err(d) && divergence_is(
                    d,
                    ModelSequenceCheck::Calls,
                    "one stranger setup call"@,
                    decimal(calls as nat) + " calls"@,
                )
            } else {
                verdict is Ok
            },
        },
{
    let armed = RegistrationState::Registered { arm: ArmState::Armed };
    match state {
        Err(error) => Err(
            Divergence::new(
                ModelSequenceCheck::Result,
                quote("registered stranger handle"),
                String::from_str(error.text.as_str()),
            ),
        ),
        Ok(actual) => {
            if *actual != armed {
                return Err(
                    Divergence::new(
                        ModelSequenceCheck::State,
                        String::from_str(render_state(armed)),
                        String::from_str(render_state(*actual)),
                    ),
                );
            }
            let expected_backend = BackendState::Registered {
                interest: stranger_interest(),
                mode: Mode::Level,
                arm: ArmState::Armed,
            };
            if backend != expected_backend {
                return Err(
                    Divergence::new(
                        ModelSequenceCheck::Backend,
                        render_backend(expected_backend),
                        render_backend(backend),
                    ),
                );
            }
            if calls != 1 {
                let mut text = String::new();
                push_decimal(&mut text, calls as u64);
                text.append(" calls");
                return Err(
                    Divergence::new(ModelSequenceCheck::Calls, String::from_str("one stranger setup call"), text),
                );
            }
            Ok(())
        },
    }
}

} // verus!
