//! Candidate-independent contract policy checks.

use std::io;

use zio_testkit::{ExpectedObservation, Observation, ProfileSupport, Scenario};

#[test]
fn contract_requires_every_portable_minimum() -> Result<(), io::Error> {
    let contract = ExpectedObservation::new(
        Observation::readable(),
        Observation::empty(),
        Observation::readable().union(Observation::read_closed()),
    );
    check(
        contract.validate(Observation::read_closed()).is_err(),
        "contract accepted an observation without its required minimum",
    )?;
    check(
        contract.validate(Observation::readable()).is_ok(),
        "contract rejected its required minimum",
    )
}

#[test]
fn contract_requires_one_declared_alternative() -> Result<(), io::Error> {
    let terminal = Observation::read_closed().union(Observation::error());
    let contract = ExpectedObservation::new(Observation::empty(), terminal, terminal);
    check(
        contract.validate(Observation::empty()).is_err(),
        "contract accepted no terminal alternative",
    )?;
    check(
        contract.validate(Observation::error()).is_ok(),
        "contract rejected one declared terminal alternative",
    )
}

#[test]
fn contract_rejects_undocumented_observations() -> Result<(), io::Error> {
    let contract = ExpectedObservation::new(
        Observation::readable(),
        Observation::empty(),
        Observation::readable(),
    );
    check(
        contract
            .validate(Observation::readable().union(Observation::error()))
            .is_err(),
        "contract accepted an undocumented error flag",
    )
}

#[test]
fn scenario_names_are_stable() -> Result<(), io::Error> {
    let expected = [
        "unix.readable.initial_observation",
        "unix.writable.initial_observation",
        "unix.readable.level",
        "unix.writable.level",
        "unix.readable.one_shot",
        "unix.writable.one_shot",
    ];
    check(
        Scenario::all().map(Scenario::name) == expected,
        "qualification scenario names changed",
    )
}

#[test]
fn capability_labels_and_reasons_are_stable() -> Result<(), io::Error> {
    let unavailable = ProfileSupport::HostUnavailable {
        reason: "host limitation",
    };
    check(
        ProfileSupport::Native.name() == "native" && ProfileSupport::Native.reason().is_none(),
        "native capability accessors changed",
    )?;
    check(
        unavailable.name() == "host_unavailable" && unavailable.reason() == Some("host limitation"),
        "unavailable capability accessors changed",
    )
}

fn check(condition: bool, message: &'static str) -> Result<(), io::Error> {
    if condition {
        Ok(())
    } else {
        Err(io::Error::other(message))
    }
}
