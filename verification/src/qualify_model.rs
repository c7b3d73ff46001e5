//! Vendor-neutral qualification vocabulary.

use vstd::prelude::*;

verus! {

/// A readiness implementation evaluated by the qualification matrix.
#[derive(Clone, Copy, Debug, Eq, Hash, PartialEq, Structural)]
pub enum Implementation {
    /// Zio's public poller.
    Zio,
    /// Zio's explicit borrowed-registration tier.
    ZioBorrowed,
    /// Mio's public poller.
    Mio,
    /// The `polling` crate's public poller.
    Polling,
}

/// Every candidate in stable report order.
pub open spec fn all_implementations() -> Seq<Implementation> {
    seq![
        Implementation::Zio,
        Implementation::ZioBorrowed,
        Implementation::Mio,
        Implementation::Polling,
    ]
}

impl Implementation {
    /// Every candidate in stable report order.
    pub fn all() -> (all: [Implementation; 4])
        ensures
            all@ == all_implementations(),
    {
        let all = [
            Implementation::Zio,
            Implementation::ZioBorrowed,
            Implementation::Mio,
            Implementation::Polling,
        ];
        assert(all@ =~= all_implementations());
        all
    }

    /// The stable receipt name.
    pub open spec fn spec_name(self) -> Seq<char> {
        match self {
            Implementation::Zio => "zio"@,
            Implementation::ZioBorrowed => "zio-borrowed"@,
            Implementation::Mio => "mio"@,
            Implementation::Polling => "polling"@,
        }
    }

    /// Returns the stable receipt name.
    pub fn name(self) -> (name: &'static str)
        ensures
            name@ == self.spec_name(),
    {
        match self {
            Implementation::Zio => "zio",
            Implementation::ZioBorrowed => "zio-borrowed",
            Implementation::Mio => "mio",
            Implementation::Polling => "polling",
        }
    }
}

/// Delivery semantics covered by a scenario.
#[derive(Clone, Copy, Debug, Eq, Hash, PartialEq, Structural)]
pub enum DeliveryProfile {
    /// Only the first observation is in scope; each API uses its stated setup.
    InitialObservation,
    /// Native level-triggered repeated delivery is required.
    Level,
    /// Native one-shot disarm and explicit rearm are required.
    OneShot,
}

/// Delivery semantics actually configured through a candidate API.
#[derive(Clone, Copy, Debug, Eq, Hash, PartialEq, Structural)]
pub enum ConfiguredDelivery {
    /// Explicit level-triggered delivery.
    Level,
    /// Explicit one-shot delivery.
    OneShot,
    /// Candidate-native delivery without a selectable mode.
    NativeDefault,
}

impl ConfiguredDelivery {
    /// The stable receipt label.
    pub open spec fn spec_name(self) -> Seq<char> {
        match self {
            ConfiguredDelivery::Level => "level"@,
            ConfiguredDelivery::OneShot => "one_shot"@,
            ConfiguredDelivery::NativeDefault => "native_default"@,
        }
    }

    /// Returns the stable receipt label.
    pub fn name(self) -> (name: &'static str)
        ensures
            name@ == self.spec_name(),
    {
        match self {
            ConfiguredDelivery::Level => "level",
            ConfiguredDelivery::OneShot => "one_shot",
            ConfiguredDelivery::NativeDefault => "native_default",
        }
    }
}

/// Whether a candidate exposes a delivery profile on this host.
#[derive(Clone, Copy, Debug, Eq, PartialEq)]
pub enum ProfileSupport {
    /// The library natively exposes the requested profile.
    Native,
    /// The library does not expose this semantic axis.
    NotExposed {
        /// Stable explanation suitable for a receipt.
        reason: &'static str,
    },
    /// The library exposes the profile, but the host backend does not.
    HostUnavailable {
        /// Stable explanation suitable for a receipt.
        reason: &'static str,
    },
}

impl ProfileSupport {
    /// The stable capability label.
    pub open spec fn spec_name(self) -> Seq<char> {
        match self {
            ProfileSupport::Native => "native"@,
            ProfileSupport::NotExposed { .. } => "not_exposed"@,
            ProfileSupport::HostUnavailable { .. } => "host_unavailable"@,
        }
    }

    /// Returns a stable capability label.
    pub fn name(self) -> (name: &'static str)
        ensures
            name@ == self.spec_name(),
    {
        match self {
            ProfileSupport::Native => "native",
            ProfileSupport::NotExposed { .. } => "not_exposed",
            ProfileSupport::HostUnavailable { .. } => "host_unavailable",
        }
    }

    /// Returns the stable reason when the profile cannot run.
    pub fn reason(self) -> (reason: Option<&'static str>)
        ensures
            match self {
                ProfileSupport::Native => reason is None,
                ProfileSupport::NotExposed { reason: why } => reason == Some(why),
                ProfileSupport::HostUnavailable { reason: why } => reason == Some(why),
            },
    {
        match self {
            ProfileSupport::Native => None,
            ProfileSupport::NotExposed { reason } => Some(reason),
            ProfileSupport::HostUnavailable { reason } => Some(reason),
        }
    }
}

/// Readiness direction exercised by a fixture.
#[derive(Clone, Copy, Debug, Eq, Hash, PartialEq, Structural)]
pub enum Interest {
    /// Readable progress.
    Readable,
    /// Writable progress.
    Writable,
}

/// One stable native qualification scenario.
#[derive(Clone, Copy, Debug, Eq, Hash, PartialEq, Structural)]
pub enum Scenario {
    /// Initial readable observation under each API's stated setup.
    UnixReadableInitial,
    /// Initial writable observation under each API's stated setup.
    UnixWritableInitial,
    /// Repeated native level-readable delivery.
    UnixReadableLevel,
    /// Repeated native level-writable delivery.
    UnixWritableLevel,
    /// Native one-shot readable disarm and rearm.
    UnixReadableOneShot,
    /// Native one-shot writable disarm and rearm.
    UnixWritableOneShot,
}

/// Every scenario in stable receipt order.
pub open spec fn all_scenarios() -> Seq<Scenario> {
    seq![
        Scenario::UnixReadableInitial,
        Scenario::UnixWritableInitial,
        Scenario::UnixReadableLevel,
        Scenario::UnixWritableLevel,
        Scenario::UnixReadableOneShot,
        Scenario::UnixWritableOneShot,
    ]
}

impl Scenario {
    /// Every scenario in stable receipt order.
    pub fn all() -> (all: [Scenario; 6])
        ensures
            all@ == all_scenarios(),
    {
        let all = [
            Scenario::UnixReadableInitial,
            Scenario::UnixWritableInitial,
            Scenario::UnixReadableLevel,
            Scenario::UnixWritableLevel,
            Scenario::UnixReadableOneShot,
            Scenario::UnixWritableOneShot,
        ];
        assert(all@ =~= all_scenarios());
        all
    }

    /// The stable scenario name.
    pub open spec fn spec_name(self) -> Seq<char> {
        match self {
            Scenario::UnixReadableInitial => "unix.readable.initial_observation"@,
            Scenario::UnixWritableInitial => "unix.writable.initial_observation"@,
            Scenario::UnixReadableLevel => "unix.readable.level"@,
            Scenario::UnixWritableLevel => "unix.writable.level"@,
            Scenario::UnixReadableOneShot => "unix.readable.one_shot"@,
            Scenario::UnixWritableOneShot => "unix.writable.one_shot"@,
        }
    }

    /// The fixture direction.
    pub open spec fn spec_interest(self) -> Interest {
        match self {
            Scenario::UnixReadableInitial
            | Scenario::UnixReadableLevel
            | Scenario::UnixReadableOneShot => Interest::Readable,
            _ => Interest::Writable,
        }
    }

    /// The delivery profile under qualification.
    pub open spec fn spec_profile(self) -> DeliveryProfile {
        match self {
            Scenario::UnixReadableInitial
            | Scenario::UnixWritableInitial => DeliveryProfile::InitialObservation,
            Scenario::UnixReadableLevel | Scenario::UnixWritableLevel => DeliveryProfile::Level,
            _ => DeliveryProfile::OneShot,
        }
    }

    /// Returns the stable scenario name.
    pub fn name(self) -> (name: &'static str)
        ensures
            name@ == self.spec_name(),
    {
        match self {
            Scenario::UnixReadableInitial => "unix.readable.initial_observation",
            Scenario::UnixWritableInitial => "unix.writable.initial_observation",
            Scenario::UnixReadableLevel => "unix.readable.level",
            Scenario::UnixWritableLevel => "unix.writable.level",
            Scenario::UnixReadableOneShot => "unix.readable.one_shot",
            Scenario::UnixWritableOneShot => "unix.writable.one_shot",
        }
    }

    /// Returns the fixture direction.
    pub fn interest(self) -> (interest: Interest)
        ensures
            interest == self.spec_interest(),
    {
        match self {
            Scenario::UnixReadableInitial
            | Scenario::UnixReadableLevel
            | Scenario::UnixReadableOneShot => Interest::Readable,
            _ => Interest::Writable,
        }
    }

    /// Returns the delivery profile under qualification.
    pub fn profile(self) -> (profile: DeliveryProfile)
        ensures
            profile == self.spec_profile(),
    {
        match self {
            Scenario::UnixReadableInitial
            | Scenario::UnixWritableInitial => DeliveryProfile::InitialObservation,
            Scenario::UnixReadableLevel | Scenario::UnixWritableLevel => DeliveryProfile::Level,
            _ => DeliveryProfile::OneShot,
        }
    }
}

/// Each scenario is the unique one with its direction and profile: the six
/// scenarios are exactly the pairs of two directions and three profiles.
pub proof fn law_scenario_determined_by_interest_and_profile(first: Scenario, second: Scenario)
    requires
        first.spec_interest() == second.spec_interest(),
        first.spec_profile() == second.spec_profile(),
    ensures
        first == second,
{
}

/// The registration parameters handed to a candidate.
#[derive(Clone, Copy, Debug)]
pub struct RegistrationSpec {
    /// Caller-selected key.
    pub key: usize,
    /// Fixture direction.
    pub interest: Interest,
    /// Profile under qualification.
    pub profile: DeliveryProfile,
}

} // verus!
