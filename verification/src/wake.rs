//! Wake conformance scenarios, their checkpoints, and diagnostics.

use vstd::prelude::*;

use crate::delivery::{events_debug, render_events, DeliveredEvent};
use crate::model_sequence::Key;
use crate::model_sequence_expect::{quote, quoted};
use crate::mutation_text::{key_debug, render_key};

verus! {

/// One wake behavior covered by the suite.
#[derive(Clone, Copy, Debug, Eq, Hash, PartialEq, Structural)]
pub enum WakeScenario {
    /// Repeated configuration and clones share one key.
    SameKeyClones,
    /// A second key is rejected while the first stays usable.
    ConflictingKey,
    /// Many wakes before a wait coalesce into one event.
    PreWaitStorm,
    /// A clone wakes a poller blocked in a wait.
    CloneAcrossWait,
    /// Concurrent producers coalesce into one event.
    MultiProducerStorm,
    /// Cross-thread wakes are delivered round after round.
    RepeatedCrossThread,
    /// A wake is delivered through a destination of capacity one that a
    /// ready resource also competes for.
    CapacityOneSaturation,
}

/// Same-key configuration and clones.
pub const WAKE_SAME_KEY_CLONES: WakeScenario = WakeScenario::SameKeyClones;

/// Conflicting-key rejection.
pub const WAKE_CONFLICTING_KEY: WakeScenario = WakeScenario::ConflictingKey;

/// Pre-wait wake storm.
pub const WAKE_PRE_WAIT_STORM: WakeScenario = WakeScenario::PreWaitStorm;

/// Clone waking a blocked wait.
pub const WAKE_CLONE_ACROSS_WAIT: WakeScenario = WakeScenario::CloneAcrossWait;

/// Saturated capacity-one delivery.
pub const WAKE_CAPACITY_ONE_SATURATION: WakeScenario = WakeScenario::CapacityOneSaturation;

/// Every wake scenario in stable execution order.
pub open spec fn all_wake_scenarios() -> Seq<WakeScenario> {
    seq![
        WakeScenario::SameKeyClones,
        WakeScenario::ConflictingKey,
        WakeScenario::PreWaitStorm,
        WakeScenario::CloneAcrossWait,
        WakeScenario::MultiProducerStorm,
        WakeScenario::RepeatedCrossThread,
        WakeScenario::CapacityOneSaturation,
    ]
}

impl WakeScenario {
    /// Every wake scenario in stable execution order.
    pub fn all() -> (all: Vec<WakeScenario>)
        ensures
            all@ == all_wake_scenarios(),
    {
        let all = vec![
            WakeScenario::SameKeyClones,
            WakeScenario::ConflictingKey,
            WakeScenario::PreWaitStorm,
            WakeScenario::CloneAcrossWait,
            WakeScenario::MultiProducerStorm,
            WakeScenario::RepeatedCrossThread,
            WakeScenario::CapacityOneSaturation,
        ];
        assert(all@ =~= all_wake_scenarios());
        all
    }

    /// The stable scenario name.
    pub open spec fn spec_name(self) -> Seq<char> {
        match self {
            WakeScenario::SameKeyClones => "wake.same_key_clones"@,
            WakeScenario::ConflictingKey => "wake.conflicting_key"@,
            WakeScenario::PreWaitStorm => "wake.pre_wait_storm"@,
            WakeScenario::CloneAcrossWait => "wake.clone_across_wait"@,
            WakeScenario::MultiProducerStorm => "wake.multi_producer_storm"@,
            WakeScenario::RepeatedCrossThread => "wake.repeated_cross_thread"@,
            WakeScenario::CapacityOneSaturation => "wake.capacity_one_saturation"@,
        }
    }

    /// Returns the stable scenario name.
    pub fn name(self) -> (name: &'static str)
        ensures
            name@ == self.spec_name(),
    {
        match self {
            WakeScenario::SameKeyClones => "wake.same_key_clones",
            WakeScenario::ConflictingKey => "wake.conflicting_key",
            WakeScenario::PreWaitStorm => "wake.pre_wait_storm",
            WakeScenario::CloneAcrossWait => "wake.clone_across_wait",
            WakeScenario::MultiProducerStorm => "wake.multi_producer_storm",
            WakeScenario::RepeatedCrossThread => "wake.repeated_cross_thread",
            WakeScenario::CapacityOneSaturation => "wake.capacity_one_saturation",
        }
    }

    /// The wake key the scenario configures.
    pub open spec fn spec_key(self) -> Key {
        match self {
            WakeScenario::SameKeyClones => Key { value: 4001 },
            WakeScenario::ConflictingKey => Key { value: 4002 },
            WakeScenario::PreWaitStorm => Key { value: 4101 },
            WakeScenario::CloneAcrossWait => Key { value: 4102 },
            WakeScenario::MultiProducerStorm => Key { value: 4103 },
            WakeScenario::RepeatedCrossThread => Key { value: 4104 },
            WakeScenario::CapacityOneSaturation => Key { value: 4201 },
        }
    }

    /// Returns the wake key the scenario configures.
    pub fn key(self) -> (key: Key)
        ensures
            key == self.spec_key(),
    {
        match self {
            WakeScenario::SameKeyClones => Key { value: 4001 },
            WakeScenario::ConflictingKey => Key { value: 4002 },
            WakeScenario::PreWaitStorm => Key { value: 4101 },
            WakeScenario::CloneAcrossWait => Key { value: 4102 },
            WakeScenario::MultiProducerStorm => Key { value: 4103 },
            WakeScenario::RepeatedCrossThread => Key { value: 4104 },
            WakeScenario::CapacityOneSaturation => Key { value: 4201 },
        }
    }
}

/// The key a conflicting-key scenario requests after configuring its own.
pub fn requested_conflicting_key() -> (key: Key)
    ensures
        key.value == 4003,
{
    Key { value: 4003 }
}

/// Contract checkpoint that rejected a wake observation.
#[derive(Clone, Copy, Debug, Eq, Hash, PartialEq, Structural)]
pub enum WakeCheck {
    /// The poller, source, or event destination could not be created.
    Setup,
    /// Waker configuration or cloning diverged.
    Configuration,
    /// Triggering a wake failed.
    Trigger,
    /// A bounded or nonblocking wait failed.
    Wait,
    /// Delivered events differed from the expected logical batch.
    Events,
    /// A wake remained observable after it should have drained.
    Drain,
    /// Bounded test coordination did not complete in time.
    Deadline,
    /// Registration state diverged after saturated delivery.
    State,
    /// Registration cleanup failed.
    Cleanup,
}

impl WakeCheck {
    /// The checkpoint's stable diagnostic name.
    pub open spec fn spec_label(self) -> Seq<char> {
        match self {
            WakeCheck::Setup => "Setup"@,
            WakeCheck::Configuration => "Configuration"@,
            WakeCheck::Trigger => "Trigger"@,
            WakeCheck::Wait => "Wait"@,
            WakeCheck::Events => "Events"@,
            WakeCheck::Drain => "Drain"@,
            WakeCheck::Deadline => "Deadline"@,
            WakeCheck::State => "State"@,
            WakeCheck::Cleanup => "Cleanup"@,
        }
    }

    /// Returns the checkpoint's stable diagnostic name.
    pub fn label(self) -> (label: &'static str)
        ensures
            label@ == self.spec_label(),
    {
        match self {
            WakeCheck::Setup => "Setup",
            WakeCheck::Configuration => "Configuration",
            WakeCheck::Trigger => "Trigger",
            WakeCheck::Wait => "Wait",
            WakeCheck::Events => "Events",
            WakeCheck::Drain => "Drain",
            WakeCheck::Deadline => "Deadline",
            WakeCheck::State => "State",
            WakeCheck::Cleanup => "Cleanup",
        }
    }
}

/// One wake scenario failure with machine-readable location and observed values.
#[derive(Clone, Debug, Eq, PartialEq)]
pub struct WakeFailure {
    scenario: WakeScenario,
    check: WakeCheck,
    expected: String,
    actual: String,
}

impl WakeFailure {
    /// The failed scenario.
    pub closed spec fn spec_scenario(&self) -> WakeScenario {
        self.scenario
    }

    /// The failed checkpoint.
    pub closed spec fn spec_check(&self) -> WakeCheck {
        self.check
    }

    /// The expected observation.
    pub closed spec fn spec_expected(&self) -> Seq<char> {
        self.expected@
    }

    /// The actual observation.
    pub closed spec fn spec_actual(&self) -> Seq<char> {
        self.actual@
    }

    /// Creates a structured wake-conformance failure.
    pub fn new(scenario: WakeScenario, check: WakeCheck, expected: String, actual: String) -> (failure: WakeFailure)
        ensures
            failure.spec_scenario() == scenario,
            failure.spec_check() == check,
            failure.spec_expected() == expected@,
            failure.spec_actual() == actual@,
    {
        WakeFailure { scenario, check, expected, actual }
    }

    /// Returns the failed scenario.
    pub fn scenario(&self) -> (scenario: WakeScenario)
        ensures
            scenario == self.spec_scenario(),
    {
        self.scenario
    }

    /// Returns the failed contract checkpoint.
    pub fn check(&self) -> (check: WakeCheck)
        ensures
            check == self.spec_check(),
    {
        self.check
    }

    /// Returns the expected observation.
    pub fn expected(&self) -> (expected: &str)
        ensures
            expected@ == self.spec_expected(),
    {
        self.expected.as_str()
    }

    /// Returns the actual observation.
    pub fn actual(&self) -> (actual: &str)
        ensures
            actual@ == self.spec_actual(),
    {
        self.actual.as_str()
    }

    /// The text form: scenario, checkpoint, expectation, and observation.
    pub open spec fn spec_text(&self) -> Seq<char> {
        self.spec_scenario().spec_name() + " failed "@ + self.spec_check().spec_label()
            + ": expected "@ + self.spec_expected() + ", observed "@ + self.spec_actual()
    }

    /// Returns the text form.
    pub fn to_text(&self) -> (text: String)
        ensures
            text@ == self.spec_text(),
    {
        let mut text = String::from_str(self.scenario.name());
        text.append(" failed ");
        text.append(self.check.label());
        text.append(": expected ");
        text.append(self.expected.as_str());
        text.append(", observed ");
        text.append(self.actual.as_str());
        text
    }
}

/// Whether `verdict` rejected `scenario` at `check` with the two texts.
pub open spec fn wake_rejected<T>(
    verdict: Result<T, WakeFailure>,
    scenario: WakeScenario,
    check: WakeCheck,
    expected: Seq<char>,
    actual: Seq<char>,
) -> bool {
    &&& verdict matches Err(failure)
    &&& failure.spec_scenario() == scenario
    &&& failure.spec_check() == check
    &&& failure.spec_expected() == expected
    &&& failure.spec_actual() == actual
}

fn fail(scenario: WakeScenario, check: WakeCheck, expected: String, actual: String) -> (failure: WakeFailure)
    ensures
        wake_rejected(Err::<(), WakeFailure>(failure), scenario, check, expected@, actual@),
{
    WakeFailure::new(scenario, check, expected, actual)
}

/// Requires a wait to deliver exactly one wake event carrying `key`.
pub fn expect_single_wake(
    scenario: WakeScenario,
    events: &[DeliveredEvent],
    key: Key,
) -> (verdict: Result<(), WakeFailure>)
    ensures
        (verdict is Ok) <==> events@ == seq![DeliveredEvent::Wake { key }],
        verdict is Err ==> wake_rejected(
            verdict,
            scenario,
            WakeCheck::Events,
            events_debug(seq![DeliveredEvent::Wake { key }]),
            events_debug(events@),
        ),
{
    if events.len() == 1 && events[0] == (DeliveredEvent::Wake { key }) {
        assert(events@ =~= seq![DeliveredEvent::Wake { key }]);
        Ok(())
    } else {
        let expected_events = [DeliveredEvent::Wake { key }];
        let expected = render_events(&expected_events);
        assert(expected_events@ =~= seq![DeliveredEvent::Wake { key }]);
        assert(events@ != seq![DeliveredEvent::Wake { key }]) by {
            if events@ == seq![DeliveredEvent::Wake { key }] {
                assert(events@[0] == DeliveredEvent::Wake { key });
            }
        }
        Err(fail(scenario, WakeCheck::Events, expected, render_events(events)))
    }
}

/// Requires a nonblocking wait after delivery to find nothing left.
pub fn expect_drained(scenario: WakeScenario, events: &[DeliveredEvent]) -> (verdict: Result<(), WakeFailure>)
    ensures
        (verdict is Ok) <==> events@.len() == 0,
        verdict is Err ==> wake_rejected(
            verdict,
            scenario,
            WakeCheck::Drain,
            quoted("no observable wake after drain"@),
            events_debug(events@),
        ),
{
    if events.len() == 0 {
        Ok(())
    } else {
        Err(fail(scenario, WakeCheck::Drain, quote("no observable wake after drain"), render_events(events)))
    }
}

/// Requires a wait to report no post-delivery recovery trouble; `recovery`
/// is the text of the reported trouble.
pub fn reject_recovery(
    scenario: WakeScenario,
    recovery: Option<&str>,
    events: &[DeliveredEvent],
) -> (verdict: Result<(), WakeFailure>)
    ensures
        match recovery {
            None => verdict is Ok,
            Some(text) => wake_rejected(
                verdict,
                scenario,
                WakeCheck::Wait,
                quoted("valid delivery without post-delivery recovery trouble"@),
                quoted(text@ + "; delivered events: "@ + events_debug(events@)),
            ),
        },
{
    match recovery {
        None => Ok(()),
        Some(text) => {
            let mut actual = String::from_str(text);
            actual.append("; delivered events: ");
            let delivered = render_events(events);
            actual.append(delivered.as_str());
            Err(
                fail(
                    scenario,
                    WakeCheck::Wait,
                    quote("valid delivery without post-delivery recovery trouble"),
                    quote(actual.as_str()),
                ),
            )
        },
    }
}

/// The debug text of a list of keys.
pub open spec fn keys_debug(keys: Seq<Key>) -> Seq<char> {
    "["@ + crate::delivery::comma_list(keys.map_values(|key: Key| key_debug(key))) + "]"@
}

fn render_three_keys(keys: [Key; 3]) -> (text: String)
    ensures
        text@ == keys_debug(keys@),
{
    let ghost texts = keys@.map_values(|key: Key| key_debug(key));
    let a = render_key(keys[0]);
    let b = render_key(keys[1]);
    let c = render_key(keys[2]);
    let mut text = String::from_str("[");
    text.append(a.as_str());
    text.append(", ");
    text.append(b.as_str());
    text.append(", ");
    text.append(c.as_str());
    text.append("]");
    proof {
        let two = texts.drop_last();
        assert(two.drop_last() =~= seq![texts[0]]);
        assert(two.last() == texts[1]);
        assert(crate::delivery::comma_list(two.drop_last()) == texts[0]);
        assert(crate::delivery::comma_list(two) == texts[0] + ", "@ + texts[1]);
        assert(crate::delivery::comma_list(texts) == texts[0] + ", "@ + texts[1] + ", "@ + texts[2]);
        assert(text@ =~= "["@ + (texts[0] + ", "@ + texts[1] + ", "@ + texts[2]) + "]"@);
    }
    text
}

/// Requires a repeated configuration and a clone of a waker to carry the
/// configured key.
pub fn expect_same_keys(scenario: WakeScenario, keys: [Key; 3], key: Key) -> (verdict: Result<(), WakeFailure>)
    ensures
        (verdict is Ok) <==> keys@ == seq![key, key, key],
        verdict is Err ==> wake_rejected(
            verdict,
            scenario,
            WakeCheck::Configuration,
            keys_debug(seq![key, key, key]),
            keys_debug(keys@),
        ),
{
    if keys[0] == key && keys[1] == key && keys[2] == key {
        assert(keys@ =~= seq![key, key, key]);
        Ok(())
    } else {
        let expected_keys = [key, key, key];
        let expected = render_three_keys(expected_keys);
        assert(expected_keys@ =~= seq![key, key, key]);
        assert(keys@ != seq![key, key, key]) by {
            if keys@ == seq![key, key, key] {
                assert(keys@[0] == key && keys@[1] == key && keys@[2] == key);
            }
        }
        Err(fail(scenario, WakeCheck::Configuration, expected, render_three_keys(keys)))
    }
}

/// The outcome of configuring a waker under a second key.
#[derive(Debug)]
pub enum ConflictOutcome {
    /// The poller rejected the key, naming the configured and requested keys.
    AlreadyConfigured { existing: Key, requested: Key },
    /// The poller failed otherwise; the text is the error's debug text.
    OtherError { text: String },
    /// The poller configured the conflicting waker.
    Configured,
}

/// The debug text of a rejection naming the configured and requested keys.
pub open spec fn conflict_debug(existing: Key, requested: Key) -> Seq<char> {
    "WakerAlreadyConfigured { existing: "@ + key_debug(existing) + ", requested: "@ + key_debug(
        requested,
    ) + " }"@
}

/// Requires a second key to be rejected as already configured, naming the
/// configured key and the requested one.
pub fn expect_conflict_rejected(
    scenario: WakeScenario,
    outcome: &ConflictOutcome,
    existing: Key,
    requested: Key,
) -> (verdict: Result<(), WakeFailure>)
    ensures
        match outcome {
            ConflictOutcome::AlreadyConfigured { existing: e, requested: r } => if *e == existing && *r
                == requested {
                verdict is Ok
            } else {
                wake_rejected(
                    verdict,
                    scenario,
                    WakeCheck::Configuration,
                    conflict_debug(existing, requested),
                    conflict_debug(*e, *r),
                )
            },
            ConflictOutcome::OtherError { text } => wake_rejected(
                verdict,
                scenario,
                WakeCheck::Configuration,
                conflict_debug(existing, requested),
                text@,
            ),
            ConflictOutcome::Configured => wake_rejected(
                verdict,
                scenario,
                WakeCheck::Configuration,
                quoted("conflicting-key rejection"@),
                quoted("configured conflicting waker"@),
            ),
        },
{
    match outcome {
        ConflictOutcome::AlreadyConfigured { existing: e, requested: r } => {
            if *e == existing && *r == requested {
                Ok(())
            } else {
                Err(
                    fail(
                        scenario,
                        WakeCheck::Configuration,
                        render_conflict(existing, requested),
                        render_conflict(*e, *r),
                    ),
                )
            }
        },
        ConflictOutcome::OtherError { text } => Err(
            fail(
                scenario,
                WakeCheck::Configuration,
                render_conflict(existing, requested),
                String::from_str(text.as_str()),
            ),
        ),
        ConflictOutcome::Configured => Err(
            fail(
                scenario,
                WakeCheck::Configuration,
                quote("conflicting-key rejection"),
                quote("configured conflicting waker"),
            ),
        ),
    }
}

fn render_conflict(existing: Key, requested: Key) -> (text: String)
    ensures
        text@ == conflict_debug(existing, requested),
{
    let mut text = String::from_str("WakerAlreadyConfigured { existing: ");
    let e = render_key(existing);
    text.append(e.as_str());
    text.append(", requested: ");
    let r = render_key(requested);
    text.append(r.as_str());
    text.append(" }");
    text
}

/// How a helper thread ended.
#[derive(Debug)]
pub enum HelperExit {
    /// The helper finished its work.
    Finished,
    /// The helper reported a failure with this text.
    Failed { text: String },
    /// The helper panicked.
    Panicked,
}

/// Requires a helper thread to have finished its work: a reported failure
/// is a trigger failure, a panic is a coordination failure.
pub fn expect_helper_finished(
    scenario: WakeScenario,
    exit: HelperExit,
    expected: &str,
) -> (verdict: Result<(), WakeFailure>)
    ensures
        match exit {
            HelperExit::Finished => verdict is Ok,
            HelperExit::Failed { text } => wake_rejected(verdict, scenario, WakeCheck::Trigger, expected@, text@),
            HelperExit::Panicked => wake_rejected(
                verdict,
                scenario,
                WakeCheck::Deadline,
                expected@,
                "wake helper thread panicked"@,
            ),
        },
{
    match exit {
        HelperExit::Finished => Ok(()),
        HelperExit::Failed { text } => Err(fail(scenario, WakeCheck::Trigger, String::from_str(expected), text)),
        HelperExit::Panicked => Err(
            fail(
                scenario,
                WakeCheck::Deadline,
                String::from_str(expected),
                String::from_str("wake helper thread panicked"),
            ),
        ),
    }
}

} // verus!
