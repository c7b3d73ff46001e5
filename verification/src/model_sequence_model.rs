//! Tiny independent reference model for registration lifetime and mutations.

use vstd::prelude::*;

use crate::model_sequence::{ArmState, InterestSet, Key, Mode, Outcome};

verus! {

/// Identity of one exact registration generation.
#[derive(Clone, Copy, Debug, Eq, Hash, PartialEq, Structural)]
pub struct RegistrationId {
    /// The generation's value.
    pub value: u64,
}

/// Poller-authoritative state of one exact registration.
#[derive(Clone, Copy, Debug, Eq, Hash, PartialEq, Structural)]
pub enum RegistrationState {
    /// The resource remains installed in the backend.
    Registered { arm: ArmState },
    /// The backend state cannot be proven after a partial mutation.
    Uncertain,
}

/// Normalized native state retained by the scripted backend.
#[derive(Clone, Copy, Debug, Eq, Hash, PartialEq, Structural)]
pub enum BackendState {
    /// No backend registration is installed.
    Absent,
    /// The desired registration is installed exactly.
    Registered { interest: InterestSet, mode: Mode, arm: ArmState },
    /// The installed backend state cannot be proven.
    Unknown,
}

/// One normalized call observed by the scripted backend.
#[derive(Clone, Copy, Debug, Eq, Hash, PartialEq, Structural)]
pub enum MutationCall {
    /// A registration request.
    Register { registration: RegistrationId, key: Key, interest: InterestSet, mode: Mode },
    /// A modification request with exact prior and desired state.
    Modify {
        registration: RegistrationId,
        previous_interest: InterestSet,
        previous_mode: Mode,
        previous_arm: ArmState,
        desired_interest: InterestSet,
        desired_mode: Mode,
    },
    /// A deletion request.
    Delete { registration: RegistrationId, interest: InterestSet, state: RegistrationState },
    /// A delivered one-shot observation.
    EstablishDisarmed { registration: RegistrationId },
}

/// The model's record of the active registration.
#[derive(Clone, Copy, Debug, Eq, PartialEq, Structural)]
pub struct Entry {
    /// The active handle's generation.
    pub registration: RegistrationId,
    /// The current key.
    pub key: Key,
    /// The installed interest.
    pub interest: InterestSet,
    /// The installed mode.
    pub mode: Mode,
    /// The portable state.
    pub state: RegistrationState,
}

impl Entry {
    /// The backend state the entry implies.
    pub open spec fn spec_backend(self) -> BackendState {
        match self.state {
            RegistrationState::Registered { arm } => BackendState::Registered {
                interest: self.interest,
                mode: self.mode,
                arm,
            },
            RegistrationState::Uncertain => BackendState::Unknown,
        }
    }

    /// Returns the backend state the entry implies.
    pub fn backend(self) -> (backend: BackendState)
        ensures
            backend == self.spec_backend(),
    {
        match self.state {
            RegistrationState::Registered { arm } => BackendState::Registered {
                interest: self.interest,
                mode: self.mode,
                arm,
            },
            RegistrationState::Uncertain => BackendState::Unknown,
        }
    }
}

/// The entry a completed registration of `registration` installs: none when
/// it was not applied, an uncertain entry when its effect is unknown, and an
/// armed entry otherwise.
pub open spec fn spec_after_register(
    outcome: Outcome,
    registration: RegistrationId,
    key: Key,
    interest: InterestSet,
    mode: Mode,
) -> Option<Entry> {
    match outcome {
        Outcome::NotApplied => None,
        Outcome::Unknown => Some(
            Entry { registration, key, interest, mode, state: RegistrationState::Uncertain },
        ),
        _ => Some(
            Entry {
                registration,
                key,
                interest,
                mode,
                state: RegistrationState::Registered { arm: ArmState::Armed },
            },
        ),
    }
}

/// The entry after a delivered one-shot disarm.
pub open spec fn spec_after_disarm(entry: Entry) -> Entry {
    Entry { state: RegistrationState::Registered { arm: ArmState::Disarmed }, ..entry }
}

/// The entry after a completed modification: the desired configuration
/// (and key, when given) rearmed when it applied, unchanged when it was not
/// applied, uncertain when its effect is unknown.
pub open spec fn spec_after_modify(
    entry: Entry,
    outcome: Outcome,
    key: Option<Key>,
    interest: InterestSet,
    mode: Mode,
) -> Entry {
    match outcome {
        Outcome::Success | Outcome::Applied => Entry {
            key: match key {
                Some(k) => k,
                None => entry.key,
            },
            interest,
            mode,
            state: RegistrationState::Registered { arm: ArmState::Armed },
            ..entry
        },
        Outcome::NotApplied => entry,
        Outcome::Unknown => Entry { state: RegistrationState::Uncertain, ..entry },
    }
}

/// The active entry after a completed deletion: none when it applied,
/// unchanged when it was not applied, uncertain when its effect is unknown.
pub open spec fn spec_after_delete(entry: Entry, outcome: Outcome) -> Option<Entry> {
    match outcome {
        Outcome::Success | Outcome::Applied => None,
        Outcome::NotApplied => Some(entry),
        Outcome::Unknown => Some(Entry { state: RegistrationState::Uncertain, ..entry }),
    }
}

/// The reference model: the active registration, retired handles, every
/// issued generation, and every expected backend call.
#[derive(Debug)]
pub struct ReferenceModel {
    active: Option<Entry>,
    retired: Vec<RegistrationId>,
    issued: Vec<RegistrationId>,
    calls: Vec<MutationCall>,
}

/// Whether `id` was issued.
pub open spec fn issued_contains(issued: Seq<RegistrationId>, id: RegistrationId) -> bool {
    issued.contains(id)
}

impl ReferenceModel {
    /// The active registration.
    pub closed spec fn spec_active(&self) -> Option<Entry> {
        self.active
    }

    /// Retired handles in retirement order.
    pub closed spec fn spec_retired(&self) -> Seq<RegistrationId> {
        self.retired@
    }

    /// Issued generations in issue order.
    pub closed spec fn spec_issued(&self) -> Seq<RegistrationId> {
        self.issued@
    }

    /// Expected backend calls in order.
    pub closed spec fn spec_calls(&self) -> Seq<MutationCall> {
        self.calls@
    }

    /// The model's invariant: issued generations are distinct.
    pub open spec fn wf(&self) -> bool {
        self.spec_issued().no_duplicates()
    }

    /// The backend state the model expects for `id`.
    pub open spec fn spec_expected_backend(&self, id: RegistrationId) -> BackendState {
        match self.spec_active() {
            Some(entry) => if entry.registration == id {
                entry.spec_backend()
            } else {
                BackendState::Absent
            },
            None => BackendState::Absent,
        }
    }

    /// An empty model.
    pub fn new() -> (model: ReferenceModel)
        ensures
            model.wf(),
            model.spec_active() is None,
            model.spec_retired().len() == 0,
            model.spec_issued().len() == 0,
            model.spec_calls().len() == 0,
    {
        ReferenceModel { active: None, retired: Vec::new(), issued: Vec::new(), calls: Vec::new() }
    }

    /// Returns the active registration.
    pub fn active(&self) -> (active: Option<Entry>)
        ensures
            active == self.spec_active(),
    {
        self.active
    }

    /// Returns the most recently retired handle.
    pub fn stale(&self) -> (stale: Option<RegistrationId>)
        ensures
            stale == if self.spec_retired().len() == 0 {
                None
            } else {
                Some(self.spec_retired().last())
            },
    {
        if self.retired.len() == 0 {
            None
        } else {
            Some(self.retired[self.retired.len() - 1])
        }
    }

    /// Returns the issued generations.
    pub fn issued(&self) -> (issued: &[RegistrationId])
        ensures
            issued@ == self.spec_issued(),
    {
        self.issued.as_slice()
    }

    /// Returns the retired handles.
    pub fn retired(&self) -> (retired: &[RegistrationId])
        ensures
            retired@ == self.spec_retired(),
    {
        self.retired.as_slice()
    }

    /// Returns the expected backend calls.
    pub fn calls(&self) -> (calls: &[MutationCall])
        ensures
            calls@ == self.spec_calls(),
    {
        self.calls.as_slice()
    }

    fn was_issued(&self, registration: RegistrationId) -> (found: bool)
        ensures
            found == self.spec_issued().contains(registration),
    {
        let mut i: usize = 0;
        while i < self.issued.len()
            invariant
                i <= self.issued@.len(),
                forall|j: int| 0 <= j < i ==> self.issued@[j] != registration,
            decreases self.issued@.len() - i,
        {
            if self.issued[i] == registration {
                return true;
            }
            i = i + 1;
        }
        false
    }

    /// Records a registration request of a fresh generation.
    ///
    /// Fails when a registration is active or the generation was issued
    /// before; otherwise issues it and expects its register call.
    pub fn record_register(
        &mut self,
        registration: RegistrationId,
        key: Key,
        interest: InterestSet,
        mode: Mode,
    ) -> (outcome: Result<(), &'static str>)
        requires
            old(self).wf(),
        ensures
            final(self).wf(),
            old(self).spec_active() is Some ==> outcome == Err::<(), &'static str>("register requires a vacant reference slot")
                && *final(self) == *old(self),
            old(self).spec_active() is None && old(self).spec_issued().contains(registration)
                ==> outcome == Err::<(), &'static str>("register repeated an issued generation")
                && *final(self) == *old(self),
            old(self).spec_active() is None && !old(self).spec_issued().contains(registration)
                ==> outcome is Ok && final(self).spec_active() is None && final(self).spec_retired()
                == old(self).spec_retired() && final(self).spec_issued() == old(self).spec_issued().push(
                registration,
            ) && final(self).spec_calls() == old(self).spec_calls().push(
                MutationCall::Register { registration, key, interest, mode },
            ),
    {
        if self.active.is_some() {
            return Err("register requires a vacant reference slot");
        }
        if self.was_issued(registration) {
            return Err("register repeated an issued generation");
        }
        self.issued.push(registration);
        self.calls.push(MutationCall::Register { registration, key, interest, mode });
        Ok(())
    }

    /// Completes a registration: a not-applied outcome leaves the slot
    /// vacant and must retain no handle; success and applied outcomes
    /// install an armed entry; an unknown outcome installs an uncertain one;
    /// retaining outcomes must return their handle.
    pub fn complete_register(
        &mut self,
        outcome: Outcome,
        registration: Option<RegistrationId>,
        key: Key,
        interest: InterestSet,
        mode: Mode,
    ) -> (verdict: Result<(), &'static str>)
        requires
            old(self).wf(),
        ensures
            final(self).wf(),
            final(self).spec_retired() == old(self).spec_retired(),
            final(self).spec_issued() == old(self).spec_issued(),
            final(self).spec_calls() == old(self).spec_calls(),
            match outcome {
                Outcome::NotApplied => if registration is Some {
                    verdict == Err::<(), &'static str>("not-applied register retained a handle")
                        && final(self).spec_active() == old(self).spec_active()
                } else {
                    verdict is Ok && final(self).spec_active() is None
                },
                _ => match registration {
                    None => verdict == Err::<(), &'static str>("retaining register omitted its handle")
                        && final(self).spec_active() == old(self).spec_active(),
                    Some(id) => verdict is Ok && final(self).spec_active() == Some(
                        Entry {
                            registration: id,
                            key,
                            interest,
                            mode,
                            state: if outcome == Outcome::Unknown {
                                RegistrationState::Uncertain
                            } else {
                                RegistrationState::Registered { arm: ArmState::Armed }
                            },
                        },
                    ),
                },
            },
            verdict is Ok ==> final(self).spec_active() == match registration {
                Some(id) => spec_after_register(outcome, id, key, interest, mode),
                None => None,
            },
    {
        let state = match outcome {
            Outcome::NotApplied => {
                if registration.is_some() {
                    return Err("not-applied register retained a handle");
                }
                self.active = None;
                return Ok(());
            },
            Outcome::Success | Outcome::Applied => RegistrationState::Registered { arm: ArmState::Armed },
            Outcome::Unknown => RegistrationState::Uncertain,
        };
        match registration {
            None => Err("retaining register omitted its handle"),
            Some(id) => {
                self.active = Some(Entry { registration: id, key, interest, mode, state });
                Ok(())
            },
        }
    }

    /// Replaces the active registration's key.
    pub fn set_key(&mut self, key: Key) -> (verdict: Result<(), &'static str>)
        requires
            old(self).wf(),
        ensures
            final(self).wf(),
            final(self).spec_retired() == old(self).spec_retired(),
            final(self).spec_issued() == old(self).spec_issued(),
            final(self).spec_calls() == old(self).spec_calls(),
            match old(self).spec_active() {
                None => verdict == Err::<(), &'static str>("set_key requires a handle")
                    && final(self).spec_active() is None,
                Some(entry) => verdict is Ok && final(self).spec_active() == Some(Entry { key, ..entry }),
            },
    {
        match self.active {
            None => Err("set_key requires a handle"),
            Some(entry) => {
                self.active = Some(Entry { key, ..entry });
                Ok(())
            },
        }
    }

    /// Records a delivered one-shot disarm of an armed one-shot registration.
    pub fn disarm(&mut self) -> (verdict: Result<RegistrationId, &'static str>)
        requires
            old(self).wf(),
        ensures
            final(self).wf(),
            verdict is Ok ==> (old(self).spec_active() matches Some(entry) && final(self).spec_active()
                == Some(spec_after_disarm(entry))),
            final(self).spec_retired() == old(self).spec_retired(),
            final(self).spec_issued() == old(self).spec_issued(),
            match old(self).spec_active() {
                None => verdict == Err::<RegistrationId, &'static str>("disarm requires a handle")
                    && *final(self) == *old(self),
                Some(entry) => if entry.mode == Mode::OneShot && entry.state
                    == (RegistrationState::Registered { arm: ArmState::Armed }) {
                    verdict == Ok::<RegistrationId, &'static str>(entry.registration)
                        && final(self).spec_active() == Some(
                        Entry {
                            state: RegistrationState::Registered { arm: ArmState::Disarmed },
                            ..entry
                        },
                    ) && final(self).spec_calls() == old(self).spec_calls().push(
                        MutationCall::EstablishDisarmed { registration: entry.registration },
                    )
                } else {
                    verdict == Err::<RegistrationId, &'static str>(
                        "disarm requires an armed one-shot registration",
                    ) && *final(self) == *old(self)
                },
            },
    {
        match self.active {
            None => Err("disarm requires a handle"),
            Some(entry) => {
                if entry.mode != Mode::OneShot || entry.state != (RegistrationState::Registered {
                    arm: ArmState::Armed,
                }) {
                    return Err("disarm requires an armed one-shot registration");
                }
                let registration = entry.registration;
                self.calls.push(MutationCall::EstablishDisarmed { registration });
                self.active = Some(
                    Entry { state: RegistrationState::Registered { arm: ArmState::Disarmed }, ..entry },
                );
                Ok(registration)
            },
        }
    }

    /// Records a modification request of a proven registered entry and
    /// expects its call with the exact prior and desired configuration.
    pub fn record_modify(&mut self, desired_interest: InterestSet, desired_mode: Mode) -> (verdict: Result<Entry, &'static str>)
        requires
            old(self).wf(),
        ensures
            final(self).wf(),
            final(self).spec_retired() == old(self).spec_retired(),
            final(self).spec_issued() == old(self).spec_issued(),
            final(self).spec_active() == old(self).spec_active(),
            match old(self).spec_active() {
                None => verdict == Err::<Entry, &'static str>("modify requires a handle")
                    && final(self).spec_calls() == old(self).spec_calls(),
                Some(entry) => match entry.state {
                    RegistrationState::Uncertain => verdict == Err::<Entry, &'static str>(
                        "modify requires a proven registered state",
                    ) && final(self).spec_calls() == old(self).spec_calls(),
                    RegistrationState::Registered { arm } => verdict == Ok::<Entry, &'static str>(entry)
                        && final(self).spec_calls() == old(self).spec_calls().push(
                        MutationCall::Modify {
                            registration: entry.registration,
                            previous_interest: entry.interest,
                            previous_mode: entry.mode,
                            previous_arm: arm,
                            desired_interest,
                            desired_mode,
                        },
                    ),
                },
            },
    {
        let entry = match self.active {
            None => {
                return Err("modify requires a handle");
            },
            Some(entry) => entry,
        };
        let arm = match entry.state {
            RegistrationState::Registered { arm } => arm,
            RegistrationState::Uncertain => {
                return Err("modify requires a proven registered state");
            },
        };
        self.calls.push(
            MutationCall::Modify {
                registration: entry.registration,
                previous_interest: entry.interest,
                previous_mode: entry.mode,
                previous_arm: arm,
                desired_interest,
                desired_mode,
            },
        );
        Ok(entry)
    }

    /// Completes a modification: success and applied outcomes commit the
    /// desired configuration (and key, when given) and rearm; a not-applied
    /// outcome preserves the prior state; an unknown outcome makes the entry
    /// uncertain.
    pub fn complete_modify(
        &mut self,
        outcome: Outcome,
        key: Option<Key>,
        interest: InterestSet,
        mode: Mode,
    ) -> (verdict: Result<(), &'static str>)
        requires
            old(self).wf(),
        ensures
            final(self).wf(),
            final(self).spec_retired() == old(self).spec_retired(),
            final(self).spec_issued() == old(self).spec_issued(),
            final(self).spec_calls() == old(self).spec_calls(),
            match old(self).spec_active() {
                None => verdict == Err::<(), &'static str>("modify lost active handle")
                    && final(self).spec_active() is None,
                Some(entry) => verdict is Ok && final(self).spec_active() == Some(
                    spec_after_modify(entry, outcome, key, interest, mode),
                ) && final(self).spec_active() == Some(
                    match outcome {
                        Outcome::Success | Outcome::Applied => Entry {
                            key: match key {
                                Some(k) => k,
                                None => entry.key,
                            },
                            interest,
                            mode,
                            state: RegistrationState::Registered { arm: ArmState::Armed },
                            ..entry
                        },
                        Outcome::NotApplied => entry,
                        Outcome::Unknown => Entry { state: RegistrationState::Uncertain, ..entry },
                    },
                ),
            },
    {
        let entry = match self.active {
            None => {
                return Err("modify lost active handle");
            },
            Some(entry) => entry,
        };
        let updated = match outcome {
            Outcome::Success | Outcome::Applied => Entry {
                key: match key {
                    Some(k) => k,
                    None => entry.key,
                },
                interest,
                mode,
                state: RegistrationState::Registered { arm: ArmState::Armed },
                ..entry
            },
            Outcome::NotApplied => entry,
            Outcome::Unknown => Entry { state: RegistrationState::Uncertain, ..entry },
        };
        self.active = Some(updated);
        Ok(())
    }

    /// Records a deletion request of the active entry and expects its call
    /// with the last authoritative interest and state.
    pub fn record_delete(&mut self) -> (verdict: Result<Entry, &'static str>)
        requires
            old(self).wf(),
        ensures
            final(self).wf(),
            final(self).spec_retired() == old(self).spec_retired(),
            final(self).spec_issued() == old(self).spec_issued(),
            final(self).spec_active() == old(self).spec_active(),
            match old(self).spec_active() {
                None => verdict == Err::<Entry, &'static str>("delete requires a handle")
                    && final(self).spec_calls() == old(self).spec_calls(),
                Some(entry) => verdict == Ok::<Entry, &'static str>(entry) && final(self).spec_calls()
                    == old(self).spec_calls().push(
                    MutationCall::Delete {
                        registration: entry.registration,
                        interest: entry.interest,
                        state: entry.state,
                    },
                ),
            },
    {
        let entry = match self.active {
            None => {
                return Err("delete requires a handle");
            },
            Some(entry) => entry,
        };
        self.calls.push(
            MutationCall::Delete {
                registration: entry.registration,
                interest: entry.interest,
                state: entry.state,
            },
        );
        Ok(entry)
    }

    /// Completes a deletion: success and applied outcomes retire the handle
    /// and vacate the slot; a not-applied outcome preserves the entry; an
    /// unknown outcome makes it uncertain and retryable.
    pub fn complete_delete(&mut self, outcome: Outcome) -> (verdict: Result<(), &'static str>)
        requires
            old(self).wf(),
        ensures
            final(self).wf(),
            old(self).spec_active() matches Some(entry) ==> verdict is Ok && final(self).spec_active()
                == spec_after_delete(entry, outcome),
            final(self).spec_issued() == old(self).spec_issued(),
            final(self).spec_calls() == old(self).spec_calls(),
            match outcome {
                Outcome::Success | Outcome::Applied => match old(self).spec_active() {
                    None => verdict == Err::<(), &'static str>("delete lost its active handle")
                        && *final(self) == *old(self),
                    Some(entry) => verdict is Ok && final(self).spec_active() is None
                        && final(self).spec_retired() == old(self).spec_retired().push(
                        entry.registration,
                    ),
                },
                Outcome::NotApplied => verdict is Ok && *final(self) == *old(self),
                Outcome::Unknown => final(self).spec_retired() == old(self).spec_retired()
                    && match old(self).spec_active() {
                    None => verdict == Err::<(), &'static str>("delete lost active handle")
                        && final(self).spec_active() is None,
                    Some(entry) => verdict is Ok && final(self).spec_active() == Some(
                        Entry { state: RegistrationState::Uncertain, ..entry },
                    ),
                },
            },
    {
        match outcome {
            Outcome::Success | Outcome::Applied => {
                match self.active {
                    None => Err("delete lost its active handle"),
                    Some(entry) => {
                        self.active = None;
                        self.retired.push(entry.registration);
                        Ok(())
                    },
                }
            },
            Outcome::NotApplied => Ok(()),
            Outcome::Unknown => {
                match self.active {
                    None => Err("delete lost active handle"),
                    Some(entry) => {
                        self.active = Some(Entry { state: RegistrationState::Uncertain, ..entry });
                        Ok(())
                    },
                }
            },
        }
    }

    /// Returns the backend state the model expects for `id`: the active
    /// entry's state for its generation, and absent for every other.
    pub fn expected_backend(&self, id: RegistrationId) -> (backend: BackendState)
        ensures
            backend == self.spec_expected_backend(id),
    {
        match self.active {
            Some(entry) => if entry.registration == id {
                entry.backend()
            } else {
                BackendState::Absent
            },
            None => BackendState::Absent,
        }
    }
}

} // verus!
