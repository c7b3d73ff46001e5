//! Generated transition coverage for the deterministic corpus.

use vstd::prelude::*;

verus! {

/// Coverage flag: a delivered one-shot disarm.
pub const DISARM: u16 = 1;

/// Coverage flag: a successful or applied modification of a disarmed registration.
pub const REARM: u16 = 2;

/// Coverage flag: a retaining registration after an earlier retirement.
pub const REUSE: u16 = 4;

/// Coverage flag: a stale-handle probe.
pub const STALE: u16 = 8;

/// Coverage flag: a wrong-poller probe.
pub const WRONG_POLLER: u16 = 16;

/// Coverage flag: a rejected empty-interest registration.
pub const INVALID_REGISTER: u16 = 32;

/// Coverage flag: a rejected empty-interest modification.
pub const INVALID_MODIFY: u16 = 64;

/// Coverage flag: a key change of an armed registration.
pub const SET_KEY_ARMED: u16 = 128;

/// Coverage flag: a key change of a disarmed registration.
pub const SET_KEY_DISARMED: u16 = 256;

/// Coverage flag: a key change of an uncertain registration.
pub const SET_KEY_UNCERTAIN: u16 = 512;

/// Every special coverage flag.
pub const ALL_SPECIAL: u16 = 1023;

/// Transition classes a program or corpus generated: one outcome bit per
/// register, modify, modify-with-key, and delete outcome, and the special
/// flags.
#[derive(Clone, Copy, Debug, Eq, PartialEq, Structural)]
pub struct Coverage {
    register: u8,
    modify: u8,
    modify_with_key: u8,
    delete: u8,
    special: u16,
}

/// The coverage with `outcome_bit` set in `row`.
pub open spec fn set_bit(row: u8, index: nat) -> u8 {
    row | (1u8 << (index as u8))
}

impl Coverage {
    /// Register outcomes generated, one bit per outcome index.
    pub closed spec fn spec_register(self) -> u8 {
        self.register
    }

    /// Modify outcomes generated, one bit per outcome index.
    pub closed spec fn spec_modify(self) -> u8 {
        self.modify
    }

    /// Modify-with-key outcomes generated, one bit per outcome index.
    pub closed spec fn spec_modify_with_key(self) -> u8 {
        self.modify_with_key
    }

    /// Delete outcomes generated, one bit per outcome index.
    pub closed spec fn spec_delete(self) -> u8 {
        self.delete
    }

    /// Special flags generated.
    pub closed spec fn spec_special(self) -> u16 {
        self.special
    }

    /// The coverage with the given rows and flags.
    pub closed spec fn spec_of(
        register: u8,
        modify: u8,
        modify_with_key: u8,
        delete: u8,
        special: u16,
    ) -> Coverage {
        Coverage { register, modify, modify_with_key, delete, special }
    }

    /// The parts of `spec_of` are its arguments, and a coverage is
    /// determined by its parts.
    pub broadcast proof fn lemma_spec_of(register: u8, modify: u8, modify_with_key: u8, delete: u8, special: u16)
        ensures
            #[trigger] Coverage::spec_of(register, modify, modify_with_key, delete, special).spec_register()
                == register,
            Coverage::spec_of(register, modify, modify_with_key, delete, special).spec_modify() == modify,
            Coverage::spec_of(register, modify, modify_with_key, delete, special).spec_modify_with_key()
                == modify_with_key,
            Coverage::spec_of(register, modify, modify_with_key, delete, special).spec_delete() == delete,
            Coverage::spec_of(register, modify, modify_with_key, delete, special).spec_special() == special,
    {
    }

    /// A coverage is determined by its parts.
    pub broadcast proof fn lemma_parts_determine(coverage: Coverage)
        ensures
            #[trigger] Coverage::spec_of(
                coverage.spec_register(),
                coverage.spec_modify(),
                coverage.spec_modify_with_key(),
                coverage.spec_delete(),
                coverage.spec_special(),
            ) == coverage,
    {
    }

    /// Whether every register, modify, and delete outcome was generated.
    pub open spec fn spec_has_outcome_matrix(self) -> bool {
        self.spec_register() & 15 == 15 && self.spec_modify() & 15 == 15 && self.spec_delete() & 15
            == 15
    }

    /// Whether every required transition class was generated: the outcome
    /// matrix, every modify-with-key outcome, and exactly the special flags.
    pub open spec fn spec_is_complete(self) -> bool {
        self.spec_has_outcome_matrix() && self.spec_modify_with_key() & 15 == 15 && self.spec_special()
            == ALL_SPECIAL
    }

    /// Whether `flag` was generated.
    pub open spec fn spec_has(self, flag: u16) -> bool {
        self.spec_special() & flag != 0
    }

    /// The empty coverage.
    pub fn new() -> (coverage: Coverage)
        ensures
            coverage == Coverage::spec_of(0, 0, 0, 0, 0),
    {
        Coverage { register: 0, modify: 0, modify_with_key: 0, delete: 0, special: 0 }
    }

    /// Returns the register row.
    pub fn register_row(&self) -> (row: u8)
        ensures
            row == self.spec_register(),
    {
        self.register
    }

    /// Returns the modify row.
    pub fn modify_row(&self) -> (row: u8)
        ensures
            row == self.spec_modify(),
    {
        self.modify
    }

    /// Returns the modify-with-key row.
    pub fn modify_with_key_row(&self) -> (row: u8)
        ensures
            row == self.spec_modify_with_key(),
    {
        self.modify_with_key
    }

    /// Returns the delete row.
    pub fn delete_row(&self) -> (row: u8)
        ensures
            row == self.spec_delete(),
    {
        self.delete
    }

    /// Returns the special flags.
    pub fn special_flags(&self) -> (flags: u16)
        ensures
            flags == self.spec_special(),
    {
        self.special
    }

    /// Records a register outcome.
    pub fn mark_register(&mut self, index: usize)
        requires
            index < 4,
        ensures
            *final(self) == Coverage::spec_of(
                set_bit(old(self).spec_register(), index as nat),
                old(self).spec_modify(),
                old(self).spec_modify_with_key(),
                old(self).spec_delete(),
                old(self).spec_special(),
            ),
    {
        self.register = self.register | (1u8 << (index as u8));
    }

    /// Records a modify outcome.
    pub fn mark_modify(&mut self, index: usize)
        requires
            index < 4,
        ensures
            *final(self) == Coverage::spec_of(
                old(self).spec_register(),
                set_bit(old(self).spec_modify(), index as nat),
                old(self).spec_modify_with_key(),
                old(self).spec_delete(),
                old(self).spec_special(),
            ),
    {
        self.modify = self.modify | (1u8 << (index as u8));
    }

    /// Records a modify-with-key outcome.
    pub fn mark_modify_with_key(&mut self, index: usize)
        requires
            index < 4,
        ensures
            *final(self) == Coverage::spec_of(
                old(self).spec_register(),
                old(self).spec_modify(),
                set_bit(old(self).spec_modify_with_key(), index as nat),
                old(self).spec_delete(),
                old(self).spec_special(),
            ),
    {
        self.modify_with_key = self.modify_with_key | (1u8 << (index as u8));
    }

    /// Records a delete outcome.
    pub fn mark_delete(&mut self, index: usize)
        requires
            index < 4,
        ensures
            *final(self) == Coverage::spec_of(
                old(self).spec_register(),
                old(self).spec_modify(),
                old(self).spec_modify_with_key(),
                set_bit(old(self).spec_delete(), index as nat),
                old(self).spec_special(),
            ),
    {
        self.delete = self.delete | (1u8 << (index as u8));
    }

    /// Records special flags.
    pub fn mark(&mut self, flag: u16)
        ensures
            *final(self) == Coverage::spec_of(
                old(self).spec_register(),
                old(self).spec_modify(),
                old(self).spec_modify_with_key(),
                old(self).spec_delete(),
                old(self).spec_special() | flag,
            ),
    {
        self.special = self.special | flag;
    }

    /// Merges another program's coverage into this one.
    pub fn merge(&mut self, other: &Coverage)
        ensures
            *final(self) == Coverage::spec_of(
                old(self).spec_register() | other.spec_register(),
                old(self).spec_modify() | other.spec_modify(),
                old(self).spec_modify_with_key() | other.spec_modify_with_key(),
                old(self).spec_delete() | other.spec_delete(),
                old(self).spec_special() | other.spec_special(),
            ),
    {
        self.register = self.register | other.register;
        self.modify = self.modify | other.modify;
        self.modify_with_key = self.modify_with_key | other.modify_with_key;
        self.delete = self.delete | other.delete;
        self.special = self.special | other.special;
    }

    /// Returns whether `flag` was generated.
    pub fn has(&self, flag: u16) -> (present: bool)
        ensures
            present == self.spec_has(flag),
    {
        self.special & flag != 0
    }

    /// Returns whether every register, modify, and delete outcome was generated.
    pub fn has_outcome_matrix(&self) -> (covered: bool)
        ensures
            covered == self.spec_has_outcome_matrix(),
    {
        self.register & 15 == 15 && self.modify & 15 == 15 && self.delete & 15 == 15
    }

    /// Returns whether every required transition class was generated.
    pub fn is_complete(&self) -> (complete: bool)
        ensures
            complete == self.spec_is_complete(),
    {
        self.has_outcome_matrix() && self.modify_with_key & 15 == 15 && self.special == ALL_SPECIAL
    }

    /// Returns whether a delivered disarm and an explicit rearm were generated.
    pub fn has_disarm_rearm(&self) -> (covered: bool)
        ensures
            covered == (self.spec_has(DISARM) && self.spec_has(REARM)),
    {
        self.has(DISARM) && self.has(REARM)
    }

    /// Returns whether a stale probe and a reuse were generated.
    pub fn has_stale_reuse(&self) -> (covered: bool)
        ensures
            covered == (self.spec_has(STALE) && self.spec_has(REUSE)),
    {
        self.has(STALE) && self.has(REUSE)
    }

    /// Returns whether a wrong-poller probe was generated.
    pub fn has_wrong_poller(&self) -> (covered: bool)
        ensures
            covered == self.spec_has(WRONG_POLLER),
    {
        self.has(WRONG_POLLER)
    }
}

/// The coverage that merging `second` into `first` gives.
pub open spec fn merged(first: Coverage, second: Coverage) -> Coverage {
    Coverage::spec_of(
        first.spec_register() | second.spec_register(),
        first.spec_modify() | second.spec_modify(),
        first.spec_modify_with_key() | second.spec_modify_with_key(),
        first.spec_delete() | second.spec_delete(),
        first.spec_special() | second.spec_special(),
    )
}

/// Merging coverage only adds generated classes: it is idempotent and
/// insensitive to order, and whatever the merged-in coverage completes, or
/// already complete coverage, stays complete.
pub proof fn law_merge_preserves_completeness(first: Coverage, second: Coverage)
    ensures
        merged(first, first) == first,
        merged(first, second) == merged(second, first),
        first.spec_is_complete() && second.spec_is_complete() ==> merged(first, second).spec_is_complete(),
        first.spec_has_outcome_matrix() ==> merged(first, second).spec_has_outcome_matrix(),
        second.spec_has_outcome_matrix() ==> merged(first, second).spec_has_outcome_matrix(),
{
    broadcast use Coverage::lemma_spec_of, Coverage::lemma_parts_determine;
    let (r1, m1, k1, d1, s1) = (
        first.spec_register(),
        first.spec_modify(),
        first.spec_modify_with_key(),
        first.spec_delete(),
        first.spec_special(),
    );
    let (r2, m2, k2, d2, s2) = (
        second.spec_register(),
        second.spec_modify(),
        second.spec_modify_with_key(),
        second.spec_delete(),
        second.spec_special(),
    );
    assert(r1 | r1 == r1 && m1 | m1 == m1 && k1 | k1 == k1 && d1 | d1 == d1) by (bit_vector);
    assert(s1 | s1 == s1) by (bit_vector);
    assert(r1 | r2 == r2 | r1 && m1 | m2 == m2 | m1 && k1 | k2 == k2 | k1 && d1 | d2 == d2 | d1) by (bit_vector);
    assert(s1 | s2 == s2 | s1) by (bit_vector);
    assert(r1 & 15 == 15 ==> (r1 | r2) & 15 == 15) by (bit_vector);
    assert(m1 & 15 == 15 ==> (m1 | m2) & 15 == 15) by (bit_vector);
    assert(k1 & 15 == 15 ==> (k1 | k2) & 15 == 15) by (bit_vector);
    assert(d1 & 15 == 15 ==> (d1 | d2) & 15 == 15) by (bit_vector);
    assert(s1 == 1023 && s2 == 1023 ==> s1 | s2 == 1023) by (bit_vector);
    assert(r2 & 15 == 15 ==> (r1 | r2) & 15 == 15) by (bit_vector);
    assert(m2 & 15 == 15 ==> (m1 | m2) & 15 == 15) by (bit_vector);
    assert(d2 & 15 == 15 ==> (d1 | d2) & 15 == 15) by (bit_vector);
}


/// The text of a boolean.
pub open spec fn bool_text(value: bool) -> Seq<char> {
    if value {
        "true"@
    } else {
        "false"@
    }
}

fn push_bool(text: &mut String, value: bool)
    ensures
        final(text)@ == old(text)@ + bool_text(value),
{
    if value {
        text.append("true");
    } else {
        text.append("false");
    }
}

/// Whether outcome `index` is set in `row`.
pub open spec fn row_has(row: u8, index: nat) -> bool {
    row & (1u8 << (index as u8)) != 0
}

/// The text of an outcome row: four booleans in outcome order.
pub open spec fn row_text(row: u8) -> Seq<char> {
    "["@ + bool_text(row_has(row, 0)) + ", "@ + bool_text(row_has(row, 1)) + ", "@ + bool_text(
        row_has(row, 2),
    ) + ", "@ + bool_text(row_has(row, 3)) + "]"@
}

fn push_row(text: &mut String, row: u8)
    ensures
        final(text)@ == old(text)@ + row_text(row),
{
    text.append("[");
    push_bool(text, row & (1u8 << 0u8) != 0);
    text.append(", ");
    push_bool(text, row & (1u8 << 1u8) != 0);
    text.append(", ");
    push_bool(text, row & (1u8 << 2u8) != 0);
    text.append(", ");
    push_bool(text, row & (1u8 << 3u8) != 0);
    text.append("]");
    assert(final(text)@ =~= old(text)@ + row_text(row));
}

impl Coverage {
    /// The coverage summary text.
    pub open spec fn spec_summary(self) -> Seq<char> {
        "register="@ + row_text(self.spec_register()) + ", modify="@ + row_text(self.spec_modify())
            + ", modify_with_key="@ + row_text(self.spec_modify_with_key()) + ", delete="@ + row_text(self.spec_delete()) + ", disarm="@ + bool_text(
            self.spec_has(DISARM),
        ) + ", rearm="@ + bool_text(self.spec_has(REARM)) + ", reuse="@ + bool_text(
            self.spec_has(REUSE),
        ) + ", stale="@ + bool_text(self.spec_has(STALE)) + ", wrong_poller="@ + bool_text(
            self.spec_has(WRONG_POLLER),
        ) + ", invalid_register="@ + bool_text(self.spec_has(INVALID_REGISTER))
            + ", invalid_modify="@ + bool_text(self.spec_has(INVALID_MODIFY)) + ", set_key_armed="@
            + bool_text(self.spec_has(SET_KEY_ARMED)) + ", set_key_disarmed="@ + bool_text(
            self.spec_has(SET_KEY_DISARMED),
        ) + ", set_key_uncertain="@ + bool_text(self.spec_has(SET_KEY_UNCERTAIN))
    }

    /// Returns the coverage summary: each outcome row and each special flag.
    pub fn summary(&self) -> (text: String)
        ensures
            text@ == self.spec_summary(),
    {
        let mut text = String::from_str("register=");
        push_row(&mut text, self.register);
        text.append(", modify=");
        push_row(&mut text, self.modify);
        text.append(", modify_with_key=");
        push_row(&mut text, self.modify_with_key);
        text.append(", delete=");
        push_row(&mut text, self.delete);
        text.append(", disarm=");
        push_bool(&mut text, self.has(DISARM));
        text.append(", rearm=");
        push_bool(&mut text, self.has(REARM));
        text.append(", reuse=");
        push_bool(&mut text, self.has(REUSE));
        text.append(", stale=");
        push_bool(&mut text, self.has(STALE));
        text.append(", wrong_poller=");
        push_bool(&mut text, self.has(WRONG_POLLER));
        text.append(", invalid_register=");
        push_bool(&mut text, self.has(INVALID_REGISTER));
        text.append(", invalid_modify=");
        push_bool(&mut text, self.has(INVALID_MODIFY));
        text.append(", set_key_armed=");
        push_bool(&mut text, self.has(SET_KEY_ARMED));
        text.append(", set_key_disarmed=");
        push_bool(&mut text, self.has(SET_KEY_DISARMED));
        text.append(", set_key_uncertain=");
        push_bool(&mut text, self.has(SET_KEY_UNCERTAIN));
        text
    }
}

} // verus!
