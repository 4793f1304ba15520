//! The fields of the form and the order in which the focus moves through
//! them.

use vstd::arithmetic::div_mod::{lemma_add_mod_noop, lemma_mod_twice};
use vstd::prelude::*;

verus! {

/// The number of fields that can have the focus.
pub const FIELD_COUNT: usize = 5;

/// A field of the form. Exactly one has the focus at any time.
#[derive(Clone, Copy, Debug, PartialEq, Eq, Structural)]
pub enum FieldId {
    NameInput,
    TypeList,
    CategoryList,
    FileList,
    Preview,
}

/// The index after `current` in a cycle of `field_count` fields.
pub open spec fn advanced(current: int, field_count: int) -> int {
    (current + 1) % field_count
}

/// Moves the focus one field on: the index after `current`, the first
/// index after the last.
pub fn advance_focus(current: usize, field_count: usize) -> (next: usize)
    requires
        field_count > 0,
    ensures
        next == advanced(current as int, field_count as int),
        next < field_count,
{
    let within = current % field_count;
    proof {
        lemma_add_mod_noop(current as int, 1, field_count as int);
        lemma_mod_twice(current as int, field_count as int);
        lemma_add_mod_noop(within as int, 1, field_count as int);
    }
    (within + 1) % field_count
}

impl FieldId {
    /// The field's place in the focus order, from 0.
    pub open spec fn index_of(self) -> int {
        match self {
            FieldId::NameInput => 0,
            FieldId::TypeList => 1,
            FieldId::CategoryList => 2,
            FieldId::FileList => 3,
            FieldId::Preview => 4,
        }
    }

    /// The field at place `index` of the focus order.
    pub open spec fn at(index: int) -> Option<FieldId> {
        if index == 0 {
            Some(FieldId::NameInput)
        } else if index == 1 {
            Some(FieldId::TypeList)
        } else if index == 2 {
            Some(FieldId::CategoryList)
        } else if index == 3 {
            Some(FieldId::FileList)
        } else if index == 4 {
            Some(FieldId::Preview)
        } else {
            None
        }
    }

    /// The field that gets the focus after this one.
    pub open spec fn successor_of(self) -> FieldId {
        match self {
            FieldId::NameInput => FieldId::TypeList,
            FieldId::TypeList => FieldId::CategoryList,
            FieldId::CategoryList => FieldId::FileList,
            FieldId::FileList => FieldId::Preview,
            FieldId::Preview => FieldId::NameInput,
        }
    }

    /// The fields reached from this one in `steps` moves of the focus.
    pub open spec fn successor_times(self, steps: nat) -> FieldId
        decreases steps,
    {
        if steps == 0 {
            self
        } else {
            self.successor_times((steps - 1) as nat).successor_of()
        }
    }

    /// The field's place in the focus order, from 0.
    pub fn index(self) -> (index: usize)
        ensures
            index == self.index_of(),
            index < FIELD_COUNT,
    {
        match self {
            FieldId::NameInput => 0,
            FieldId::TypeList => 1,
            FieldId::CategoryList => 2,
            FieldId::FileList => 3,
            FieldId::Preview => 4,
        }
    }

    /// The field at place `index` of the focus order, if there is one.
    pub fn from_index(index: usize) -> (field: Option<FieldId>)
        ensures
            field == Self::at(index as int),
    {
        if index == 0 {
            Some(FieldId::NameInput)
        } else if index == 1 {
            Some(FieldId::TypeList)
        } else if index == 2 {
            Some(FieldId::CategoryList)
        } else if index == 3 {
            Some(FieldId::FileList)
        } else if index == 4 {
            Some(FieldId::Preview)
        } else {
            None
        }
    }

    /// The field that gets the focus after this one.
    pub fn successor(self) -> (next: FieldId)
        ensures
            next == self.successor_of(),
    {
        let next = Self::from_index(advance_focus(self.index(), FIELD_COUNT));
        match next {
            Some(field) => field,
            None => self,
        }
    }
}

/// The successor of a field is the field whose index is one further in the
/// cycle of all fields.
pub proof fn lemma_successor_advances(field: FieldId)
    ensures
        FieldId::at(advanced(field.index_of(), FIELD_COUNT as int)) == Some(field.successor_of()),
        FieldId::at(field.index_of()) == Some(field),
{
}

/// The focus order is a cycle through all fields: as many moves as there
/// are fields bring the focus back to where it was.
pub proof fn lemma_focus_full_cycle(field: FieldId)
    ensures
        field.successor_times(FIELD_COUNT as nat) == field,
{
    reveal_with_fuel(FieldId::successor_times, 6);
}

} // verus!
