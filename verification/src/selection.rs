//! Lists with one selected entry, and cycling through their entries.

use vstd::arithmetic::div_mod::{
    lemma_add_mod_noop, lemma_mod_self_0, lemma_mod_twice, lemma_small_mod,
};
use vstd::prelude::*;

verus! {

/// An ordered list of items of which one is selected, unless the list is
/// empty.
pub struct SelectableList<T> {
    items: Vec<T>,
    selected: Option<usize>,
}

/// Whether `selected` is what a list of `len` items may have selected: an
/// index into the list, or nothing where the list is empty.
pub open spec fn valid_selection(len: nat, selected: Option<int>) -> bool {
    match selected {
        Some(i) => 0 <= i < len,
        None => len == 0,
    }
}

/// The selection after one step forward: the next index, the first one
/// after the last. Nothing stays nothing.
pub open spec fn next_selection(len: nat, selected: Option<int>) -> Option<int> {
    match selected {
        Some(i) => Some((i + 1) % (len as int)),
        None => None,
    }
}

/// The selection after one step back: the index before, the last one
/// before the first. Nothing stays nothing.
pub open spec fn previous_selection(len: nat, selected: Option<int>) -> Option<int> {
    match selected {
        Some(i) => Some((i - 1) % (len as int)),
        None => None,
    }
}

/// The selection after `steps` steps forward.
pub open spec fn next_selection_times(len: nat, selected: Option<int>, steps: nat) -> Option<int>
    decreases steps,
{
    if steps == 0 {
        selected
    } else {
        next_selection(len, next_selection_times(len, selected, (steps - 1) as nat))
    }
}

/// The selection after `steps` steps back.
pub open spec fn previous_selection_times(
    len: nat,
    selected: Option<int>,
    steps: nat,
) -> Option<int>
    decreases steps,
{
    if steps == 0 {
        selected
    } else {
        previous_selection(len, previous_selection_times(len, selected, (steps - 1) as nat))
    }
}

/// The selection that a list keeps when its items are replaced by `len`
/// new ones: the same index where it still names an item, else the first
/// item, or nothing where no item is left.
pub open spec fn selection_after_replace(len: nat, selected: Option<int>) -> Option<int> {
    if len == 0 {
        None
    } else {
        match selected {
            Some(i) => if 0 <= i < len {
                Some(i)
            } else {
                Some(0)
            },
            None => Some(0),
        }
    }
}

impl<T> SelectableList<T> {
    #[verifier::type_invariant]
    spec fn well_formed(self) -> bool {
        match self.selected {
            Some(i) => i < self.items.len(),
            None => self.items.len() == 0,
        }
    }

    /// The items in order.
    pub closed spec fn items_view(&self) -> Seq<T> {
        self.items@
    }

    /// The selected index, if any.
    pub closed spec fn selected_view(&self) -> Option<int> {
        match self.selected {
            Some(i) => Some(i as int),
            None => None,
        }
    }

    /// A list of `items` with the first one selected.
    pub fn new(items: Vec<T>) -> (list: Self)
        ensures
            list.items_view() == items@,
            list.selected_view() == (if items@.len() == 0 {
                None
            } else {
                Some(0int)
            }),
    {
        let selected = if items.len() == 0 {
            None
        } else {
            Some(0)
        };
        SelectableList { items, selected }
    }

    /// The number of items.
    pub fn len(&self) -> (n: usize)
        ensures
            n == self.items_view().len(),
    {
        self.items.len()
    }

    /// The items in order.
    pub fn items(&self) -> (items: &Vec<T>)
        ensures
            items@ == self.items_view(),
    {
        &self.items
    }

    /// The selected index. A list with items always has one.
    pub fn selected(&self) -> (index: Option<usize>)
        ensures
            self.selected_view() == (match index {
                Some(i) => Some(i as int),
                None => None,
            }),
            valid_selection(self.items_view().len(), self.selected_view()),
    {
        proof {
            use_type_invariant(self);
        }
        self.selected
    }

    /// The selected item. A list with items always has one.
    pub fn selected_item(&self) -> (item: Option<&T>)
        ensures
            valid_selection(self.items_view().len(), self.selected_view()),
            match item {
                Some(it) => self.selected_view() is Some && *it == self.items_view()[
                    self.selected_view()->0
                ],
                None => self.selected_view() is None,
            },
    {
        proof {
            use_type_invariant(self);
        }
        match self.selected {
            Some(i) => Some(&self.items[i]),
            None => None,
        }
    }

    /// Puts `items` in place of the list's items. The selected index stays
    /// where it still names an item; else the first item is selected.
    pub fn replace_items(&mut self, items: Vec<T>)
        ensures
            final(self).items_view() == items@,
            final(self).selected_view() == selection_after_replace(
                items@.len(),
                old(self).selected_view(),
            ),
    {
        let selected = if items.len() == 0 {
            None
        } else {
            match self.selected {
                Some(i) => if i < items.len() {
                    Some(i)
                } else {
                    Some(0)
                },
                None => Some(0),
            }
        };
        *self = SelectableList { items, selected };
    }
}

/// Selects the next item of `list`, the first one after the last. An empty
/// list stays as it is.
pub fn list_next<T>(list: &mut SelectableList<T>)
    ensures
        final(list).items_view() == old(list).items_view(),
        final(list).selected_view() == next_selection(
            old(list).items_view().len(),
            old(list).selected_view(),
        ),
        valid_selection(final(list).items_view().len(), final(list).selected_view()),
{
    proof {
        use_type_invariant(&*list);
    }
    match list.selected {
        Some(i) => {
            let len = list.items.len();
            if i >= len - 1 {
                proof {
                    lemma_mod_self_0(len as int);
                }
                list.selected = Some(0);
            } else {
                proof {
                    lemma_small_mod((i + 1) as nat, len as nat);
                }
                list.selected = Some(i + 1);
            }
        },
        None => {},
    }
}

/// Selects the item before the selected one, the last one before the
/// first. An empty list stays as it is.
pub fn list_previous<T>(list: &mut SelectableList<T>)
    ensures
        final(list).items_view() == old(list).items_view(),
        final(list).selected_view() == previous_selection(
            old(list).items_view().len(),
            old(list).selected_view(),
        ),
        valid_selection(final(list).items_view().len(), final(list).selected_view()),
{
    proof {
        use_type_invariant(&*list);
    }
    match list.selected {
        Some(i) => {
            let len = list.items.len();
            if i == 0 {
                proof {
                    lemma_minus_one_mod(len as int);
                }
                list.selected = Some(len - 1);
            } else {
                proof {
                    lemma_small_mod((i - 1) as nat, len as nat);
                }
                list.selected = Some(i - 1);
            }
        },
        None => {},
    }
}

/// `-1` modulo a positive `m` is `m - 1`.
proof fn lemma_minus_one_mod(m: int)
    requires
        m > 0,
    ensures
        (-1int) % m == m - 1,
{
    lemma_small_mod((m - 1) as nat, m as nat);
    lemma_add_mod_noop(m - 1, -m, m);
    assert((-m) % m == 0) by (nonlinear_arith)
        requires
            m > 0,
    ;
}

/// `steps` steps forward from index `i` end at `(i + steps) % len`.
proof fn lemma_next_times(len: nat, i: int, steps: nat)
    requires
        0 <= i < len,
    ensures
        next_selection_times(len, Some(i), steps) == Some((i + steps) % (len as int)),
    decreases steps,
{
    if steps == 0 {
        lemma_small_mod(i as nat, len);
    } else {
        lemma_next_times(len, i, (steps - 1) as nat);
        lemma_add_mod_noop(i + steps - 1, 1, len as int);
        lemma_add_mod_noop((i + steps - 1) % (len as int), 1, len as int);
        lemma_mod_twice(i + steps - 1, len as int);
    }
}

/// `steps` steps back from index `i` end at `(i - steps) % len`.
proof fn lemma_previous_times(len: nat, i: int, steps: nat)
    requires
        0 <= i < len,
    ensures
        previous_selection_times(len, Some(i), steps) == Some((i - steps) % (len as int)),
    decreases steps,
{
    if steps == 0 {
        lemma_small_mod(i as nat, len);
    } else {
        lemma_previous_times(len, i, (steps - 1) as nat);
        lemma_add_mod_noop(i - steps + 1, -1, len as int);
        lemma_add_mod_noop((i - steps + 1) % (len as int), -1, len as int);
        lemma_mod_twice(i - steps + 1, len as int);
    }
}

/// Cycling forward is a rotation: as many steps forward as a non-empty list
/// has items bring the selection back to where it started.
pub proof fn lemma_next_full_cycle(len: nat, selected: Option<int>)
    requires
        len > 0,
        valid_selection(len, selected),
    ensures
        next_selection_times(len, selected, len) == selected,
{
    let i = selected->0;
    lemma_next_times(len, i, len);
    lemma_add_mod_noop(i, len as int, len as int);
    lemma_small_mod(i as nat, len);
}

/// Cycling back is a rotation: as many steps back as a non-empty list has
/// items bring the selection back to where it started.
pub proof fn lemma_previous_full_cycle(len: nat, selected: Option<int>)
    requires
        len > 0,
        valid_selection(len, selected),
    ensures
        previous_selection_times(len, selected, len) == selected,
{
    let i = selected->0;
    lemma_previous_times(len, i, len);
    lemma_add_mod_noop(i, -(len as int), len as int);
    assert((-(len as int)) % (len as int) == 0) by (nonlinear_arith)
        requires
            len > 0,
    ;
    lemma_small_mod(i as nat, len);
}

/// One step forward and one step back undo each other.
pub proof fn lemma_next_then_previous(len: nat, selected: Option<int>)
    requires
        valid_selection(len, selected),
    ensures
        previous_selection(len, next_selection(len, selected)) == selected,
        next_selection(len, previous_selection(len, selected)) == selected,
{
    if selected is Some {
        let i = selected->0;
        lemma_add_mod_noop(i + 1, -1, len as int);
        lemma_add_mod_noop(i - 1, 1, len as int);
        lemma_small_mod(i as nat, len);
        lemma_mod_twice(i + 1, len as int);
        if len > 1 {
            lemma_small_mod(1, len);
        }
        lemma_add_mod_noop((i + 1) % (len as int), -1, len as int);
    }
}

/// On an empty list no number of steps selects anything.
pub proof fn lemma_empty_list_selects_nothing(steps: nat)
    ensures
        next_selection_times(0, None, steps) == None::<int>,
        previous_selection_times(0, None, steps) == None::<int>,
    decreases steps,
{
    if steps > 0 {
        lemma_empty_list_selects_nothing((steps - 1) as nat);
    }
}

/// A step forward or back keeps a valid selection valid.
pub proof fn lemma_steps_keep_valid(len: nat, selected: Option<int>)
    requires
        valid_selection(len, selected),
    ensures
        valid_selection(len, next_selection(len, selected)),
        valid_selection(len, previous_selection(len, selected)),
{
}

} // verus!
