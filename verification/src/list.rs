//! A list of items with an optional cursor on one of them.

use crate::cursor::{
    cursor_valid, forward_by, law_back_undoes_forward, law_forward_from_unset,
    law_forward_visits_each_slot_once, step_back, step_forward, steps_between,
};
use vstd::arithmetic::div_mod::{lemma_mod_add_multiples_vanish, lemma_mod_self_0, lemma_small_mod};
use vstd::prelude::*;

verus! {

/// What a [`StatefulList`] stands for: its items in display order and the
/// position of its cursor, if it has one.
pub ghost struct ListView<T> {
    pub items: Seq<T>,
    pub cursor: Option<nat>,
}

impl<T> ListView<T> {
    /// The cursor, if set, points at one of the items.
    pub open spec fn wf(self) -> bool {
        cursor_valid(self.items.len(), self.cursor)
    }

    /// The same items with the cursor moved one row down.
    pub open spec fn forward(self) -> Self {
        ListView { items: self.items, cursor: step_forward(self.items.len(), self.cursor) }
    }

    /// The same items with the cursor moved one row up.
    pub open spec fn back(self) -> Self {
        ListView { items: self.items, cursor: step_back(self.items.len(), self.cursor) }
    }

    /// The same items with no row chosen.
    pub open spec fn cleared(self) -> Self {
        ListView { items: self.items, cursor: None }
    }

    /// The same items with the cursor moved down `steps` times.
    pub open spec fn moved_down(self, steps: nat) -> Self
        decreases steps,
    {
        if steps == 0 {
            self
        } else {
            self.moved_down((steps - 1) as nat).forward()
        }
    }
}

/// The position that an executable cursor value stands for.
pub open spec fn position(selected: Option<usize>) -> Option<nat> {
    match selected {
        Some(i) => Some(i as nat),
        None => None,
    }
}

/// An ordered sequence of items, fixed once built, and a cursor that is
/// either unset or the index of one item.
pub struct StatefulList<T> {
    selected: Option<usize>,
    items: Vec<T>,
}

impl<T> View for StatefulList<T> {
    type V = ListView<T>;

    closed spec fn view(&self) -> ListView<T> {
        ListView { items: self.items@, cursor: position(self.selected) }
    }
}

impl<T> StatefulList<T> {
    /// Every list that exists has a cursor that is unset or in range.
    #[verifier::type_invariant]
    pub open spec fn well_formed(&self) -> bool {
        self@.wf()
    }

    /// A list of `items`, in the order given, with no row chosen.
    pub fn with_items(items: Vec<T>) -> (list: StatefulList<T>)
        ensures
            list@.items == items@,
            list@.cursor is None,
            list@.wf(),
    {
        StatefulList { selected: None, items }
    }

    /// Moves the cursor one row down: an unset cursor goes to the first row,
    /// the cursor on the last row goes back to the first. A list without
    /// items keeps its cursor unset.
    pub fn next(&mut self)
        ensures
            final(self)@ == old(self)@.forward(),
            final(self)@.wf(),
            old(self)@.items.len() == 0 ==> final(self)@.cursor is None,
        no_unwind
    {
        proof {
            use_type_invariant(&*self);
        }
        let len: usize = self.items.len();
        if len == 0 {
            return ;
        }
        let i: usize = match self.selected {
            Some(i) => {
                if i >= len - 1 {
                    proof {
                        lemma_mod_self_0(len as int);
                    }
                    0
                } else {
                    proof {
                        lemma_small_mod((i + 1) as nat, len as nat);
                    }
                    i + 1
                }
            },
            None => 0,
        };
        self.selected = Some(i);
    }

    /// Moves the cursor one row up: an unset cursor goes to the first row,
    /// the cursor on the first row goes to the last. A list without items
    /// keeps its cursor unset.
    pub fn previous(&mut self)
        ensures
            final(self)@ == old(self)@.back(),
            final(self)@.wf(),
            old(self)@.items.len() == 0 ==> final(self)@.cursor is None,
        no_unwind
    {
        proof {
            use_type_invariant(&*self);
        }
        let len: usize = self.items.len();
        if len == 0 {
            return ;
        }
        let i: usize = match self.selected {
            Some(i) => {
                if i == 0 {
                    proof {
                        lemma_small_mod((len - 1) as nat, len as nat);
                    }
                    len - 1
                } else {
                    proof {
                        lemma_mod_add_multiples_vanish(i - 1, len as int);
                        lemma_small_mod((i - 1) as nat, len as nat);
                    }
                    i - 1
                }
            },
            None => 0,
        };
        self.selected = Some(i);
    }

    /// Takes the cursor off whatever row it was on.
    pub fn unselect(&mut self)
        ensures
            final(self)@ == old(self)@.cleared(),
            final(self)@.wf(),
        no_unwind
    {
        self.selected = None;
    }

    /// The index of the chosen row, if one is chosen.
    pub fn selected(&self) -> (selected: Option<usize>)
        ensures
            position(selected) == self@.cursor,
            selected matches Some(i) ==> i < self@.items.len(),
    {
        proof {
            use_type_invariant(self);
        }
        self.selected
    }

    /// The items, in display order.
    pub fn items(&self) -> (items: &Vec<T>)
        ensures
            items@ == self@.items,
    {
        &self.items
    }

    /// The number of items.
    pub fn len(&self) -> (len: usize)
        ensures
            len == self@.items.len(),
    {
        self.items.len()
    }
}

/// Moving down `steps` times leaves the items alone and takes the cursor
/// `steps` steps forward.
pub proof fn lemma_moved_down_steps_cursor<T>(list: ListView<T>, steps: nat)
    ensures
        list.moved_down(steps).items == list.items,
        list.moved_down(steps).cursor == forward_by(list.items.len(), list.cursor, steps),
    decreases steps,
{
    if steps > 0 {
        lemma_moved_down_steps_cursor(list, (steps - 1) as nat);
    }
}

/// In a list with at least one item and a row chosen, moving down as many
/// times as there are items passes through every row exactly once and ends
/// on the row it began on: each row is reached after fewer moves than there
/// are items, and no two such counts of moves lead to the same row.
pub proof fn law_next_visits_every_row_once<T>(list: ListView<T>, start: nat)
    requires
        list.wf(),
        list.cursor == Some(start),
    ensures
        list.moved_down(list.items.len()) == list,
        forall|row: nat|
            row < list.items.len() ==> {
                &&& #[trigger] steps_between(list.items.len(), start, row) < list.items.len()
                &&& list.moved_down(steps_between(list.items.len(), start, row)).cursor == Some(
                    row,
                )
            },
        forall|a: nat, b: nat|
            #![trigger list.moved_down(a), list.moved_down(b)]
            a < b < list.items.len() ==> list.moved_down(a).cursor != list.moved_down(b).cursor,
{
    let len = list.items.len();
    law_forward_visits_each_slot_once(len, start);
    lemma_moved_down_steps_cursor(list, len);
    assert forall|row: nat| row < len implies {
        &&& #[trigger] steps_between(len, start, row) < len
        &&& list.moved_down(steps_between(len, start, row)).cursor == Some(row)
    } by {
        lemma_moved_down_steps_cursor(list, steps_between(len, start, row));
    }
    assert forall|a: nat, b: nat|
        #![trigger list.moved_down(a), list.moved_down(b)]
        a < b < len implies list.moved_down(a).cursor != list.moved_down(b).cursor by {
        lemma_moved_down_steps_cursor(list, a);
        lemma_moved_down_steps_cursor(list, b);
    }
}

/// In a list with at least one item and no row chosen, the first move down
/// chooses the first row, and the moves after it go down the rows in order:
/// as many moves as there are items visit every row once, and one more is on
/// the first row again.
pub proof fn law_next_from_unset_walks_in_order<T>(list: ListView<T>)
    requires
        list.items.len() > 0,
        list.cursor is None,
    ensures
        forall|steps: nat|
            0 < steps <= list.items.len() ==> (#[trigger] list.moved_down(steps)).cursor == Some(
                (steps - 1) as nat,
            ),
        list.moved_down(list.items.len() + 1).cursor == Some(0nat),
{
    let len = list.items.len();
    law_forward_from_unset(len);
    lemma_moved_down_steps_cursor(list, len + 1);
    assert forall|steps: nat| 0 < steps <= len implies (#[trigger] list.moved_down(steps)).cursor
        == Some((steps - 1) as nat) by {
        lemma_moved_down_steps_cursor(list, steps);
    }
}

/// A move up undoes a move down, and a move down undoes a move up, in every
/// list that has a row chosen and in every list without items. (In a list
/// with items and no row chosen the first move chooses a row, and no second
/// move takes the choice away.)
pub proof fn law_previous_undoes_next<T>(list: ListView<T>)
    requires
        list.wf(),
        list.cursor is Some || list.items.len() == 0,
    ensures
        list.forward().back() == list,
        list.back().forward() == list,
{
    law_back_undoes_forward(list.items.len(), list.cursor);
}

/// A list without items has no row chosen, and no number of moves down or up
/// chooses one.
pub proof fn law_empty_list_stays_unselected<T>(list: ListView<T>, steps: nat)
    requires
        list.wf(),
        list.items.len() == 0,
    ensures
        list.cursor is None,
        list.forward() == list,
        list.back() == list,
        list.moved_down(steps) == list,
    decreases steps,
{
    if steps > 0 {
        law_empty_list_stays_unselected(list, (steps - 1) as nat);
    }
}

} // verus!
