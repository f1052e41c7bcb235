//! The state of the browser: a row of named panes, one of them active, and
//! the history list that the first pane shows.

use crate::cursor::lemma_mod_wraps_once;
use crate::list::{ListView, StatefulList};
use crate::record::HistoryRecord;
use vstd::prelude::*;

verus! {

/// What an [`AppData`] stands for: the pane labels in order, the index of the
/// active pane, and the history list.
pub ghost struct AppView {
    pub titles: Seq<Seq<char>>,
    pub index: nat,
    pub list: ListView<HistoryRecord>,
}

impl AppView {
    /// There is at least one pane, the active index names one of them, and
    /// the list's cursor is unset or in range.
    pub open spec fn wf(self) -> bool {
        &&& self.index < self.titles.len()
        &&& self.list.wf()
    }

    /// Whether the active pane is the one that shows the history list.
    pub open spec fn shows_history(self) -> bool {
        self.index == 0
    }

    /// The state with the pane to the right active, the first after the
    /// last.
    pub open spec fn pane_right(self) -> Self {
        AppView { index: (self.index + 1) % self.titles.len(), ..self }
    }

    /// The state with the pane to the left active, the last before the
    /// first.
    pub open spec fn pane_left(self) -> Self {
        AppView { index: ((self.index + self.titles.len() - 1) as nat) % self.titles.len(), ..self }
    }

    /// The state with the history cursor one row down, where the active pane
    /// shows the history; else the state as it is.
    pub open spec fn row_down(self) -> Self {
        if self.shows_history() {
            AppView { list: self.list.forward(), ..self }
        } else {
            self
        }
    }

    /// The state with the history cursor one row up, where the active pane
    /// shows the history; else the state as it is.
    pub open spec fn row_up(self) -> Self {
        if self.shows_history() {
            AppView { list: self.list.back(), ..self }
        } else {
            self
        }
    }
}

/// The labels of the panes, in order. The first pane shows the history; the
/// other two show nothing yet.
pub open spec fn pane_titles() -> Seq<Seq<char>> {
    seq!["commit logs"@, "TBD"@, "TBD"@]
}

/// A pane label cut into its first character and the rest, so that the two
/// can be drawn in different colours. An empty label gives two empty parts.
pub fn split_title(title: &str) -> (parts: (&str, &str))
    ensures
        parts.0@ + parts.1@ == title@,
        parts.0@.len() == if title@.len() == 0 {
            0nat
        } else {
            1nat
        },
{
    let len: usize = title.unicode_len();
    let cut: usize = if len == 0 {
        0
    } else {
        1
    };
    let first = title.substring_char(0, cut);
    let rest = title.substring_char(cut, len);
    assert(first@ + rest@ =~= title@);
    (first, rest)
}

/// What the active pane has to show.
pub enum PaneContent<'a> {
    /// The history list, with its cursor.
    History(&'a StatefulList<HistoryRecord>),
    /// Nothing yet.
    Placeholder,
}

/// The browser's whole state, which the event loop owns and the renderer
/// reads.
pub struct AppData {
    titles: Vec<String>,
    index: usize,
    items: StatefulList<HistoryRecord>,
}

impl View for AppData {
    type V = AppView;

    closed spec fn view(&self) -> AppView {
        AppView { titles: self.titles.deep_view(), index: self.index as nat, list: self.items@ }
    }
}

impl AppData {
    /// Some pane is active at all times.
    #[verifier::type_invariant]
    pub open spec fn well_formed(&self) -> bool {
        self@.wf()
    }

    /// The state at startup: the three panes, the first of them active, and
    /// the history list as it was handed over.
    pub fn new(items: StatefulList<HistoryRecord>) -> (app: AppData)
        ensures
            app@.titles == pane_titles(),
            app@.index == 0,
            app@.list == items@,
            app@.wf(),
    {
        let mut titles: Vec<String> = Vec::new();
        titles.push("commit logs".to_owned());
        titles.push("TBD".to_owned());
        titles.push("TBD".to_owned());
        proof {
            use_type_invariant(&items);
            assert(titles.deep_view() =~= pane_titles());
        }
        AppData { titles, index: 0, items }
    }

    /// Makes the pane to the right active; from the last pane, the first.
    /// The history list and its cursor stay as they are.
    pub fn next(&mut self)
        ensures
            final(self)@ == old(self)@.pane_right(),
            final(self)@.wf(),
            final(self)@.list == old(self)@.list,
    {
        proof {
            use_type_invariant(&*self);
        }
        let count: usize = self.titles.len();
        self.index = (self.index + 1) % count;
    }

    /// Makes the pane to the left active; from the first pane, the last.
    /// The history list and its cursor stay as they are.
    pub fn previous(&mut self)
        ensures
            final(self)@ == old(self)@.pane_left(),
            final(self)@.wf(),
            final(self)@.list == old(self)@.list,
    {
        proof {
            use_type_invariant(&*self);
            lemma_mod_wraps_once((self.index + self.titles.len() - 1) as nat, self.titles.len() as nat);
        }
        if self.index > 0 {
            self.index -= 1;
        } else {
            self.index = self.titles.len() - 1;
        }
    }

    /// Moves the history cursor one row down if the active pane shows the
    /// history, and does nothing if it does not.
    pub fn select_next(&mut self)
        ensures
            final(self)@ == old(self)@.row_down(),
            final(self)@.wf(),
    {
        proof {
            use_type_invariant(&*self);
        }
        if self.index == 0 {
            self.items.next();
        }
    }

    /// Moves the history cursor one row up if the active pane shows the
    /// history, and does nothing if it does not.
    pub fn select_previous(&mut self)
        ensures
            final(self)@ == old(self)@.row_up(),
            final(self)@.wf(),
    {
        proof {
            use_type_invariant(&*self);
        }
        if self.index == 0 {
            self.items.previous();
        }
    }

    /// The pane labels, in order.
    pub fn titles(&self) -> (titles: &Vec<String>)
        ensures
            titles.deep_view() == self@.titles,
    {
        &self.titles
    }

    /// The index of the active pane, which is always one of the panes.
    pub fn index(&self) -> (index: usize)
        ensures
            index == self@.index,
            index < self@.titles.len(),
    {
        proof {
            use_type_invariant(self);
        }
        self.index
    }

    /// The history list, whichever pane is active.
    pub fn items(&self) -> (items: &StatefulList<HistoryRecord>)
        ensures
            items@ == self@.list,
    {
        &self.items
    }

    /// What the active pane has to show: the history list on the first pane,
    /// a placeholder on every other.
    pub fn content(&self) -> (content: PaneContent<'_>)
        ensures
            match content {
                PaneContent::History(list) => self@.shows_history() && list@ == self@.list,
                PaneContent::Placeholder => !self@.shows_history(),
            },
    {
        if self.index == 0 {
            PaneContent::History(&self.items)
        } else {
            PaneContent::Placeholder
        }
    }
}

} // verus!
