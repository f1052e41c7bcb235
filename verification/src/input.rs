//! From key presses to changes of state.
//!
//! The event loop reads one key at a time and hands it to
//! [`AppData::handle_key`], which changes the state as the key asks and says
//! whether the session goes on. A key that means nothing changes nothing.

use crate::cursor::{lemma_forward_by_lands, lemma_mod_wraps_once};
use crate::state::{AppData, AppView};
use vstd::prelude::*;

verus! {

/// A key press, as far as the browser tells keys apart.
#[derive(Clone, Copy, Debug, PartialEq, Eq, Structural)]
pub enum Key {
    /// A key that types a character.
    Char(char),
    /// The left arrow.
    Left,
    /// The right arrow.
    Right,
    /// The up arrow.
    Up,
    /// The down arrow.
    Down,
    /// Any other key.
    Other,
}

/// Whether the session goes on.
#[derive(Clone, Copy, Debug, PartialEq, Eq, Structural)]
pub enum Status {
    /// The loop reads the next key.
    Running,
    /// The loop has ended; nothing more is read or drawn.
    Terminated,
}

/// Whether `key` ends the session.
pub open spec fn quits(key: Key) -> bool {
    key == Key::Char('q')
}

/// Whether `key` moves the cursor of the history list.
pub open spec fn moves_row(key: Key) -> bool {
    key == Key::Up || key == Key::Down
}

/// The status after `key` was pressed in a running session.
pub open spec fn status_after(key: Key) -> Status {
    if quits(key) {
        Status::Terminated
    } else {
        Status::Running
    }
}

impl AppView {
    /// The state after `key` was pressed: the arrows to the sides switch the
    /// pane, the arrows up and down move the history cursor while the history
    /// is shown, and every other key leaves the state as it is.
    pub open spec fn after_key(self, key: Key) -> AppView {
        match key {
            Key::Right => self.pane_right(),
            Key::Left => self.pane_left(),
            Key::Down => self.row_down(),
            Key::Up => self.row_up(),
            _ => self,
        }
    }

    /// The state after the keys of `keys` were pressed one after another.
    pub open spec fn after_keys(self, keys: Seq<Key>) -> AppView
        decreases keys.len(),
    {
        if keys.len() == 0 {
            self
        } else {
            self.after_keys(keys.drop_last()).after_key(keys.last())
        }
    }
}

impl AppData {
    /// Applies one key press to the state and says whether the session goes
    /// on: `q` ends it, and no other key does.
    pub fn handle_key(&mut self, key: Key) -> (status: Status)
        ensures
            final(self)@ == old(self)@.after_key(key),
            final(self)@.wf(),
            status == status_after(key),
    {
        proof {
            use_type_invariant(&*self);
        }
        match key {
            Key::Char(c) => {
                if c == 'q' {
                    Status::Terminated
                } else {
                    Status::Running
                }
            },
            Key::Right => {
                self.next();
                Status::Running
            },
            Key::Left => {
                self.previous();
                Status::Running
            },
            Key::Down => {
                self.select_next();
                Status::Running
            },
            Key::Up => {
                self.select_previous();
                Status::Running
            },
            Key::Other => Status::Running,
        }
    }
}

/// One key press keeps a well-formed state well-formed and the panes as they
/// are.
pub proof fn lemma_key_keeps_wf(app: AppView, key: Key)
    requires
        app.wf(),
    ensures
        app.after_key(key).wf(),
        app.after_key(key).titles == app.titles,
        app.after_key(key).list.items == app.list.items,
{
    let count = app.titles.len();
    lemma_mod_wraps_once(app.index + 1, count);
    lemma_mod_wraps_once((app.index + count - 1) as nat, count);
    let rows = app.list.items.len();
    if rows > 0 {
        if let Some(i) = app.list.cursor {
            lemma_mod_wraps_once(i + 1, rows);
            lemma_mod_wraps_once((i + rows - 1) as nat, rows);
        }
    }
}

/// Whatever keys are pressed, in whatever order, one of the panes is active
/// afterwards: the active index is never unset and never out of range, and
/// the panes and the records are those the session started with.
pub proof fn law_some_pane_always_active(app: AppView, keys: Seq<Key>)
    requires
        app.wf(),
    ensures
        app.after_keys(keys).wf(),
        app.after_keys(keys).index < app.titles.len(),
        app.after_keys(keys).titles == app.titles,
        app.after_keys(keys).list.items == app.list.items,
    decreases keys.len(),
{
    if keys.len() > 0 {
        law_some_pane_always_active(app, keys.drop_last());
        lemma_key_keeps_wf(app.after_keys(keys.drop_last()), keys.last());
    }
}

/// Keys that do not move the row leave the history list alone: however the
/// panes are switched, the cursor is where it was.
pub proof fn law_pane_keys_keep_cursor(app: AppView, keys: Seq<Key>)
    requires
        forall|i: int| 0 <= i < keys.len() ==> !moves_row(#[trigger] keys[i]),
    ensures
        app.after_keys(keys).list == app.list,
    decreases keys.len(),
{
    if keys.len() > 0 {
        law_pane_keys_keep_cursor(app, keys.drop_last());
        assert(!moves_row(keys[keys.len() - 1]));
    }
}

/// While the history holds no record, no key gives it a cursor.
pub proof fn law_empty_history_has_no_cursor(app: AppView, keys: Seq<Key>)
    requires
        app.wf(),
        app.list.items.len() == 0,
    ensures
        app.after_keys(keys).list.cursor is None,
        app.after_keys(keys).list == app.list,
    decreases keys.len(),
{
    if keys.len() > 0 {
        law_empty_history_has_no_cursor(app, keys.drop_last());
    }
}

/// The right arrow pressed `presses` times.
pub open spec fn right_presses(presses: nat) -> Seq<Key> {
    Seq::new(presses, |i: int| Key::Right)
}

/// Pressing the right arrow moves the active pane round the row of panes:
/// after `presses` presses it is `presses` panes further on, counted round.
pub proof fn lemma_right_presses_land(app: AppView, presses: nat)
    requires
        app.wf(),
    ensures
        app.after_keys(right_presses(presses)) == (AppView {
            index: (app.index + presses) % app.titles.len(),
            ..app
        }),
    decreases presses,
{
    let count = app.titles.len();
    if presses == 0 {
        lemma_mod_wraps_once(app.index, count);
    } else {
        let before = (presses - 1) as nat;
        lemma_right_presses_land(app, before);
        assert(right_presses(presses).drop_last() =~= right_presses(before));
        lemma_forward_by_lands(count, app.index, before);
        lemma_forward_by_lands(count, app.index, presses);
    }
}

/// As many presses of the right arrow as there are panes lead back to the pane
/// that was active before, and leave everything else as it was.
pub proof fn law_right_round_trip(app: AppView)
    requires
        app.wf(),
    ensures
        app.after_keys(right_presses(app.titles.len())) == app,
{
    lemma_right_presses_land(app, app.titles.len());
    lemma_mod_wraps_once(app.index + app.titles.len(), app.titles.len());
}

} // verus!
