//! The records of a project's history, as the browser keeps them.
//!
//! A record source hands over what it could read of each commit as a
//! [`RawRecord`]. The browser keeps a [`HistoryRecord`] of its own for each:
//! plain text and numbers, with a placeholder wherever the source could not
//! read a text.

use crate::list::StatefulList;
use vstd::prelude::*;

verus! {

/// Shown as the author of a record whose author could not be read.
pub const UNKNOWN_AUTHOR: &'static str = "(unknown author)";

/// Shown as the message of a record whose message is absent or unreadable.
pub const NO_MESSAGE: &'static str = "(no message)";

/// What a [`HistoryRecord`] stands for.
pub ghost struct RecordView {
    pub id: Seq<char>,
    pub author: Seq<char>,
    pub time: int,
    pub message: Seq<char>,
}

/// One commit as the record source read it. A text that the source could not
/// decode is `None`.
#[derive(Clone, Debug)]
pub struct RawRecord {
    /// The commit's id, written out.
    pub id: String,
    /// The author's name.
    pub author: Option<String>,
    /// When the commit was made, in seconds since the epoch.
    pub time: i64,
    /// The commit message, which may run over several lines.
    pub message: Option<String>,
}

/// The text itself where there is one, else the fallback.
pub open spec fn text_or(text: Option<String>, fallback: Seq<char>) -> Seq<char> {
    match text {
        Some(t) => t@,
        None => fallback,
    }
}

impl RawRecord {
    /// The record that the browser keeps for this commit: every text that
    /// was read stands as it is, every text that was not is a placeholder.
    pub open spec fn decoded(self) -> RecordView {
        RecordView {
            id: self.id@,
            author: text_or(self.author, UNKNOWN_AUTHOR@),
            time: self.time as int,
            message: text_or(self.message, NO_MESSAGE@),
        }
    }
}

/// One entry of the history: id, author, time and message. It is a copy that
/// owes nothing to the source it came from, and it does not change.
#[derive(Clone, Debug)]
pub struct HistoryRecord {
    id: String,
    author: String,
    time: i64,
    message: String,
}

impl View for HistoryRecord {
    type V = RecordView;

    closed spec fn view(&self) -> RecordView {
        RecordView {
            id: self.id@,
            author: self.author@,
            time: self.time as int,
            message: self.message@,
        }
    }
}

impl HistoryRecord {
    /// A record of the four values given.
    pub fn new(id: String, author: String, time: i64, message: String) -> (record: HistoryRecord)
        ensures
            record@ == (RecordView { id: id@, author: author@, time: time as int, message: message@ }),
    {
        HistoryRecord { id, author, time, message }
    }

    /// The record for a commit as the source read it. An author or a message
    /// that could not be read becomes its placeholder; nothing fails.
    pub fn decode(raw: &RawRecord) -> (record: HistoryRecord)
        ensures
            record@ == raw.decoded(),
    {
        let author = match &raw.author {
            Some(name) => name.clone(),
            None => UNKNOWN_AUTHOR.to_owned(),
        };
        let message = match &raw.message {
            Some(text) => text.clone(),
            None => NO_MESSAGE.to_owned(),
        };
        HistoryRecord { id: raw.id.clone(), author, time: raw.time, message }
    }

    /// The commit's id.
    pub fn id(&self) -> (id: &str)
        ensures
            id@ == self@.id,
    {
        self.id.as_str()
    }

    /// The author, as shown.
    pub fn author(&self) -> (author: &str)
        ensures
            author@ == self@.author,
    {
        self.author.as_str()
    }

    /// When the commit was made, in seconds since the epoch.
    pub fn time(&self) -> (time: i64)
        ensures
            time == self@.time,
    {
        self.time
    }

    /// The commit message.
    pub fn message(&self) -> (message: &str)
        ensures
            message@ == self@.message,
    {
        self.message.as_str()
    }
}

/// The history list that the browser starts with: one record for each commit
/// that the source handed over, in the source's order, and no row chosen.
pub fn load_history(raw: &Vec<RawRecord>) -> (list: StatefulList<HistoryRecord>)
    ensures
        list@.cursor is None,
        list@.items.len() == raw@.len(),
        forall|i: int| 0 <= i < raw@.len() ==> (#[trigger] list@.items[i])@ == raw@[i].decoded(),
{
    let mut records: Vec<HistoryRecord> = Vec::new();
    let mut i: usize = 0;
    while i < raw.len()
        invariant
            i <= raw@.len(),
            records@.len() == i,
            forall|k: int| 0 <= k < i ==> (#[trigger] records@[k])@ == raw@[k].decoded(),
        decreases raw@.len() - i,
    {
        records.push(HistoryRecord::decode(&raw[i]));
        i += 1;
    }
    StatefulList::with_items(records)
}

} // verus!
