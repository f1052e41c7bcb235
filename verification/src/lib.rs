//! Navigable state for a terminal browser of commit history: a list of
//! records with an optional cursor, a row of named panes with one active
//! pane, and the rules by which key presses move both.

pub mod cursor;
pub mod list;
pub mod record;
pub mod state;
pub mod input;
