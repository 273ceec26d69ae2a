//! A table of text cells, and what keys do in a list shown as a table.

use vstd::prelude::*;
use crate::keys::{KeyCode, KeyEvent};

verus! {

/// Column headers and rows of cells.
#[derive(Debug, Clone, PartialEq, Eq)]
pub struct TableWidget {
    pub headers: Vec<String>,
    pub rows: Vec<Vec<String>>,
}

impl TableWidget {
    pub fn new(headers: Vec<String>, rows: Vec<Vec<String>>) -> (t: TableWidget)
        ensures
            t.headers == headers,
            t.rows == rows,
    {
        TableWidget { headers, rows }
    }
}

impl Default for TableWidget {
    fn default() -> (t: TableWidget)
        ensures
            t.headers@.len() == 0,
            t.rows@.len() == 0,
    {
        TableWidget { headers: Vec::new(), rows: Vec::new() }
    }
}

/// What a key asks of a list.
#[derive(Debug, Clone, Copy, PartialEq, Eq, Structural)]
pub enum TableAction {
    Nothing,
    ScrollUp,
    ScrollDown,
    Select,
    New,
    Delete,
    Search,
}

/// The action of a key in a list: arrows or j/k scroll, Enter selects,
/// n/+ ask for a new record, d/Delete for a deletion, / for a search.
pub open spec fn table_action(code: KeyCode) -> TableAction {
    match code {
        KeyCode::Up | KeyCode::Char('k') => TableAction::ScrollUp,
        KeyCode::Down | KeyCode::Char('j') => TableAction::ScrollDown,
        KeyCode::Enter => TableAction::Select,
        KeyCode::Char('n') | KeyCode::Char('+') => TableAction::New,
        KeyCode::Char('d') | KeyCode::Delete => TableAction::Delete,
        KeyCode::Char('/') => TableAction::Search,
        _ => TableAction::Nothing,
    }
}

/// The action of `key` in a list (see `table_action`).
pub fn table_action_for_key(key: KeyEvent) -> (a: TableAction)
    ensures
        a == table_action(key.code),
{
    match key.code {
        KeyCode::Up | KeyCode::Char('k') => TableAction::ScrollUp,
        KeyCode::Down | KeyCode::Char('j') => TableAction::ScrollDown,
        KeyCode::Enter => TableAction::Select,
        KeyCode::Char('n') | KeyCode::Char('+') => TableAction::New,
        KeyCode::Char('d') | KeyCode::Delete => TableAction::Delete,
        KeyCode::Char('/') => TableAction::Search,
        _ => TableAction::Nothing,
    }
}

/// The selected row of a list of `len` rows.
#[derive(Debug, Clone, Copy, PartialEq, Eq, Structural)]
pub struct TableSelection {
    pub selected: usize,
}

impl TableSelection {
    pub fn new() -> (s: TableSelection)
        ensures
            s.selected == 0,
    {
        TableSelection { selected: 0 }
    }

    /// The selected index.
    pub fn selected_index(&self) -> (i: usize)
        ensures
            i == self.selected,
    {
        self.selected
    }

    /// One row down, stopping at the last of `len` rows.
    pub fn next(&mut self, len: usize)
        ensures
            final(self).selected == (if old(self).selected + 1 < len {
                old(self).selected + 1
            } else if len == 0 {
                0
            } else {
                len - 1
            }),
    {
        if self.selected < usize::MAX && self.selected + 1 < len {
            self.selected = self.selected + 1;
        } else if len == 0 {
            self.selected = 0;
        } else {
            self.selected = len - 1;
        }
    }

    /// One row up, stopping at the first.
    pub fn previous(&mut self)
        ensures
            final(self).selected == (if old(self).selected > 0 {
                old(self).selected - 1
            } else {
                0
            }),
    {
        self.selected = self.selected.saturating_sub(1);
    }
}

} // verus!
