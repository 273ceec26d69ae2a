//! The queries and the form of the languages widget.

use vstd::prelude::*;

verus! {

/// The query that opens the search panel for a record.
#[derive(Debug, Clone, PartialEq, Eq)]
pub struct PanelQuery {
    pub entity_type: String,
    pub entity_id: i64,
}

/// The query of a language search.
#[derive(Debug, Clone, PartialEq, Eq)]
pub struct LangSearchQuery {
    pub q: Option<String>,
    pub entity_type: String,
    pub entity_id: i64,
}

/// The form that links a language with a role.
#[derive(Debug, Clone, PartialEq, Eq)]
pub struct LinkForm {
    pub language_id: i64,
    pub role_id: i64,
}

} // verus!
