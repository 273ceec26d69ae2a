//! The queries and the form of the people-with-roles widget.

use vstd::prelude::*;

verus! {

/// The query that opens the search panel for a record.
#[derive(Debug, Clone, PartialEq, Eq)]
pub struct PanelQuery {
    pub entity_type: String,
    pub entity_id: i64,
}

/// The query of a person search.
#[derive(Debug, Clone, PartialEq, Eq)]
pub struct PersonSearchQuery {
    pub q: Option<String>,
    pub entity_type: String,
    pub entity_id: i64,
}

/// The form that links a person with a role.
#[derive(Debug, Clone, PartialEq, Eq)]
pub struct LinkForm {
    pub person_id: i64,
    pub role_id: i64,
}

} // verus!
