//! The lookup widget's requests: the search typed, and what a request to
//! set a lookup names.

use vstd::prelude::*;
use crate::errors::RitmoErr;
use crate::web::forms::trimmed_field;
use crate::web::routes::{entity_kind_of, is_invalid};

verus! {

/// The query of a lookup search.
#[derive(Debug, Clone, PartialEq, Eq)]
pub struct LookupSearchQuery {
    pub q: Option<String>,
    pub entity_type: String,
    pub entity_id: i64,
}

/// The form that sets a lookup: an existing value by id, or a value by
/// name.
#[derive(Debug, Clone, PartialEq, Eq)]
pub struct SetLookupForm {
    pub lookup_id: Option<i64>,
    pub lookup_value: Option<String>,
}

/// What a set request names.
#[derive(Debug, Clone, PartialEq, Eq)]
pub enum LookupTarget {
    ById(i64),
    ByValue(String),
}

/// The value a set request names: the id where one is given, else the
/// value by name, else an invalid-input error.
pub fn lookup_target(form: &SetLookupForm) -> (r: Result<LookupTarget, RitmoErr>)
    ensures
        match (form.lookup_id, form.lookup_value) {
            (Some(id), _) => r == Ok::<LookupTarget, RitmoErr>(LookupTarget::ById(id)),
            (None, Some(v)) => r == Ok::<LookupTarget, RitmoErr>(LookupTarget::ByValue(v)),
            (None, None) => r matches Err(e) && is_invalid(e, "lookup_id or lookup_value required"@),
        },
{
    match form.lookup_id {
        Some(id) => Ok(LookupTarget::ById(id)),
        None => match &form.lookup_value {
            Some(v) => Ok(LookupTarget::ByValue(v.clone())),
            None => {
                let mut m = String::new();
                m.append("lookup_id or lookup_value required");
                Err(RitmoErr::InvalidInput(m))
            },
        },
    }
}

/// The text a lookup search shows and runs on: the query trimmed (empty
/// where missing); it runs only where that is not empty.
pub fn lookup_search_text(q: &Option<String>) -> (r: String)
    ensures
        r@ == (match trimmed_field(*q) {
            Some(t) => t,
            None => Seq::empty(),
        }),
{
    match crate::web::forms::trim_to_option(crate::web::forms::copy_text(q)) {
        Some(t) => t,
        None => String::new(),
    }
}

/// Nothing where the widget's record kind is books or contents, else the
/// unknown-kind error.
pub fn check_widget_entity(entity_type: &str) -> (r: Result<(), RitmoErr>)
    ensures
        match entity_kind_of(entity_type@) {
            Some(_) => r is Ok,
            None => r matches Err(e) && is_invalid(
                e,
                crate::web::routes::unknown_entity(entity_type@),
            ),
        },
{
    crate::web::routes::validate_entity_type(entity_type)
}

} // verus!
