//! The tags widget: its query, its form, and what a link request names.

use vstd::prelude::*;
use crate::errors::RitmoErr;
use crate::web::routes::is_invalid;

verus! {

/// The query of a tag search.
#[derive(Debug, Clone, PartialEq, Eq)]
pub struct TagSearchQuery {
    pub q: Option<String>,
    pub entity_type: String,
    pub entity_id: i64,
}

/// The form that links a tag: an existing one by id, or one by name (and
/// type), made where it does not exist.
#[derive(Debug, Clone, PartialEq, Eq)]
pub struct LinkTagForm {
    pub tag_id: Option<i64>,
    pub tag_name: Option<String>,
    pub tag_type: Option<String>,
}

/// The tag a link request names.
#[derive(Debug, Clone, PartialEq, Eq)]
pub enum TagSource {
    ById(i64),
    ByName { name: String, tag_type: String },
}

/// The tag a link request names: by id where one is given, else by name
/// with its type ("personal" where none is given), else an invalid-input
/// error.
pub fn tag_source(form: &LinkTagForm) -> (r: Result<TagSource, RitmoErr>)
    ensures
        match (form.tag_id, form.tag_name) {
            (Some(id), _) => r == Ok::<TagSource, RitmoErr>(TagSource::ById(id)),
            (None, Some(name)) => r matches Ok(TagSource::ByName { name: n, tag_type: t }) && n
                == name && t@ == (match form.tag_type {
                Some(t) => t@,
                None => "personal"@,
            }),
            (None, None) => r matches Err(e) && is_invalid(e, "tag_id or tag_name required"@),
        },
{
    match form.tag_id {
        Some(id) => Ok(TagSource::ById(id)),
        None => match &form.tag_name {
            Some(name) => {
                let tag_type = match &form.tag_type {
                    Some(t) => t.clone(),
                    None => {
                        let mut t = String::new();
                        t.append("personal");
                        t
                    },
                };
                Ok(TagSource::ByName { name: name.clone(), tag_type })
            },
            None => {
                let mut m = String::new();
                m.append("tag_id or tag_name required");
                Err(RitmoErr::InvalidInput(m))
            },
        },
    }
}

} // verus!
