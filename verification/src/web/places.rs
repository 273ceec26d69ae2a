//! The places widget: its queries and forms, the place a form describes,
//! what an update or a creation asks to link, and finding the linked row.

use vstd::prelude::*;
use crate::domain::Place;
use crate::errors::RitmoErr;
use crate::text::text_eq;
use crate::web::forms::copy_text;
use crate::web::routes::is_invalid;

verus! {

/// The query that opens the search panel for a record.
#[derive(Debug, Clone, PartialEq, Eq)]
pub struct PlacePanelQuery {
    pub entity_type: String,
    pub entity_id: i64,
}

/// The query of a place search.
#[derive(Debug, Clone, PartialEq, Eq)]
pub struct PlaceSearchQuery {
    pub q: Option<String>,
    pub entity_type: String,
    pub entity_id: i64,
}

/// The query that opens a linked place for editing.
#[derive(Debug, Clone, PartialEq, Eq)]
pub struct PlaceEditQuery {
    pub entity_type: String,
    pub entity_id: i64,
    pub place_type_key: String,
}

/// The form that links an existing place.
#[derive(Debug, Clone, PartialEq, Eq)]
pub struct LinkPlaceForm {
    pub place_id: i64,
    pub place_type_key: String,
}

/// The form that creates or changes a place, and may name the record it is
/// linked to and how.
#[derive(Debug, Clone, PartialEq, Eq)]
pub struct UpsertPlaceForm {
    pub continent: Option<String>,
    pub country: Option<String>,
    pub city: Option<String>,
    pub circa: bool,
    pub disputed: bool,
    pub entity_type: Option<String>,
    pub entity_id: Option<i64>,
    pub place_type_key: Option<String>,
    pub current_place_type_key: Option<String>,
}

/// A place linked to a record, with the kind of link.
#[derive(Debug, Clone, PartialEq, Eq)]
pub struct LinkedPlace {
    pub place_id: i64,
    pub continent: Option<String>,
    pub country: Option<String>,
    pub city: Option<String>,
    pub circa: bool,
    pub disputed: bool,
    pub place_type_key: String,
}

/// The place the form describes, as given (texts are not trimmed).
pub fn place_from_form(id: i64, form: &UpsertPlaceForm) -> (p: Place)
    ensures
        p == (Place {
            id,
            continent: form.continent,
            country: form.country,
            city: form.city,
            circa: form.circa,
            disputed: form.disputed,
        }),
{
    Place {
        id,
        continent: copy_text(&form.continent),
        country: copy_text(&form.country),
        city: copy_text(&form.city),
        circa: form.circa,
        disputed: form.disputed,
    }
}

/// An update's new link: the record, the new kind of link and the kind it
/// replaces.
#[derive(Debug, Clone, PartialEq, Eq)]
pub struct PlaceRelink {
    pub entity_type: String,
    pub entity_id: i64,
    pub place_type_key: String,
    pub current_place_type_key: String,
}

fn missing(what: &str) -> (e: RitmoErr)
    ensures
        is_invalid(e, "missing "@ + what@),
{
    let mut m = String::new();
    m.append("missing ");
    m.append(what);
    RitmoErr::InvalidInput(m)
}

/// What an update asks to relink: the record kind, the record and the new
/// kind of link are required, in that order (an error names the first one
/// missing); the kind replaced is the one given, else the new one.
pub fn relink_request(form: &UpsertPlaceForm) -> (r: Result<PlaceRelink, RitmoErr>)
    ensures
        match (form.entity_type, form.entity_id, form.place_type_key) {
            (Some(t), Some(id), Some(key)) => r == Ok::<PlaceRelink, RitmoErr>(
                PlaceRelink {
                    entity_type: t,
                    entity_id: id,
                    place_type_key: key,
                    current_place_type_key: match form.current_place_type_key {
                        Some(c) => c,
                        None => key,
                    },
                },
            ),
            (None, _, _) => r matches Err(e) && is_invalid(e, "missing entity_type"@),
            (Some(_), None, _) => r matches Err(e) && is_invalid(e, "missing entity_id"@),
            (Some(_), Some(_), None) => r matches Err(e) && is_invalid(
                e,
                "missing place_type_key"@,
            ),
        },
{
    let entity_type = match &form.entity_type {
        Some(t) => t.clone(),
        None => {
            proof {
                reveal_strlit("missing ");
                reveal_strlit("entity_type");
                reveal_strlit("missing entity_type");
                assert("missing "@ + "entity_type"@ =~= "missing entity_type"@);
            }
            return Err(missing("entity_type"));
        },
    };
    let entity_id = match form.entity_id {
        Some(id) => id,
        None => {
            proof {
                reveal_strlit("missing ");
                reveal_strlit("entity_id");
                reveal_strlit("missing entity_id");
                assert("missing "@ + "entity_id"@ =~= "missing entity_id"@);
            }
            return Err(missing("entity_id"));
        },
    };
    let place_type_key = match &form.place_type_key {
        Some(k) => k.clone(),
        None => {
            proof {
                reveal_strlit("missing ");
                reveal_strlit("place_type_key");
                reveal_strlit("missing place_type_key");
                assert("missing "@ + "place_type_key"@ =~= "missing place_type_key"@);
            }
            return Err(missing("place_type_key"));
        },
    };
    let current_place_type_key = match &form.current_place_type_key {
        Some(c) => c.clone(),
        None => place_type_key.clone(),
    };
    Ok(PlaceRelink { entity_type, entity_id, place_type_key, current_place_type_key })
}

/// The link a creation asks for: the record kind, the record and the kind
/// of link, where all three are given.
pub fn link_request(form: &UpsertPlaceForm) -> (r: Option<(String, i64, String)>)
    ensures
        r == (match (form.entity_type, form.entity_id, form.place_type_key) {
            (Some(t), Some(id), Some(key)) => Some((t, id, key)),
            _ => None,
        }),
{
    match (&form.entity_type, form.entity_id, &form.place_type_key) {
        (Some(t), Some(id), Some(key)) => Some((t.clone(), id, key.clone())),
        _ => None,
    }
}

/// Whether `row` links place `place_id` as `key`.
pub open spec fn is_link_of(row: LinkedPlace, place_id: i64, key: Seq<char>) -> bool {
    row.place_id == place_id && row.place_type_key@ == key
}

/// The first row that links place `place_id` as `key`, or the not-found
/// error.
pub fn find_linked_place(rows: &Vec<LinkedPlace>, place_id: i64, key: &str) -> (r: Result<
    LinkedPlace,
    RitmoErr,
>)
    ensures
        match r {
            Ok(row) => exists|i: int|
                0 <= i < rows@.len() && #[trigger] rows@[i] == row && is_link_of(row, place_id, key@)
                    && forall|j: int| 0 <= j < i ==> !is_link_of(#[trigger] rows@[j], place_id, key@),
            Err(e) => e == RitmoErr::RecordNotFound && forall|j: int|
                0 <= j < rows@.len() ==> !is_link_of(#[trigger] rows@[j], place_id, key@),
        },
{
    let mut i: usize = 0;
    while i < rows.len()
        invariant
            i <= rows@.len(),
            forall|j: int| 0 <= j < i ==> !is_link_of(#[trigger] rows@[j], place_id, key@),
        decreases rows@.len() - i,
    {
        if rows[i].place_id == place_id && text_eq(rows[i].place_type_key.as_str(), key) {
            let found = &rows[i];
            let row = LinkedPlace {
                place_id: found.place_id,
                continent: copy_text(&found.continent),
                country: copy_text(&found.country),
                city: copy_text(&found.city),
                circa: found.circa,
                disputed: found.disputed,
                place_type_key: found.place_type_key.clone(),
            };
            proof {
                assert(rows@[i as int] == row);
            }
            return Ok(row);
        }
        i = i + 1;
    }
    Err(RitmoErr::RecordNotFound)
}

} // verus!
