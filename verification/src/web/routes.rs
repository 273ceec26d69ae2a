//! The kinds of record named in the web routes, read from their path
//! segments, and the errors for names that are not known.

use vstd::prelude::*;
use crate::errors::RitmoErr;
use crate::text::text_eq;

verus! {

/// The message for an unknown record kind in a route.
pub open spec fn unknown_entity(value: Seq<char>) -> Seq<char> {
    "unknown entity_type: "@ + value
}

/// `e` is the invalid-input error with the message `m`.
pub open spec fn is_invalid(e: RitmoErr, m: Seq<char>) -> bool {
    e matches RitmoErr::InvalidInput(msg) && msg@ == m
}

fn unknown_entity_error(value: &str) -> (e: RitmoErr)
    ensures
        is_invalid(e, unknown_entity(value@)),
{
    let mut m = String::new();
    m.append("unknown entity_type: ");
    m.append(value);
    RitmoErr::InvalidInput(m)
}

/// The records that languages, tags and people can be linked to.
#[derive(Debug, Clone, Copy, PartialEq, Eq, Structural)]
pub enum EntityKind {
    Books,
    Contents,
}

/// The kind named `value`: "books" or "contents".
pub open spec fn entity_kind_of(value: Seq<char>) -> Option<EntityKind> {
    if value == "books"@ {
        Some(EntityKind::Books)
    } else if value == "contents"@ {
        Some(EntityKind::Contents)
    } else {
        None
    }
}

/// The kind named `value`, or the unknown-kind error.
pub fn parse_entity_kind(value: &str) -> (r: Result<EntityKind, RitmoErr>)
    ensures
        match entity_kind_of(value@) {
            Some(k) => r == Ok::<EntityKind, RitmoErr>(k),
            None => r matches Err(e) && is_invalid(e, unknown_entity(value@)),
        },
{
    if text_eq(value, "books") {
        Ok(EntityKind::Books)
    } else if text_eq(value, "contents") {
        Ok(EntityKind::Contents)
    } else {
        Err(unknown_entity_error(value))
    }
}

/// Nothing where `entity_type` names books or contents, else the
/// unknown-kind error.
pub fn validate_entity_type(entity_type: &str) -> (r: Result<(), RitmoErr>)
    ensures
        match entity_kind_of(entity_type@) {
            Some(_) => r is Ok,
            None => r matches Err(e) && is_invalid(e, unknown_entity(entity_type@)),
        },
{
    match parse_entity_kind(entity_type) {
        Ok(_) => Ok(()),
        Err(e) => Err(e),
    }
}

/// The records that places can be linked to.
#[derive(Debug, Clone, Copy, PartialEq, Eq, Structural)]
pub enum EntityRoute {
    People,
    Publishers,
}

/// The owner of a linked place: a person or a publisher, by id.
#[derive(Debug, Clone, Copy, PartialEq, Eq, Structural)]
pub enum PlaceOwner {
    Person(i64),
    Publisher(i64),
}

/// The route named `value`: "people" or "publishers".
pub open spec fn entity_route_of(value: Seq<char>) -> Option<EntityRoute> {
    if value == "people"@ {
        Some(EntityRoute::People)
    } else if value == "publishers"@ {
        Some(EntityRoute::Publishers)
    } else {
        None
    }
}

impl EntityRoute {
    /// The route named `value`, or the unknown-kind error.
    pub fn parse(value: &str) -> (r: Result<EntityRoute, RitmoErr>)
        ensures
            match entity_route_of(value@) {
                Some(k) => r == Ok::<EntityRoute, RitmoErr>(k),
                None => r matches Err(e) && is_invalid(e, unknown_entity(value@)),
            },
    {
        if text_eq(value, "people") {
            Ok(EntityRoute::People)
        } else if text_eq(value, "publishers") {
            Ok(EntityRoute::Publishers)
        } else {
            Err(unknown_entity_error(value))
        }
    }

    /// The owner of the places of record `entity_id` on this route.
    pub fn owner(self, entity_id: i64) -> (o: PlaceOwner)
        ensures
            o == (match self {
                EntityRoute::People => PlaceOwner::Person(entity_id),
                EntityRoute::Publishers => PlaceOwner::Publisher(entity_id),
            }),
    {
        match self {
            EntityRoute::People => PlaceOwner::Person(entity_id),
            EntityRoute::Publishers => PlaceOwner::Publisher(entity_id),
        }
    }
}

/// The records that have single-value lookups.
#[derive(Debug, Clone, Copy, PartialEq, Eq, Structural)]
pub enum LookupEntityType {
    Books,
    Contents,
}

/// The single-value lookups: a book's publisher, series and format, and a
/// content's type.
#[derive(Debug, Clone, Copy, PartialEq, Eq, Structural)]
pub enum LookupKind {
    Publisher,
    Series,
    Format,
    Type,
}

/// The message for an unknown lookup in a route.
pub open spec fn unknown_lookup(value: Seq<char>) -> Seq<char> {
    "unknown lookup_kind: "@ + value
}

/// The name of a lookup in routes.
pub open spec fn lookup_name(kind: LookupKind) -> Seq<char> {
    match kind {
        LookupKind::Publisher => "publisher"@,
        LookupKind::Series => "series"@,
        LookupKind::Format => "format"@,
        LookupKind::Type => "type"@,
    }
}

/// The lookup named `value` (see `lookup_name`).
pub open spec fn lookup_kind_of(value: Seq<char>) -> Option<LookupKind> {
    if value == "publisher"@ {
        Some(LookupKind::Publisher)
    } else if value == "series"@ {
        Some(LookupKind::Series)
    } else if value == "format"@ {
        Some(LookupKind::Format)
    } else if value == "type"@ {
        Some(LookupKind::Type)
    } else {
        None
    }
}

impl LookupEntityType {
    /// The record kind named `value` ("books" or "contents"), or the
    /// unknown-kind error.
    pub fn parse(value: &str) -> (r: Result<LookupEntityType, RitmoErr>)
        ensures
            match entity_kind_of(value@) {
                Some(EntityKind::Books) => r == Ok::<LookupEntityType, RitmoErr>(
                    LookupEntityType::Books,
                ),
                Some(EntityKind::Contents) => r == Ok::<LookupEntityType, RitmoErr>(
                    LookupEntityType::Contents,
                ),
                None => r matches Err(e) && is_invalid(e, unknown_entity(value@)),
            },
    {
        match parse_entity_kind(value) {
            Ok(EntityKind::Books) => Ok(LookupEntityType::Books),
            Ok(EntityKind::Contents) => Ok(LookupEntityType::Contents),
            Err(e) => Err(e),
        }
    }
}

impl LookupKind {
    /// The lookup named `value` (see `lookup_kind_of`), or the
    /// unknown-lookup error.
    pub fn parse(value: &str) -> (r: Result<LookupKind, RitmoErr>)
        ensures
            match lookup_kind_of(value@) {
                Some(k) => r == Ok::<LookupKind, RitmoErr>(k),
                None => r matches Err(e) && is_invalid(e, unknown_lookup(value@)),
            },
    {
        if text_eq(value, "publisher") {
            Ok(LookupKind::Publisher)
        } else if text_eq(value, "series") {
            Ok(LookupKind::Series)
        } else if text_eq(value, "format") {
            Ok(LookupKind::Format)
        } else if text_eq(value, "type") {
            Ok(LookupKind::Type)
        } else {
            let mut m = String::new();
            m.append("unknown lookup_kind: ");
            m.append(value);
            Err(RitmoErr::InvalidInput(m))
        }
    }
}

/// Whether a record kind has a lookup: books have a publisher, a series
/// and a format; contents have a type.
pub open spec fn combination_ok(entity_type: LookupEntityType, kind: LookupKind) -> bool {
    match entity_type {
        LookupEntityType::Books => kind == LookupKind::Publisher || kind == LookupKind::Series
            || kind == LookupKind::Format,
        LookupEntityType::Contents => kind == LookupKind::Type,
    }
}

/// Nothing where the record kind has the lookup (see `combination_ok`),
/// else an invalid-input error.
pub fn validate_combination(entity_type: LookupEntityType, lookup_kind: LookupKind) -> (r: Result<
    (),
    RitmoErr,
>)
    ensures
        combination_ok(entity_type, lookup_kind) <==> r is Ok,
        r matches Err(e) ==> is_invalid(e, "invalid entity_type / lookup_kind combination"@),
{
    match (entity_type, lookup_kind) {
        (LookupEntityType::Books, LookupKind::Publisher)
        | (LookupEntityType::Books, LookupKind::Series)
        | (LookupEntityType::Books, LookupKind::Format)
        | (LookupEntityType::Contents, LookupKind::Type) => Ok(()),
        _ => {
            let mut m = String::new();
            m.append("invalid entity_type / lookup_kind combination");
            Err(RitmoErr::InvalidInput(m))
        },
    }
}

/// The name of a lookup in routes (see `lookup_name`).
pub fn lookup_kind_str(lookup_kind: LookupKind) -> (r: &'static str)
    ensures
        r@ == lookup_name(lookup_kind),
{
    match lookup_kind {
        LookupKind::Publisher => "publisher",
        LookupKind::Series => "series",
        LookupKind::Format => "format",
        LookupKind::Type => "type",
    }
}

/// The label of a lookup's field.
pub fn lookup_label(lookup_kind: LookupKind) -> (r: &'static str)
    ensures
        r@ == (match lookup_kind {
            LookupKind::Publisher => "Editore"@,
            LookupKind::Series => "Collana"@,
            LookupKind::Format => "Formato"@,
            LookupKind::Type => "Tipo"@,
        }),
{
    match lookup_kind {
        LookupKind::Publisher => "Editore",
        LookupKind::Series => "Collana",
        LookupKind::Format => "Formato",
        LookupKind::Type => "Tipo",
    }
}

/// The hint shown in a lookup's empty field.
pub fn lookup_placeholder(lookup_kind: LookupKind) -> (r: &'static str)
    ensures
        r@ == (match lookup_kind {
            LookupKind::Publisher => "Cerca o crea editore"@,
            LookupKind::Series => "Cerca o crea collana"@,
            LookupKind::Format => "Cerca o crea formato"@,
            LookupKind::Type => "Cerca o crea tipo"@,
        }),
{
    match lookup_kind {
        LookupKind::Publisher => "Cerca o crea editore",
        LookupKind::Series => "Cerca o crea collana",
        LookupKind::Format => "Cerca o crea formato",
        LookupKind::Type => "Cerca o crea tipo",
    }
}

} // verus!
