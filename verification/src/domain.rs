//! The catalogue's records, as the screens, forms and queries use them.

use vstd::prelude::*;

verus! {

/// A date known in part: any of year, month and day may be missing, and it
/// may be approximate.
#[derive(Debug, Clone, Copy, PartialEq, Eq, Structural)]
pub struct PartialDate {
    pub year: Option<i32>,
    pub month: Option<u8>,
    pub day: Option<u8>,
    pub circa: bool,
}

impl PartialDate {
    /// A date with no part known and not approximate: it stands for no date.
    pub open spec fn is_unknown(self) -> bool {
        self.year is None && self.month is None && self.day is None && !self.circa
    }
}

/// The date, or `None` where no part of it is known and it is not approximate.
pub open spec fn known_date(date: PartialDate) -> Option<PartialDate> {
    if date.is_unknown() {
        None
    } else {
        Some(date)
    }
}

/// `known_date`.
pub fn date_to_opt(date: PartialDate) -> (r: Option<PartialDate>)
    ensures
        r == known_date(date),
{
    if date.year.is_none() && date.month.is_none() && date.day.is_none() && !date.circa {
        None
    } else {
        Some(date)
    }
}

/// A place: continent, country and city, each optional.
#[derive(Debug, Clone, PartialEq, Eq)]
pub struct Place {
    pub id: i64,
    pub continent: Option<String>,
    pub country: Option<String>,
    pub city: Option<String>,
    pub circa: bool,
    pub disputed: bool,
}

#[derive(Debug, Clone, PartialEq, Eq)]
pub struct Person {
    pub id: i64,
    pub name: String,
    pub display_name: Option<String>,
    pub given_name: Option<String>,
    pub surname: Option<String>,
    pub middle_names: Option<String>,
    pub title: Option<String>,
    pub suffix: Option<String>,
    pub birth_date: Option<PartialDate>,
    pub death_date: Option<PartialDate>,
    pub biography: Option<String>,
    pub verified: bool,
}

#[derive(Debug, Clone, PartialEq, Eq)]
pub struct Content {
    pub id: i64,
    pub title: String,
    pub original_title: Option<String>,
    pub type_id: Option<i64>,
    pub publication_year: Option<PartialDate>,
    pub notes: Option<String>,
}

#[derive(Debug, Clone, PartialEq, Eq)]
pub struct Book {
    pub id: i64,
    pub title: String,
    pub original_title: Option<String>,
    pub publisher_id: Option<i64>,
    pub format_id: Option<i64>,
    pub series_id: Option<i64>,
    pub series_index: Option<i64>,
    pub isbn: Option<String>,
    pub publication_year: Option<PartialDate>,
    pub notes: Option<String>,
    pub has_cover: bool,
    pub has_paper: bool,
}


impl Default for Content {
    /// A new content: id 0, no title, nothing else known.
    fn default() -> (c: Content)
        ensures
            c.id == 0 && c.title@.len() == 0 && c.original_title is None && c.type_id is None,
            c.publication_year is None && c.notes is None,
    {
        Content {
            id: 0,
            title: String::new(),
            original_title: None,
            type_id: None,
            publication_year: None,
            notes: None,
        }
    }
}

impl Default for Book {
    /// A new book: id 0, no title, nothing else known, no cover or paper.
    fn default() -> (b: Book)
        ensures
            b.id == 0 && b.title@.len() == 0 && b.original_title is None,
            b.publisher_id is None && b.format_id is None && b.series_id is None,
            b.series_index is None && b.isbn is None && b.publication_year is None,
            b.notes is None && !b.has_cover && !b.has_paper,
    {
        Book {
            id: 0,
            title: String::new(),
            original_title: None,
            publisher_id: None,
            format_id: None,
            series_id: None,
            series_index: None,
            isbn: None,
            publication_year: None,
            notes: None,
            has_cover: false,
            has_paper: false,
        }
    }
}

} // verus!
