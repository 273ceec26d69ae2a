//! The sample values of the widgets page.

use vstd::prelude::*;

verus! {

/// A sample date widget: the prefix of its fields, its label and its date.
#[derive(Debug, Clone, PartialEq, Eq)]
pub struct DateWidgetExample {
    pub prefix: String,
    pub label: String,
    pub year: Option<i32>,
    pub month: Option<u8>,
    pub day: Option<u8>,
    pub circa: bool,
}

fn text(s: &str) -> (r: String)
    ensures
        r@ == s@,
{
    let mut r = String::new();
    r.append(s);
    r
}

/// The sample dates: a full publication date (8 June 1984), an approximate
/// birth year (about 1903), and an empty death date.
pub fn date_widget_examples() -> (v: Vec<DateWidgetExample>)
    ensures
        v@.len() == 3,
        v@[0].prefix@ == "publication_date"@ && v@[0].label@ == "Data di pubblicazione"@,
        v@[0].year == Some(1984i32) && v@[0].month == Some(6u8) && v@[0].day == Some(8u8),
        !v@[0].circa,
        v@[1].prefix@ == "birth_date"@ && v@[1].label@ == "Data di nascita"@,
        v@[1].year == Some(1903i32) && v@[1].month is None && v@[1].day is None && v@[1].circa,
        v@[2].prefix@ == "death_date"@ && v@[2].label@ == "Data di morte"@,
        v@[2].year is None && v@[2].month is None && v@[2].day is None && !v@[2].circa,
{
    let mut v: Vec<DateWidgetExample> = Vec::new();
    v.push(
        DateWidgetExample {
            prefix: text("publication_date"),
            label: text("Data di pubblicazione"),
            year: Some(1984),
            month: Some(6),
            day: Some(8),
            circa: false,
        },
    );
    v.push(
        DateWidgetExample {
            prefix: text("birth_date"),
            label: text("Data di nascita"),
            year: Some(1903),
            month: None,
            day: None,
            circa: true,
        },
    );
    v.push(
        DateWidgetExample {
            prefix: text("death_date"),
            label: text("Data di morte"),
            year: None,
            month: None,
            day: None,
            circa: false,
        },
    );
    v
}

} // verus!
