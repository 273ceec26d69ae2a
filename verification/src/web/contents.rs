//! The content form: reading it into a content, and the values it shows.

use vstd::prelude::*;
use crate::domain::{Content, PartialDate};
use crate::errors::WebError;
use crate::text::trimmed;
use crate::web::forms::{
    copy_text, date_circa, date_day, date_month, date_outcome, date_parts, date_year,
    error_of, is_invalid_input, parse_partial_date, trim_to_option, trimmed_field,
};
use crate::widgets::place::option_view;

verus! {

/// The fields of a submitted content form, as typed.
#[derive(Debug, Clone, PartialEq, Eq)]
pub struct ContentFormData {
    pub title: String,
    pub original_title: Option<String>,
    pub notes: Option<String>,
    pub publication_date_year: Option<String>,
    pub publication_date_month: Option<String>,
    pub publication_date_day: Option<String>,
    pub publication_date_circa: bool,
}

/// The values the content form shows.
#[derive(Debug, Clone, PartialEq, Eq)]
pub struct ContentFormView {
    pub id: Option<i64>,
    pub title: String,
    pub original_title: Option<String>,
    pub notes: Option<String>,
    pub publication_date_year: Option<i32>,
    pub publication_date_month: Option<u8>,
    pub publication_date_day: Option<u8>,
    pub publication_date_circa: bool,
}

impl ContentFormData {
    /// The outcome of the form's date.
    pub open spec fn date(self) -> Result<Option<PartialDate>, Seq<char>> {
        date_outcome(
            self.publication_date_year,
            self.publication_date_month,
            self.publication_date_day,
            self.publication_date_circa,
        )
    }
}

/// The content the form describes (texts trimmed, blank ones missing, the
/// date read from its fields, the type given), or the error of the date.
pub fn parse_form_into_content(id: i64, form: &ContentFormData, type_id: Option<i64>) -> (r:
    Result<Content, WebError>)
    ensures
        match r {
            Ok(c) => {
                &&& c.id == id
                &&& c.title@ == trimmed(form.title@)
                &&& option_view(c.original_title) == trimmed_field(form.original_title)
                &&& c.type_id == type_id
                &&& form.date() == Ok::<Option<PartialDate>, Seq<char>>(c.publication_year)
                &&& option_view(c.notes) == trimmed_field(form.notes)
            },
            Err(e) => is_invalid_input(e, error_of(form.date())),
        },
{
    let publication_year = match parse_partial_date(
        copy_text(&form.publication_date_year),
        copy_text(&form.publication_date_month),
        copy_text(&form.publication_date_day),
        form.publication_date_circa,
    ) {
        Ok(v) => v,
        Err(e) => {
            return Err(e);
        },
    };
    Ok(
        Content {
            id,
            title: crate::text::trim(form.title.as_str()),
            original_title: trim_to_option(copy_text(&form.original_title)),
            type_id,
            publication_year,
            notes: trim_to_option(copy_text(&form.notes)),
        },
    )
}

/// The values of a new, empty content form.
pub fn empty_form_view() -> (v: ContentFormView)
    ensures
        v.id is None,
        v.title@.len() == 0,
        v.original_title is None && v.notes is None,
        v.publication_date_year is None && v.publication_date_month is None,
        v.publication_date_day is None && !v.publication_date_circa,
{
    ContentFormView {
        id: None,
        title: String::new(),
        original_title: None,
        notes: None,
        publication_date_year: None,
        publication_date_month: None,
        publication_date_day: None,
        publication_date_circa: false,
    }
}

/// The values the form shows for a stored content.
pub fn view_from_content(content: &Content) -> (v: ContentFormView)
    ensures
        v.id == Some(content.id),
        v.title == content.title,
        v.original_title == content.original_title,
        v.notes == content.notes,
        v.publication_date_year == date_year(content.publication_year),
        v.publication_date_month == date_month(content.publication_year),
        v.publication_date_day == date_day(content.publication_year),
        v.publication_date_circa == date_circa(content.publication_year),
{
    let (year, month, day, circa) = date_parts(content.publication_year);
    ContentFormView {
        id: Some(content.id),
        title: content.title.clone(),
        original_title: copy_text(&content.original_title),
        notes: copy_text(&content.notes),
        publication_date_year: year,
        publication_date_month: month,
        publication_date_day: day,
        publication_date_circa: circa,
    }
}

/// The values the form shows again after a failed save: the title as
/// typed, other texts trimmed, the date as read; or the error of the date.
pub fn form_into_view(id: Option<i64>, form: &ContentFormData) -> (r: Result<
    ContentFormView,
    WebError,
>)
    ensures
        match r {
            Ok(v) => {
                &&& v.id == id
                &&& v.title == form.title
                &&& option_view(v.original_title) == trimmed_field(form.original_title)
                &&& option_view(v.notes) == trimmed_field(form.notes)
                &&& (match form.date() {
                    Ok(d) => v.publication_date_year == date_year(d) && v.publication_date_month
                        == date_month(d) && v.publication_date_day == date_day(d)
                        && v.publication_date_circa == date_circa(d),
                    Err(_) => false,
                })
            },
            Err(e) => is_invalid_input(e, error_of(form.date())),
        },
{
    let date = match parse_partial_date(
        copy_text(&form.publication_date_year),
        copy_text(&form.publication_date_month),
        copy_text(&form.publication_date_day),
        form.publication_date_circa,
    ) {
        Ok(v) => v,
        Err(e) => {
            return Err(e);
        },
    };
    let (year, month, day, circa) = date_parts(date);
    Ok(
        ContentFormView {
            id,
            title: form.title.clone(),
            original_title: trim_to_option(copy_text(&form.original_title)),
            notes: trim_to_option(copy_text(&form.notes)),
            publication_date_year: year,
            publication_date_month: month,
            publication_date_day: day,
            publication_date_circa: circa,
        },
    )
}

/// The fragment that replaces the rows of the contents list.
pub fn list_update_oob(rows_html: &str) -> (r: String)
    ensures
        r@ == crate::web::forms::list_fragment("contents-list"@, rows_html@),
{
    crate::web::forms::list_update_oob("contents-list", rows_html)
}

} // verus!
