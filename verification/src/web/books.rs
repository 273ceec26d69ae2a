//! The book form: reading it into a book, and the values it shows.

use vstd::prelude::*;
use crate::domain::Book;
use crate::errors::WebError;
use crate::text::trimmed;
use crate::web::forms::{
    copy_text, date_circa, date_day, date_month, date_outcome, date_parts, date_year,
    first_error, i64_outcome, is_invalid_input, parse_optional_i64, parse_partial_date,
    trim_to_option, trimmed_field,
};
use crate::widgets::place::option_view;

verus! {

/// The fields of a submitted book form, as typed.
#[derive(Debug, Clone, PartialEq, Eq)]
pub struct BookFormData {
    pub title: String,
    pub original_title: Option<String>,
    pub isbn: Option<String>,
    pub notes: Option<String>,
    pub series_index: Option<String>,
    pub publication_date_year: Option<String>,
    pub publication_date_month: Option<String>,
    pub publication_date_day: Option<String>,
    pub publication_date_circa: bool,
    pub has_cover: bool,
    pub has_paper: bool,
}

/// The values the book form shows.
#[derive(Debug, Clone, PartialEq, Eq)]
pub struct BookFormView {
    pub id: Option<i64>,
    pub title: String,
    pub original_title: Option<String>,
    pub isbn: Option<String>,
    pub notes: Option<String>,
    pub series_index: Option<i64>,
    pub publication_date_year: Option<i32>,
    pub publication_date_month: Option<u8>,
    pub publication_date_day: Option<u8>,
    pub publication_date_circa: bool,
    pub has_cover: bool,
    pub has_paper: bool,
}

impl BookFormData {
    /// The outcome of the form's date.
    pub open spec fn date(self) -> Result<Option<crate::domain::PartialDate>, Seq<char>> {
        date_outcome(
            self.publication_date_year,
            self.publication_date_month,
            self.publication_date_day,
            self.publication_date_circa,
        )
    }
}

/// `b` is the book the form describes: texts trimmed (blank ones missing),
/// the series index and the date read from their fields, the links given.
pub open spec fn is_book_of_form(
    b: Book,
    id: i64,
    form: BookFormData,
    publisher_id: Option<i64>,
    format_id: Option<i64>,
    series_id: Option<i64>,
) -> bool {
    &&& b.id == id
    &&& b.title@ == trimmed(form.title@)
    &&& option_view(b.original_title) == trimmed_field(form.original_title)
    &&& b.publisher_id == publisher_id
    &&& b.format_id == format_id
    &&& b.series_id == series_id
    &&& i64_outcome(form.series_index) == Ok::<Option<i64>, Seq<char>>(b.series_index)
    &&& option_view(b.isbn) == trimmed_field(form.isbn)
    &&& form.date() == Ok::<Option<crate::domain::PartialDate>, Seq<char>>(b.publication_year)
    &&& option_view(b.notes) == trimmed_field(form.notes)
    &&& b.has_cover == form.has_cover
    &&& b.has_paper == form.has_paper
}

/// The book the form describes (see `is_book_of_form`), or the error of
/// the first field that cannot be read: the series index, then the date.
pub fn parse_form_into_book(
    id: i64,
    form: &BookFormData,
    publisher_id: Option<i64>,
    format_id: Option<i64>,
    series_id: Option<i64>,
) -> (r: Result<Book, WebError>)
    ensures
        match r {
            Ok(b) => is_book_of_form(b, id, *form, publisher_id, format_id, series_id),
            Err(e) => is_invalid_input(e, first_error(i64_outcome(form.series_index), form.date())),
        },
{
    let series_index = match parse_optional_i64(copy_text(&form.series_index)) {
        Ok(v) => v,
        Err(e) => {
            return Err(e);
        },
    };
    let publication_year = match parse_partial_date(
        copy_text(&form.publication_date_year),
        copy_text(&form.publication_date_month),
        copy_text(&form.publication_date_day),
        form.publication_date_circa,
    ) {
        Ok(v) => v,
        Err(e) => {
            return Err(e);
        },
    };
    Ok(
        Book {
            id,
            title: crate::text::trim(form.title.as_str()),
            original_title: trim_to_option(copy_text(&form.original_title)),
            publisher_id,
            format_id,
            series_id,
            series_index,
            isbn: trim_to_option(copy_text(&form.isbn)),
            publication_year,
            notes: trim_to_option(copy_text(&form.notes)),
            has_cover: form.has_cover,
            has_paper: form.has_paper,
        },
    )
}

/// The values of a new, empty book form.
pub fn empty_form_view() -> (v: BookFormView)
    ensures
        v.id is None,
        v.title@.len() == 0,
        v.original_title is None && v.isbn is None && v.notes is None,
        v.series_index is None,
        v.publication_date_year is None && v.publication_date_month is None,
        v.publication_date_day is None && !v.publication_date_circa,
        !v.has_cover && !v.has_paper,
{
    BookFormView {
        id: None,
        title: String::new(),
        original_title: None,
        isbn: None,
        notes: None,
        series_index: None,
        publication_date_year: None,
        publication_date_month: None,
        publication_date_day: None,
        publication_date_circa: false,
        has_cover: false,
        has_paper: false,
    }
}

/// The values the form shows for a stored book.
pub fn view_from_book(book: &Book) -> (v: BookFormView)
    ensures
        v.id == Some(book.id),
        v.title == book.title,
        v.original_title == book.original_title,
        v.isbn == book.isbn,
        v.notes == book.notes,
        v.series_index == book.series_index,
        v.publication_date_year == date_year(book.publication_year),
        v.publication_date_month == date_month(book.publication_year),
        v.publication_date_day == date_day(book.publication_year),
        v.publication_date_circa == date_circa(book.publication_year),
        v.has_cover == book.has_cover,
        v.has_paper == book.has_paper,
{
    let (year, month, day, circa) = date_parts(book.publication_year);
    BookFormView {
        id: Some(book.id),
        title: book.title.clone(),
        original_title: copy_text(&book.original_title),
        isbn: copy_text(&book.isbn),
        notes: copy_text(&book.notes),
        series_index: book.series_index,
        publication_date_year: year,
        publication_date_month: month,
        publication_date_day: day,
        publication_date_circa: circa,
        has_cover: book.has_cover,
        has_paper: book.has_paper,
    }
}

/// The values the form shows again after a failed save: the title as
/// typed, other texts trimmed, the index and the date as read; or the
/// error of the first field that cannot be read: the date, then the
/// series index.
pub fn form_into_view(id: Option<i64>, form: &BookFormData) -> (r: Result<BookFormView, WebError>)
    ensures
        match r {
            Ok(v) => {
                &&& v.id == id
                &&& v.title == form.title
                &&& option_view(v.original_title) == trimmed_field(form.original_title)
                &&& option_view(v.isbn) == trimmed_field(form.isbn)
                &&& option_view(v.notes) == trimmed_field(form.notes)
                &&& i64_outcome(form.series_index) == Ok::<Option<i64>, Seq<char>>(v.series_index)
                &&& (match form.date() {
                    Ok(d) => v.publication_date_year == date_year(d) && v.publication_date_month
                        == date_month(d) && v.publication_date_day == date_day(d)
                        && v.publication_date_circa == date_circa(d),
                    Err(_) => false,
                })
                &&& v.has_cover == form.has_cover
                &&& v.has_paper == form.has_paper
            },
            Err(e) => is_invalid_input(e, first_error(form.date(), i64_outcome(form.series_index))),
        },
{
    let date = match parse_partial_date(
        copy_text(&form.publication_date_year),
        copy_text(&form.publication_date_month),
        copy_text(&form.publication_date_day),
        form.publication_date_circa,
    ) {
        Ok(v) => v,
        Err(e) => {
            return Err(e);
        },
    };
    let series_index = match parse_optional_i64(copy_text(&form.series_index)) {
        Ok(v) => v,
        Err(e) => {
            return Err(e);
        },
    };
    let (year, month, day, circa) = date_parts(date);
    Ok(
        BookFormView {
            id,
            title: form.title.clone(),
            original_title: trim_to_option(copy_text(&form.original_title)),
            isbn: trim_to_option(copy_text(&form.isbn)),
            notes: trim_to_option(copy_text(&form.notes)),
            series_index,
            publication_date_year: year,
            publication_date_month: month,
            publication_date_day: day,
            publication_date_circa: circa,
            has_cover: form.has_cover,
            has_paper: form.has_paper,
        },
    )
}

/// The fragment that replaces the rows of the books list.
pub fn list_update_oob(rows_html: &str) -> (r: String)
    ensures
        r@ == crate::web::forms::list_fragment("books-list"@, rows_html@),
{
    crate::web::forms::list_update_oob("books-list", rows_html)
}

} // verus!
