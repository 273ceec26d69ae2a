//! Reading the fields of submitted forms: trimmed optional texts, numbers
//! and partial dates, each with the message shown when it cannot be read;
//! and the fragments that replace parts of the page.

use vstd::prelude::*;
use crate::domain::{known_date, PartialDate};
use crate::errors::{RitmoErr, WebError};
use crate::numbers::{parse_i32, parse_i64, parse_u8, parsed_i32, parsed_i64, parsed_u8};
use crate::text::{trim_to_option_str, trimmed, trimmed_option};
use crate::widgets::place::option_view;

verus! {

/// The message for a value that cannot be read as `label`.
pub open spec fn invalid_value(label: Seq<char>, text: Seq<char>) -> Seq<char> {
    "Valore non valido per "@ + label + ": "@ + text
}

/// A field's trimmed text, or `None` where it is missing or blank.
pub open spec fn trimmed_field(value: Option<String>) -> Option<Seq<char>> {
    match value {
        Some(s) => trimmed_option(s@),
        None => None,
    }
}

/// An optional integer field: nothing where blank, else the integer or the
/// message naming "numero intero".
pub open spec fn i64_outcome(value: Option<String>) -> Result<Option<i64>, Seq<char>> {
    match trimmed_field(value) {
        None => Ok(None),
        Some(t) => match parsed_i64(t) {
            Some(v) => Ok(Some(v)),
            None => Err(invalid_value("numero intero"@, t)),
        },
    }
}

/// An optional year field (see `i64_outcome`; the label is "anno").
pub open spec fn i32_outcome(value: Option<String>) -> Result<Option<i32>, Seq<char>> {
    match trimmed_field(value) {
        None => Ok(None),
        Some(t) => match parsed_i32(t) {
            Some(v) => Ok(Some(v)),
            None => Err(invalid_value("anno"@, t)),
        },
    }
}

/// An optional month or day field (see `i64_outcome`; the label is
/// "numero").
pub open spec fn u8_outcome(value: Option<String>) -> Result<Option<u8>, Seq<char>> {
    match trimmed_field(value) {
        None => Ok(None),
        Some(t) => match parsed_u8(t) {
            Some(v) => Ok(Some(v)),
            None => Err(invalid_value("numero"@, t)),
        },
    }
}

/// A date from its fields: the first field that cannot be read (year, then
/// month, then day) gives the error; else the date, or nothing where no
/// part is known and it is not approximate.
pub open spec fn date_outcome(
    year: Option<String>,
    month: Option<String>,
    day: Option<String>,
    circa: bool,
) -> Result<Option<PartialDate>, Seq<char>> {
    match i32_outcome(year) {
        Err(e) => Err(e),
        Ok(y) => match u8_outcome(month) {
            Err(e) => Err(e),
            Ok(m) => match u8_outcome(day) {
                Err(e) => Err(e),
                Ok(d) => Ok(known_date(PartialDate { year: y, month: m, day: d, circa })),
            },
        },
    }
}

/// `r` answers the outcome `o`: the same value, or an invalid-input error
/// with its message.
pub open spec fn answers<T>(r: Result<T, WebError>, o: Result<T, Seq<char>>) -> bool {
    match o {
        Ok(v) => r == Ok::<T, WebError>(v),
        Err(m) => r matches Err(WebError(RitmoErr::InvalidInput(msg))) && msg@ == m,
    }
}

/// The error of the outcome `o`, if it is one.
pub open spec fn error_of<T>(o: Result<T, Seq<char>>) -> Option<Seq<char>> {
    match o {
        Ok(_) => None,
        Err(m) => Some(m),
    }
}

/// A field's trimmed text, or `None` where it is missing or blank.
pub fn trim_to_option(value: Option<String>) -> (r: Option<String>)
    ensures
        option_view(r) == trimmed_field(value),
{
    match value {
        Some(raw) => trim_to_option_str(raw.as_str()),
        None => None,
    }
}

fn invalid_value_error(label: &str, text: &str) -> (e: WebError)
    ensures
        e.0 matches RitmoErr::InvalidInput(m) && m@ == invalid_value(label@, text@),
{
    let mut m = String::new();
    m.append("Valore non valido per ");
    m.append(label);
    m.append(": ");
    m.append(text);
    proof {
        reveal_strlit("Valore non valido per ");
        reveal_strlit(": ");
    }
    WebError(RitmoErr::InvalidInput(m))
}

/// An optional integer field (see `i64_outcome`).
pub fn parse_optional_i64(value: Option<String>) -> (r: Result<Option<i64>, WebError>)
    ensures
        answers(r, i64_outcome(value)),
{
    match trim_to_option(value) {
        Some(text) => match parse_i64(text.as_str()) {
            Some(v) => Ok(Some(v)),
            None => Err(invalid_value_error("numero intero", text.as_str())),
        },
        None => Ok(None),
    }
}

/// An optional year field (see `i32_outcome`).
pub fn parse_optional_i32(value: Option<String>) -> (r: Result<Option<i32>, WebError>)
    ensures
        answers(r, i32_outcome(value)),
{
    match trim_to_option(value) {
        Some(text) => match parse_i32(text.as_str()) {
            Some(v) => Ok(Some(v)),
            None => Err(invalid_value_error("anno", text.as_str())),
        },
        None => Ok(None),
    }
}

/// An optional month or day field (see `u8_outcome`).
pub fn parse_optional_u8(value: Option<String>) -> (r: Result<Option<u8>, WebError>)
    ensures
        answers(r, u8_outcome(value)),
{
    match trim_to_option(value) {
        Some(text) => match parse_u8(text.as_str()) {
            Some(v) => Ok(Some(v)),
            None => Err(invalid_value_error("numero", text.as_str())),
        },
        None => Ok(None),
    }
}

/// A date from its fields (see `date_outcome`).
pub fn parse_partial_date(
    year: Option<String>,
    month: Option<String>,
    day: Option<String>,
    circa: bool,
) -> (r: Result<Option<PartialDate>, WebError>)
    ensures
        answers(r, date_outcome(year, month, day, circa)),
{
    let year = match parse_optional_i32(year) {
        Ok(v) => v,
        Err(e) => {
            return Err(e);
        },
    };
    let month = match parse_optional_u8(month) {
        Ok(v) => v,
        Err(e) => {
            return Err(e);
        },
    };
    let day = match parse_optional_u8(day) {
        Ok(v) => v,
        Err(e) => {
            return Err(e);
        },
    };
    if year.is_none() && month.is_none() && day.is_none() && !circa {
        Ok(None)
    } else {
        Ok(Some(PartialDate { year, month, day, circa }))
    }
}

/// The fragment that replaces the popup's content with `content`.
pub open spec fn popup_fragment(content: Seq<char>) -> Seq<char> {
    "<div id=\"popup-root\" hx-swap-oob=\"innerHTML\">"@ + content + "</div>"@
}

/// The fragment that replaces the popup's content (see `popup_fragment`).
pub fn popup_root_oob(content: &str) -> (r: String)
    ensures
        r@ == popup_fragment(content@),
{
    let mut r = String::new();
    r.append("<div id=\"popup-root\" hx-swap-oob=\"innerHTML\">");
    r.append(content);
    r.append("</div>");
    r
}

/// The fragment that replaces the rows of the list `list_id`.
pub open spec fn list_fragment(list_id: Seq<char>, rows: Seq<char>) -> Seq<char> {
    "<div id=\""@ + list_id + "\" hx-swap-oob=\"innerHTML\">"@ + rows + "</div>"@
}

/// The fragment that replaces a list's rows (see `list_fragment`).
pub fn list_update_oob(list_id: &str, rows_html: &str) -> (r: String)
    ensures
        r@ == list_fragment(list_id@, rows_html@),
{
    let mut r = String::new();
    r.append("<div id=\"");
    r.append(list_id);
    r.append("\" hx-swap-oob=\"innerHTML\">");
    r.append(rows_html);
    r.append("</div>");
    r
}

/// The text to search for: the query trimmed, or `None` where it is
/// missing or blank.
pub fn search_query(q: Option<String>) -> (r: Option<String>)
    ensures
        option_view(r) == trimmed_field(q),
{
    trim_to_option(q)
}

/// The query as typed, or `None` where it is missing or blank: some
/// searches run on the text as typed once it holds more than whitespace.
pub fn raw_search_query(q: Option<String>) -> (r: Option<String>)
    ensures
        option_view(r) == (match q {
            Some(s) => if trimmed(s@).len() == 0 {
                None
            } else {
                Some(s@)
            },
            None => None,
        }),
{
    match q {
        Some(s) => if crate::screens::form::is_blank_text(s.as_str()) {
            None
        } else {
            Some(s)
        },
        None => None,
    }
}


/// The first error among two outcomes, in their order.
pub open spec fn first_error<A, B>(a: Result<A, Seq<char>>, b: Result<B, Seq<char>>) -> Option<
    Seq<char>,
> {
    match error_of(a) {
        Some(m) => Some(m),
        None => error_of(b),
    }
}

/// `e` is the invalid-input error with the message `m`.
pub open spec fn is_invalid_input(e: WebError, m: Option<Seq<char>>) -> bool {
    e.0 matches RitmoErr::InvalidInput(msg) && m == Some(msg@)
}

/// The year of an optional date.
pub open spec fn date_year(d: Option<PartialDate>) -> Option<i32> {
    match d {
        Some(x) => x.year,
        None => None,
    }
}

/// The month of an optional date.
pub open spec fn date_month(d: Option<PartialDate>) -> Option<u8> {
    match d {
        Some(x) => x.month,
        None => None,
    }
}

/// The day of an optional date.
pub open spec fn date_day(d: Option<PartialDate>) -> Option<u8> {
    match d {
        Some(x) => x.day,
        None => None,
    }
}

/// Whether an optional date is marked approximate.
pub open spec fn date_circa(d: Option<PartialDate>) -> bool {
    match d {
        Some(x) => x.circa,
        None => false,
    }
}

/// The parts of an optional date, each missing where the date is.
pub fn date_parts(d: Option<PartialDate>) -> (r: (Option<i32>, Option<u8>, Option<u8>, bool))
    ensures
        r == (date_year(d), date_month(d), date_day(d), date_circa(d)),
{
    match d {
        Some(x) => (x.year, x.month, x.day, x.circa),
        None => (None, None, None, false),
    }
}

/// A copy of an optional text.
pub fn copy_text(o: &Option<String>) -> (r: Option<String>)
    ensures
        r == *o,
{
    match o {
        Some(s) => Some(s.clone()),
        None => None,
    }
}

} // verus!
