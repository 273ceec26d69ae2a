//! The person form: reading it into a person, and the values it shows.

use vstd::prelude::*;
use crate::domain::{PartialDate, Person};
use crate::errors::WebError;
use crate::text::trimmed;
use crate::web::forms::{
    copy_text, date_circa, date_day, date_month, date_outcome, date_parts, date_year,
    first_error, is_invalid_input, parse_partial_date, trim_to_option, trimmed_field,
};
use crate::widgets::place::option_view;

verus! {

/// The fields of a submitted person form, as typed.
#[derive(Debug, Clone, PartialEq, Eq)]
pub struct PersonFormData {
    pub name: String,
    pub display_name: Option<String>,
    pub given_name: Option<String>,
    pub surname: Option<String>,
    pub middle_names: Option<String>,
    pub title: Option<String>,
    pub suffix: Option<String>,
    pub biography: Option<String>,
    pub birth_date_year: Option<String>,
    pub birth_date_month: Option<String>,
    pub birth_date_day: Option<String>,
    pub birth_date_circa: bool,
    pub death_date_year: Option<String>,
    pub death_date_month: Option<String>,
    pub death_date_day: Option<String>,
    pub death_date_circa: bool,
}

/// The values the person form shows.
#[derive(Debug, Clone, PartialEq, Eq)]
pub struct PersonFormView {
    pub id: Option<i64>,
    pub name: String,
    pub display_name: Option<String>,
    pub given_name: Option<String>,
    pub surname: Option<String>,
    pub middle_names: Option<String>,
    pub title: Option<String>,
    pub suffix: Option<String>,
    pub biography: Option<String>,
    pub birth_date_year: Option<i32>,
    pub birth_date_month: Option<u8>,
    pub birth_date_day: Option<u8>,
    pub birth_date_circa: bool,
    pub death_date_year: Option<i32>,
    pub death_date_month: Option<u8>,
    pub death_date_day: Option<u8>,
    pub death_date_circa: bool,
}

impl PersonFormData {
    /// The outcome of the birth date.
    pub open spec fn birth(self) -> Result<Option<PartialDate>, Seq<char>> {
        date_outcome(
            self.birth_date_year,
            self.birth_date_month,
            self.birth_date_day,
            self.birth_date_circa,
        )
    }

    /// The outcome of the death date.
    pub open spec fn death(self) -> Result<Option<PartialDate>, Seq<char>> {
        date_outcome(
            self.death_date_year,
            self.death_date_month,
            self.death_date_day,
            self.death_date_circa,
        )
    }

    /// The optional texts trimmed, blank ones missing.
    pub open spec fn texts_of(self, display_name: Option<String>, given_name: Option<String>,
        surname: Option<String>, middle_names: Option<String>, title: Option<String>,
        suffix: Option<String>, biography: Option<String>) -> bool {
        &&& option_view(display_name) == trimmed_field(self.display_name)
        &&& option_view(given_name) == trimmed_field(self.given_name)
        &&& option_view(surname) == trimmed_field(self.surname)
        &&& option_view(middle_names) == trimmed_field(self.middle_names)
        &&& option_view(title) == trimmed_field(self.title)
        &&& option_view(suffix) == trimmed_field(self.suffix)
        &&& option_view(biography) == trimmed_field(self.biography)
    }
}

/// The person the form describes (a new one is not verified), or the error
/// of the first date that cannot be read: birth, then death.
pub fn parse_form_into_person(id: i64, form: &PersonFormData) -> (r: Result<Person, WebError>)
    ensures
        match r {
            Ok(p) => {
                &&& p.id == id
                &&& p.name@ == trimmed(form.name@)
                &&& form.texts_of(
                    p.display_name,
                    p.given_name,
                    p.surname,
                    p.middle_names,
                    p.title,
                    p.suffix,
                    p.biography,
                )
                &&& form.birth() == Ok::<Option<PartialDate>, Seq<char>>(p.birth_date)
                &&& form.death() == Ok::<Option<PartialDate>, Seq<char>>(p.death_date)
                &&& !p.verified
            },
            Err(e) => is_invalid_input(e, first_error(form.birth(), form.death())),
        },
{
    let birth_date = match parse_partial_date(
        copy_text(&form.birth_date_year),
        copy_text(&form.birth_date_month),
        copy_text(&form.birth_date_day),
        form.birth_date_circa,
    ) {
        Ok(v) => v,
        Err(e) => {
            return Err(e);
        },
    };
    let death_date = match parse_partial_date(
        copy_text(&form.death_date_year),
        copy_text(&form.death_date_month),
        copy_text(&form.death_date_day),
        form.death_date_circa,
    ) {
        Ok(v) => v,
        Err(e) => {
            return Err(e);
        },
    };
    Ok(
        Person {
            id,
            name: crate::text::trim(form.name.as_str()),
            display_name: trim_to_option(copy_text(&form.display_name)),
            given_name: trim_to_option(copy_text(&form.given_name)),
            surname: trim_to_option(copy_text(&form.surname)),
            middle_names: trim_to_option(copy_text(&form.middle_names)),
            title: trim_to_option(copy_text(&form.title)),
            suffix: trim_to_option(copy_text(&form.suffix)),
            birth_date,
            death_date,
            biography: trim_to_option(copy_text(&form.biography)),
            verified: false,
        },
    )
}

/// The values of a new, empty person form.
pub fn empty_form_view() -> (v: PersonFormView)
    ensures
        v.id is None,
        v.name@.len() == 0,
        v.display_name is None && v.given_name is None && v.surname is None,
        v.middle_names is None && v.title is None && v.suffix is None && v.biography is None,
        v.birth_date_year is None && v.birth_date_month is None && v.birth_date_day is None,
        !v.birth_date_circa,
        v.death_date_year is None && v.death_date_month is None && v.death_date_day is None,
        !v.death_date_circa,
{
    PersonFormView {
        id: None,
        name: String::new(),
        display_name: None,
        given_name: None,
        surname: None,
        middle_names: None,
        title: None,
        suffix: None,
        biography: None,
        birth_date_year: None,
        birth_date_month: None,
        birth_date_day: None,
        birth_date_circa: false,
        death_date_year: None,
        death_date_month: None,
        death_date_day: None,
        death_date_circa: false,
    }
}

/// The values the form shows for a stored person.
pub fn view_from_person(person: &Person) -> (v: PersonFormView)
    ensures
        v.id == Some(person.id),
        v.name == person.name,
        v.display_name == person.display_name,
        v.given_name == person.given_name,
        v.surname == person.surname,
        v.middle_names == person.middle_names,
        v.title == person.title,
        v.suffix == person.suffix,
        v.biography == person.biography,
        v.birth_date_year == date_year(person.birth_date),
        v.birth_date_month == date_month(person.birth_date),
        v.birth_date_day == date_day(person.birth_date),
        v.birth_date_circa == date_circa(person.birth_date),
        v.death_date_year == date_year(person.death_date),
        v.death_date_month == date_month(person.death_date),
        v.death_date_day == date_day(person.death_date),
        v.death_date_circa == date_circa(person.death_date),
{
    let (by, bm, bd, bc) = date_parts(person.birth_date);
    let (dy, dm, dd, dc) = date_parts(person.death_date);
    PersonFormView {
        id: Some(person.id),
        name: person.name.clone(),
        display_name: copy_text(&person.display_name),
        given_name: copy_text(&person.given_name),
        surname: copy_text(&person.surname),
        middle_names: copy_text(&person.middle_names),
        title: copy_text(&person.title),
        suffix: copy_text(&person.suffix),
        biography: copy_text(&person.biography),
        birth_date_year: by,
        birth_date_month: bm,
        birth_date_day: bd,
        birth_date_circa: bc,
        death_date_year: dy,
        death_date_month: dm,
        death_date_day: dd,
        death_date_circa: dc,
    }
}

/// The values the form shows again after a failed save: the name as typed,
/// other texts trimmed, the dates as read; or the error of the first date
/// that cannot be read.
pub fn form_into_view(id: Option<i64>, form: &PersonFormData) -> (r: Result<
    PersonFormView,
    WebError,
>)
    ensures
        match r {
            Ok(v) => {
                &&& v.id == id
                &&& v.name == form.name
                &&& form.texts_of(
                    v.display_name,
                    v.given_name,
                    v.surname,
                    v.middle_names,
                    v.title,
                    v.suffix,
                    v.biography,
                )
                &&& (match form.birth() {
                    Ok(d) => v.birth_date_year == date_year(d) && v.birth_date_month == date_month(
                        d,
                    ) && v.birth_date_day == date_day(d) && v.birth_date_circa == date_circa(d),
                    Err(_) => false,
                })
                &&& (match form.death() {
                    Ok(d) => v.death_date_year == date_year(d) && v.death_date_month == date_month(
                        d,
                    ) && v.death_date_day == date_day(d) && v.death_date_circa == date_circa(d),
                    Err(_) => false,
                })
            },
            Err(e) => is_invalid_input(e, first_error(form.birth(), form.death())),
        },
{
    let birth_date = match parse_partial_date(
        copy_text(&form.birth_date_year),
        copy_text(&form.birth_date_month),
        copy_text(&form.birth_date_day),
        form.birth_date_circa,
    ) {
        Ok(v) => v,
        Err(e) => {
            return Err(e);
        },
    };
    let death_date = match parse_partial_date(
        copy_text(&form.death_date_year),
        copy_text(&form.death_date_month),
        copy_text(&form.death_date_day),
        form.death_date_circa,
    ) {
        Ok(v) => v,
        Err(e) => {
            return Err(e);
        },
    };
    let (by, bm, bd, bc) = date_parts(birth_date);
    let (dy, dm, dd, dc) = date_parts(death_date);
    Ok(
        PersonFormView {
            id,
            name: form.name.clone(),
            display_name: trim_to_option(copy_text(&form.display_name)),
            given_name: trim_to_option(copy_text(&form.given_name)),
            surname: trim_to_option(copy_text(&form.surname)),
            middle_names: trim_to_option(copy_text(&form.middle_names)),
            title: trim_to_option(copy_text(&form.title)),
            suffix: trim_to_option(copy_text(&form.suffix)),
            biography: trim_to_option(copy_text(&form.biography)),
            birth_date_year: by,
            birth_date_month: bm,
            birth_date_day: bd,
            birth_date_circa: bc,
            death_date_year: dy,
            death_date_month: dm,
            death_date_day: dd,
            death_date_circa: dc,
        },
    )
}

/// The fragment that replaces the rows of the people list.
pub fn list_update_oob(rows_html: &str) -> (r: String)
    ensures
        r@ == crate::web::forms::list_fragment("people-list"@, rows_html@),
{
    crate::web::forms::list_update_oob("people-list", rows_html)
}

} // verus!
