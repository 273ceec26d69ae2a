//! Search filters: sets of conditions on books and contents.

use vstd::prelude::*;
use crate::domain::PartialDate;
use crate::text::views;

verus! {

#[derive(Debug, Clone, Copy, PartialEq, Eq, Structural)]
pub enum LogicalOperator {
    And,
    Or,
}

#[derive(Debug, Clone, Copy, PartialEq, Eq, Structural)]
pub enum FilterOperator {
    Equals,
    Contains,
    Before,
    After,
    Between,
}

/// What a condition is about.
#[derive(Debug, Clone, Copy, PartialEq, Eq, Structural)]
pub enum FilterField {
    BookTitle,
    BookIsbn,
    BookFormat,
    BookSeries,
    BookPublisher,
    BookPublicationDate,
    BookTag,
    BookLanguage { role_id: Option<i64> },
    ContentTitle,
    ContentGenre,
    ContentPublicationDate,
    ContentTag,
    ContentLanguage { role_id: Option<i64> },
    PersonName,
    PersonRole { role_id: Option<i64> },
    PersonLanguage { role_id: Option<i64> },
    PersonPlace { place_type_id: Option<i64> },
    PersonBirthDate,
    PersonDeathDate,
}

/// A value a condition compares with.
#[derive(Debug, Clone, PartialEq, Eq)]
pub enum FilterValue {
    Text(String),
    Id(i64),
    Date(PartialDate),
    DateRange(PartialDate, PartialDate),
}

/// One condition: a field, how it is compared, and the values.
#[derive(Debug, Clone, PartialEq, Eq)]
pub struct Filter {
    pub field: FilterField,
    pub operator: FilterOperator,
    pub values: Vec<FilterValue>,
}

/// A named set of conditions joined by one logical operator; only active
/// sets take part in a search.
#[derive(Debug, Clone, PartialEq, Eq)]
pub struct FilterSet {
    pub id: i64,
    pub name: String,
    pub active: bool,
    pub operator: LogicalOperator,
    pub filters: Vec<Filter>,
}

/// The text values among `v`, in order.
pub open spec fn text_values(v: Seq<FilterValue>) -> Seq<Seq<char>>
    decreases v.len(),
{
    if v.len() == 0 {
        Seq::empty()
    } else {
        let r = text_values(v.drop_last());
        match v.last() {
            FilterValue::Text(t) => r.push(t@),
            _ => r,
        }
    }
}

/// The id values among `v`, in order.
pub open spec fn id_values(v: Seq<FilterValue>) -> Seq<i64>
    decreases v.len(),
{
    if v.len() == 0 {
        Seq::empty()
    } else {
        let r = id_values(v.drop_last());
        match v.last() {
            FilterValue::Id(i) => r.push(i),
            _ => r,
        }
    }
}

/// The first date value among `v`.
pub open spec fn first_date(v: Seq<FilterValue>) -> Option<PartialDate>
    decreases v.len(),
{
    if v.len() == 0 {
        None
    } else {
        match v[0] {
            FilterValue::Date(d) => Some(d),
            _ => first_date(v.drop_first()),
        }
    }
}

/// The first date range among `v`.
pub open spec fn first_range(v: Seq<FilterValue>) -> Option<(PartialDate, PartialDate)>
    decreases v.len(),
{
    if v.len() == 0 {
        None
    } else {
        match v[0] {
            FilterValue::DateRange(s, e) => Some((s, e)),
            _ => first_range(v.drop_first()),
        }
    }
}

/// A date as the number `year * 10000 + month * 100 + day`, missing parts 0.
pub open spec fn sortable(d: PartialDate) -> int {
    let year = match d.year {
        Some(y) => y as int,
        None => 0,
    };
    let month = match d.month {
        Some(m) => m as int,
        None => 0,
    };
    let day = match d.day {
        Some(x) => x as int,
        None => 0,
    };
    year * 10000 + month * 100 + day
}

/// Whether `sortable(d)` can be computed in `i32` arithmetic: the year part
/// is no less than `i32::MIN` and the whole no more than `i32::MAX`.
pub open spec fn sortable_fits(d: PartialDate) -> bool {
    let year = match d.year {
        Some(y) => y as int,
        None => 0,
    };
    i32::MIN <= year * 10000 && sortable(d) <= i32::MAX
}

/// The text values of `values`.
pub fn filter_text_values(values: &Vec<FilterValue>) -> (r: Vec<String>)
    ensures
        views(r@) == text_values(values@),
{
    let mut r: Vec<String> = Vec::new();
    let mut i: usize = 0;
    while i < values.len()
        invariant
            i <= values@.len(),
            views(r@) == text_values(values@.take(i as int)),
        decreases values@.len() - i,
    {
        proof {
            assert(values@.take(i + 1).drop_last() =~= values@.take(i as int));
            assert(values@.take(i + 1).last() == values@[i as int]);
        }
        match &values[i] {
            FilterValue::Text(t) => {
                r.push(t.clone());
                assert(views(r@) =~= text_values(values@.take(i + 1)));
            },
            _ => {},
        }
        i = i + 1;
    }
    assert(values@.take(values@.len() as int) =~= values@);
    r
}

/// The id values of `values`.
pub fn filter_id_values(values: &Vec<FilterValue>) -> (r: Vec<i64>)
    ensures
        r@ == id_values(values@),
{
    let mut r: Vec<i64> = Vec::new();
    let mut i: usize = 0;
    while i < values.len()
        invariant
            i <= values@.len(),
            r@ == id_values(values@.take(i as int)),
        decreases values@.len() - i,
    {
        proof {
            assert(values@.take(i + 1).drop_last() =~= values@.take(i as int));
            assert(values@.take(i + 1).last() == values@[i as int]);
        }
        match &values[i] {
            FilterValue::Id(id) => {
                r.push(*id);
            },
            _ => {},
        }
        i = i + 1;
    }
    assert(values@.take(values@.len() as int) =~= values@);
    r
}

/// The first date value of `values`.
pub fn first_date_value(values: &Vec<FilterValue>) -> (r: Option<PartialDate>)
    ensures
        r == first_date(values@),
{
    let mut i: usize = 0;
    assert(values@.skip(0) =~= values@);
    while i < values.len()
        invariant
            i <= values@.len(),
            first_date(values@) == first_date(values@.skip(i as int)),
        decreases values@.len() - i,
    {
        proof {
            assert(values@.skip(i as int).drop_first() =~= values@.skip(i + 1));
            assert(values@.skip(i as int)[0] == values@[i as int]);
        }
        match &values[i] {
            FilterValue::Date(d) => {
                return Some(*d);
            },
            _ => {},
        }
        i = i + 1;
    }
    None
}

/// The first date range of `values`.
pub fn first_date_range_value(values: &Vec<FilterValue>) -> (r: Option<(PartialDate, PartialDate)>)
    ensures
        r == first_range(values@),
{
    let mut i: usize = 0;
    assert(values@.skip(0) =~= values@);
    while i < values.len()
        invariant
            i <= values@.len(),
            first_range(values@) == first_range(values@.skip(i as int)),
        decreases values@.len() - i,
    {
        proof {
            assert(values@.skip(i as int).drop_first() =~= values@.skip(i + 1));
            assert(values@.skip(i as int)[0] == values@[i as int]);
        }
        match &values[i] {
            FilterValue::DateRange(s, e) => {
                return Some((*s, *e));
            },
            _ => {},
        }
        i = i + 1;
    }
    None
}

/// `sortable(date)`.
pub fn partial_date_to_sortable(date: PartialDate) -> (r: i32)
    requires
        sortable_fits(date),
    ensures
        r as int == sortable(date),
{
    let year: i64 = match date.year {
        Some(y) => y as i64,
        None => 0,
    };
    let month: i64 = match date.month {
        Some(m) => m as i64,
        None => 0,
    };
    let day: i64 = match date.day {
        Some(d) => d as i64,
        None => 0,
    };
    (year * 10000 + month * 100 + day) as i32
}

} // verus!
