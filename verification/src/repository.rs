//! How records are stored: dates in columns, operators as words, authors
//! in one joined column, and the rows of a publisher with its places.

use vstd::prelude::*;
use crate::domain::{known_date, PartialDate, Place};
use crate::errors::RitmoErr;
use crate::search::filter::LogicalOperator;
use crate::text::{chars_of, string_of_range};

verus! {

/// A stored month or day: the value where it fits in a `u8`.
pub open spec fn small_part(v: Option<i64>) -> Option<u8> {
    match v {
        Some(x) => if 0 <= x <= 255 {
            Some(x as u8)
        } else {
            None
        },
        None => None,
    }
}

/// The date stored in the columns year, month, day and circa: none where
/// all parts are missing and circa is 0; months and days out of the range
/// of `u8` are dropped; any circa other than 0 marks the date approximate.
pub open spec fn date_from_parts(
    year: Option<i32>,
    month: Option<i64>,
    day: Option<i64>,
    circa: i64,
) -> Option<PartialDate> {
    if year is None && month is None && day is None && circa == 0 {
        None
    } else {
        Some(
            PartialDate {
                year,
                month: small_part(month),
                day: small_part(day),
                circa: circa != 0,
            },
        )
    }
}

/// The date stored in its columns (see `date_from_parts`).
pub fn partial_date_from_parts(
    year: Option<i32>,
    month: Option<i64>,
    day: Option<i64>,
    circa: i64,
) -> (d: Option<PartialDate>)
    ensures
        d == date_from_parts(year, month, day, circa),
{
    if year.is_none() && month.is_none() && day.is_none() && circa == 0 {
        return None;
    }
    let month = match month {
        Some(v) => if 0 <= v && v <= 255 {
            Some(v as u8)
        } else {
            None
        },
        None => None,
    };
    let day = match day {
        Some(v) => if 0 <= v && v <= 255 {
            Some(v as u8)
        } else {
            None
        },
        None => None,
    };
    Some(PartialDate { year, month, day, circa: circa != 0 })
}

/// The columns a date is stored in: its parts, and circa as 1 or 0; all
/// missing and 0 where there is no date.
pub open spec fn date_to_parts(date: Option<PartialDate>) -> (
    Option<i32>,
    Option<i64>,
    Option<i64>,
    i64,
) {
    match date {
        Some(d) => (
            d.year,
            match d.month {
                Some(m) => Some(m as i64),
                None => None,
            },
            match d.day {
                Some(x) => Some(x as i64),
                None => None,
            },
            if d.circa {
                1
            } else {
                0
            },
        ),
        None => (None, None, None, 0),
    }
}

/// The columns a date is stored in (see `date_to_parts`).
pub fn partial_date_to_parts(date: &Option<PartialDate>) -> (r: (
    Option<i32>,
    Option<i64>,
    Option<i64>,
    i64,
))
    ensures
        r == date_to_parts(*date),
{
    match date {
        Some(d) => (
            d.year,
            match d.month {
                Some(m) => Some(m as i64),
                None => None,
            },
            match d.day {
                Some(x) => Some(x as i64),
                None => None,
            },
            if d.circa {
                1
            } else {
                0
            },
        ),
        None => (None, None, None, 0),
    }
}

/// A stored date reads back as written, except that a date with no part
/// known and not approximate reads back as no date.
pub proof fn lemma_date_parts_round_trip(date: Option<PartialDate>)
    ensures
        ({
            let (y, m, d, c) = date_to_parts(date);
            date_from_parts(y, m, d, c) == match date {
                Some(x) => known_date(x),
                None => None,
            }
        }),
{
}

/// The word an operator is stored as.
pub open spec fn operator_word(operator: LogicalOperator) -> Seq<char> {
    match operator {
        LogicalOperator::And => "AND"@,
        LogicalOperator::Or => "OR"@,
    }
}

/// The word an operator is stored as (see `operator_word`).
pub fn logical_operator_to_db(operator: &LogicalOperator) -> (r: &'static str)
    ensures
        r@ == operator_word(*operator),
{
    match operator {
        LogicalOperator::And => "AND",
        LogicalOperator::Or => "OR",
    }
}

/// Whether `value` is "OR" in any case of its letters.
pub open spec fn is_or_word(value: Seq<char>) -> bool {
    &&& value.len() == 2
    &&& (value[0] == 'O' || value[0] == 'o')
    &&& (value[1] == 'R' || value[1] == 'r')
}

/// The operator stored as `value`: Or for "OR" in any case, And for
/// anything else.
pub fn logical_operator_from_db(value: &str) -> (op: LogicalOperator)
    ensures
        op == (if is_or_word(value@) {
            LogicalOperator::Or
        } else {
            LogicalOperator::And
        }),
{
    let chars = chars_of(value);
    if chars.len() == 2 && (chars[0] == 'O' || chars[0] == 'o') && (chars[1] == 'R' || chars[1]
        == 'r') {
        LogicalOperator::Or
    } else {
        LogicalOperator::And
    }
}

/// An operator reads back as stored.
pub proof fn lemma_operator_round_trip(operator: LogicalOperator)
    ensures
        (if is_or_word(operator_word(operator)) {
            LogicalOperator::Or
        } else {
            LogicalOperator::And
        }) == operator,
{
    reveal_strlit("AND");
    reveal_strlit("OR");
}

/// `r` with `prefix` put before its first piece.
pub open spec fn prefix_first(prefix: Seq<char>, r: Seq<Seq<char>>) -> Seq<Seq<char>> {
    r.update(0, prefix + r[0])
}

/// The pieces of `s` between the separators "||", found from the left
/// (`str::split("||")`): one piece where there is none.
pub open spec fn split_bars(s: Seq<char>) -> Seq<Seq<char>>
    decreases s.len(),
{
    if s.len() == 0 {
        seq![Seq::empty()]
    } else if s.len() >= 2 && s[0] == '|' && s[1] == '|' {
        seq![Seq::<char>::empty()] + split_bars(s.skip(2))
    } else {
        prefix_first(seq![s[0]], split_bars(s.skip(1)))
    }
}

proof fn lemma_split_bars_nonempty(s: Seq<char>)
    ensures
        split_bars(s).len() >= 1,
    decreases s.len(),
{
    if s.len() == 0 {
    } else if s.len() >= 2 && s[0] == '|' && s[1] == '|' {
        lemma_split_bars_nonempty(s.skip(2));
    } else {
        lemma_split_bars_nonempty(s.skip(1));
    }
}

/// Whether `s` holds no bar, the character the stored separator is made of.
pub open spec fn has_no_bar(s: Seq<char>) -> bool {
    forall|i: int| 0 <= i < s.len() ==> s[i] != '|'
}

proof fn lemma_split_plain(a: Seq<char>)
    requires
        has_no_bar(a),
    ensures
        split_bars(a) == seq![a],
    decreases a.len(),
{
    if a.len() > 0 {
        lemma_split_plain(a.skip(1));
        assert(seq![a[0]] + a.skip(1) =~= a);
        assert(prefix_first(seq![a[0]], seq![a.skip(1)]) =~= seq![a]);
    } else {
        assert(a =~= Seq::<char>::empty());
    }
}

proof fn lemma_split_after_plain(a: Seq<char>, b: Seq<char>)
    requires
        has_no_bar(a),
    ensures
        split_bars(a + seq!['|', '|'] + b) == seq![a] + split_bars(b),
    decreases a.len(),
{
    let s = a + seq!['|', '|'] + b;
    if a.len() == 0 {
        assert(s.skip(2) =~= b);
        assert(a =~= Seq::<char>::empty());
    } else {
        lemma_split_after_plain(a.skip(1), b);
        assert(s.skip(1) =~= a.skip(1) + seq!['|', '|'] + b);
        assert(s[0] == a[0]);
        lemma_split_bars_nonempty(b);
        assert(prefix_first(seq![a[0]], seq![a.skip(1)] + split_bars(b)) =~= seq![a] + split_bars(
            b,
        )) by {
            assert(seq![a[0]] + a.skip(1) =~= a);
        }
    }
}

/// Names stored joined by "||" are read back as they were, where none of
/// them holds a bar.
pub proof fn lemma_split_joined_authors(names: Seq<Seq<char>>)
    requires
        names.len() >= 1,
        forall|i: int| 0 <= i < names.len() ==> has_no_bar(#[trigger] names[i]),
    ensures
        split_bars(crate::text::joined(names, seq!['|', '|'])) == names,
    decreases names.len(),
{
    let sep = seq!['|', '|'];
    if names.len() == 1 {
        lemma_split_plain(names[0]);
        assert(seq![names[0]] =~= names);
    } else {
        crate::text::lemma_joined_first(names, sep);
        let rest = names.drop_first();
        assert forall|i: int| 0 <= i < rest.len() implies has_no_bar(#[trigger] rest[i]) by {
            assert(rest[i] == names[i + 1]);
        }
        lemma_split_joined_authors(rest);
        lemma_split_after_plain(names[0], crate::text::joined(rest, sep));
        assert(seq![names[0]] + rest =~= names);
    }
}

/// The authors stored joined by "||": the pieces of the text (see
/// `split_bars`), or none where there is no text.
pub fn split_authors(raw: Option<String>) -> (r: Vec<String>)
    ensures
        crate::text::views(r@) == (match raw {
            Some(s) => split_bars(s@),
            None => Seq::empty(),
        }),
{
    let s = match raw {
        Some(s) => s,
        None => {
            let r: Vec<String> = Vec::new();
            proof {
                assert(crate::text::views(r@) =~= Seq::<Seq<char>>::empty());
            }
            return r;
        },
    };
    let chars = chars_of(s.as_str());
    let ghost t = chars@;
    let mut pieces: Vec<String> = Vec::new();
    let mut start: usize = 0;
    let mut i: usize = 0;
    proof {
        lemma_split_bars_nonempty(t);
        assert(prefix_first(Seq::empty(), split_bars(t)) =~= split_bars(t));
        assert(t.skip(0) =~= t);
    }
    while i < chars.len()
        invariant
            t == chars@,
            t == s@,
            start <= i <= t.len(),
            split_bars(t) == crate::text::views(pieces@) + prefix_first(
                t.subrange(start as int, i as int),
                split_bars(t.skip(i as int)),
            ),
        decreases t.len() - i,
    {
        let ghost rest = t.skip(i as int);
        proof {
            lemma_split_bars_nonempty(rest);
        }
        if i + 1 < chars.len() && chars[i] == '|' && chars[i + 1] == '|' {
            let piece = string_of_range(&chars, start, i);
            proof {
                assert(rest[0] == '|' && rest[1] == '|');
                assert(rest.skip(2) =~= t.skip(i + 2));
                lemma_split_bars_nonempty(t.skip(i + 2));
                let x = split_bars(t.skip(i + 2));
                assert(split_bars(rest) == seq![Seq::<char>::empty()] + x);
                assert(prefix_first(t.subrange(start as int, i as int), seq![Seq::<char>::empty()] + x)
                    =~= seq![piece@] + x);
                assert(prefix_first(t.subrange(i + 2, i + 2), x) =~= x);
                assert(crate::text::views(pieces@.push(piece)) =~= crate::text::views(pieces@).push(
                    piece@,
                ));
                assert(crate::text::views(pieces@) + (seq![piece@] + x) =~= crate::text::views(
                    pieces@,
                ).push(piece@) + x);
            }
            pieces.push(piece);
            i = i + 2;
            start = i;
        } else {
            proof {
                assert(rest.skip(1) =~= t.skip(i + 1));
                lemma_split_bars_nonempty(t.skip(i + 1));
                let x = split_bars(t.skip(i + 1));
                assert(rest[0] == t[i as int]);
                if rest.len() >= 2 {
                    assert(rest[1] == t[i + 1]);
                }
                assert(split_bars(rest) == prefix_first(seq![t[i as int]], x));
                assert(t.subrange(start as int, i + 1) =~= t.subrange(start as int, i as int)
                    + seq![t[i as int]]);
                let y = prefix_first(seq![t[i as int]], x);
                let sub = t.subrange(start as int, i as int);
                assert(y[0] == seq![t[i as int]] + x[0]);
                assert(sub + (seq![t[i as int]] + x[0]) =~= (sub + seq![t[i as int]]) + x[0]);
                assert(prefix_first(sub, y) =~= prefix_first(t.subrange(start as int, i + 1), x));
            }
            i = i + 1;
        }
    }
    let last = string_of_range(&chars, start, i);
    proof {
        assert(t.skip(i as int) =~= Seq::<char>::empty());
        assert(split_bars(t.skip(i as int)) == seq![Seq::<char>::empty()]);
        assert(prefix_first(t.subrange(start as int, i as int), seq![Seq::<char>::empty()])
            =~= seq![last@]);
        assert(crate::text::views(pieces@.push(last)) =~= crate::text::views(pieces@).push(
            last@,
        ));
    }
    pieces.push(last);
    pieces
}

/// A place as stored: the marks are integers, any other than 0 set.
pub fn place_from_row(
    id: i64,
    continent: Option<String>,
    country: Option<String>,
    city: Option<String>,
    circa: i64,
    disputed: i64,
) -> (p: Place)
    ensures
        p == (Place { id, continent, country, city, circa: circa != 0, disputed: disputed != 0 }),
{
    Place { id, continent, country, city, circa: circa != 0, disputed: disputed != 0 }
}

/// A row of a publisher joined with one of its places (all place columns
/// missing where it has none).
#[derive(Debug, Clone, PartialEq, Eq)]
pub struct PublisherPlaceRow {
    pub id: i64,
    pub name: String,
    pub country: Option<String>,
    pub website: Option<String>,
    pub notes: Option<String>,
    pub place_id: Option<i64>,
    pub continent: Option<String>,
    pub place_country: Option<String>,
    pub city: Option<String>,
    pub circa: Option<i64>,
    pub disputed: Option<i64>,
    pub key: Option<String>,
    pub label: Option<String>,
}

/// A publisher's place: id, continent, country, city, circa, disputed,
/// kind of place and its label.
pub type PublisherPlace = (
    i64,
    Option<String>,
    Option<String>,
    Option<String>,
    bool,
    bool,
    String,
    String,
);

/// A publisher with its places.
#[derive(Debug, Clone, PartialEq, Eq)]
pub struct PublisherDetailData {
    pub id: i64,
    pub name: String,
    pub country: Option<String>,
    pub website: Option<String>,
    pub notes: Option<String>,
    pub places: Vec<PublisherPlace>,
}

/// A mark stored as an optional integer: set where present and not 0.
pub open spec fn mark_of(v: Option<i64>) -> bool {
    match v {
        Some(x) => x != 0,
        None => false,
    }
}

/// `p` is the place of `row`, which has one: the marks set where present
/// and not 0, the kind of place "other" where missing, and its label the
/// kind where missing.
pub open spec fn is_place_of_row(p: PublisherPlace, row: PublisherPlaceRow) -> bool {
    let key = match row.key {
        Some(k) => k@,
        None => "other"@,
    };
    &&& row.place_id == Some(p.0)
    &&& p.1 == row.continent
    &&& p.2 == row.place_country
    &&& p.3 == row.city
    &&& p.4 == mark_of(row.circa)
    &&& p.5 == mark_of(row.disputed)
    &&& p.6@ == key
    &&& p.7@ == (match row.label {
        Some(l) => l@,
        None => key,
    })
}

/// The rows that hold a place, in their order.
pub open spec fn rows_with_place(rows: Seq<PublisherPlaceRow>) -> Seq<PublisherPlaceRow>
    decreases rows.len(),
{
    if rows.len() == 0 {
        Seq::empty()
    } else if rows.last().place_id is Some {
        rows_with_place(rows.drop_last()).push(rows.last())
    } else {
        rows_with_place(rows.drop_last())
    }
}

fn place_of(row: &PublisherPlaceRow, place_id: i64) -> (p: PublisherPlace)
    requires
        row.place_id == Some(place_id),
    ensures
        is_place_of_row(p, *row),
{
    let key = match &row.key {
        Some(k) => k.clone(),
        None => {
            let mut k = String::new();
            k.append("other");
            k
        },
    };
    let label = match &row.label {
        Some(l) => l.clone(),
        None => key.clone(),
    };
    let circa = match row.circa {
        Some(v) => v != 0,
        None => false,
    };
    let disputed = match row.disputed {
        Some(v) => v != 0,
        None => false,
    };
    (
        place_id,
        crate::web::forms::copy_text(&row.continent),
        crate::web::forms::copy_text(&row.place_country),
        crate::web::forms::copy_text(&row.city),
        circa,
        disputed,
        key,
        label,
    )
}

/// The publisher of the rows, taken from the first, with the place of each
/// row that holds one, in order; the not-found error where there is no row.
pub fn publisher_detail(rows: &Vec<PublisherPlaceRow>) -> (r: Result<PublisherDetailData, RitmoErr>)
    ensures
        match r {
            Ok(d) => {
                &&& rows@.len() > 0
                &&& d.id == rows@[0].id
                &&& d.name == rows@[0].name
                &&& d.country == rows@[0].country
                &&& d.website == rows@[0].website
                &&& d.notes == rows@[0].notes
                &&& d.places@.len() == rows_with_place(rows@).len()
                &&& forall|i: int|
                    0 <= i < d.places@.len() ==> is_place_of_row(
                        #[trigger] d.places@[i],
                        rows_with_place(rows@)[i],
                    )
            },
            Err(e) => rows@.len() == 0 && e == RitmoErr::RecordNotFound,
        },
{
    if rows.len() == 0 {
        return Err(RitmoErr::RecordNotFound);
    }
    let mut places: Vec<PublisherPlace> = Vec::new();
    let mut i: usize = 0;
    proof {
        assert(rows@.take(0) =~= Seq::<PublisherPlaceRow>::empty());
    }
    while i < rows.len()
        invariant
            i <= rows@.len(),
            places@.len() == rows_with_place(rows@.take(i as int)).len(),
            forall|k: int|
                0 <= k < places@.len() ==> is_place_of_row(
                    #[trigger] places@[k],
                    rows_with_place(rows@.take(i as int))[k],
                ),
        decreases rows@.len() - i,
    {
        proof {
            assert(rows@.take(i + 1).drop_last() =~= rows@.take(i as int));
            assert(rows@.take(i + 1).last() == rows@[i as int]);
        }
        match rows[i].place_id {
            Some(place_id) => {
                let p = place_of(&rows[i], place_id);
                places.push(p);
            },
            None => {},
        }
        i = i + 1;
    }
    proof {
        assert(rows@.take(rows@.len() as int) =~= rows@);
    }
    let first = &rows[0];
    Ok(
        PublisherDetailData {
            id: first.id,
            name: first.name.clone(),
            country: crate::web::forms::copy_text(&first.country),
            website: crate::web::forms::copy_text(&first.website),
            notes: crate::web::forms::copy_text(&first.notes),
            places,
        },
    )
}

} // verus!
