//! The query that finds the books matching the active filter sets.

use vstd::prelude::*;
use crate::search::conditions::{
    date_frag, date_values_fit, eq_items, false_frag, id_list_frag, like_items, link_frag,
    relation_frag, text_frag, Linked, push_date_filter, push_false, push_id_list_or_single,
    push_link_filter, push_relation_filter, push_text_filter, push_text_items, pattern_of, pct,
};
use crate::search::filter::{
    filter_id_values, filter_text_values, id_values, text_values, Filter, FilterField, FilterOperator,
    FilterSet,
};
use crate::search::sql::{bind_int, bind_text, empty_frag, joined_frags, lemma_joined_step, lit, Frag, SqlQuery};
use crate::text::views;

verus! {

/// Whether `field` is compared as a date.
pub open spec fn is_date_field(field: FilterField) -> bool {
    match field {
        FilterField::BookPublicationDate | FilterField::ContentPublicationDate
        | FilterField::PersonBirthDate | FilterField::PersonDeathDate => true,
        _ => false,
    }
}

/// Whether the SQL for `filter` can be built: a date it compares with must be
/// comparable in `i32` arithmetic.
pub open spec fn filter_computable(filter: Filter) -> bool {
    is_date_field(filter.field) ==> date_values_fit(filter)
}

pub open spec fn content_of_book_prefix() -> Seq<char> {
    "EXISTS (SELECT 1 FROM x_books_contents book_content JOIN contents ON contents.id = book_content.content_id WHERE book_content.book_id = books.id AND "@
}

pub open spec fn content_link_prefix() -> Seq<char> {
    "EXISTS (SELECT 1 FROM x_books_contents book_content WHERE book_content.book_id = books.id AND EXISTS (SELECT 1 FROM "@
}

pub open spec fn tags_table() -> Option<Linked> {
    Some(Linked { table: "tags"@, id_column: "id"@, text_column: "name"@ })
}

pub open spec fn languages_table() -> Option<Linked> {
    Some(Linked { table: "languages"@, id_column: "id"@, text_column: "official_name"@ })
}

pub open spec fn role_extra(role_id: Option<i64>) -> Option<(Seq<char>, i64)> {
    match role_id {
        Some(id) => Some(("role_id"@, id)),
        None => None,
    }
}

/// Books with a person (on the book or on one of its contents) whose name
/// matches the text values.
pub open spec fn person_name_frag(filter: Filter) -> Frag {
    let texts = text_values(filter.values@);
    let items = if filter.operator == FilterOperator::Contains {
        like_items("p.name"@, texts)
    } else {
        eq_items("p.name"@, texts)
    };
    match filter.operator {
        FilterOperator::Contains | FilterOperator::Equals => if texts.len() == 0 {
            false_frag()
        } else {
            lit(
                "EXISTS (SELECT 1 FROM x_books_people_roles bpr JOIN people p ON p.id = bpr.person_id WHERE bpr.book_id = books.id AND ("@,
            ).add(joined_frags(items, " OR "@)).add(
                lit(
                    ")) OR EXISTS (SELECT 1 FROM x_books_contents bc JOIN x_contents_people_roles cpr ON cpr.content_id = bc.content_id JOIN people p ON p.id = cpr.person_id WHERE bc.book_id = books.id AND ("@,
                ),
            ).add(joined_frags(items, " OR "@)).add(lit(")))"@))
        },
        _ => false_frag(),
    }
}

/// The roles a role condition asks for: the field's own role, else the id
/// values.
pub open spec fn role_ids(role_id: Option<i64>, filter: Filter) -> Seq<i64> {
    match role_id {
        Some(r) => seq![r],
        None => id_values(filter.values@),
    }
}

/// Books with a person in one of the roles (on the book or a content).
pub open spec fn person_role_frag(role_id: Option<i64>, filter: Filter) -> Frag {
    let ids = role_ids(role_id, filter);
    if ids.len() == 0 {
        false_frag()
    } else {
        lit(
            "(EXISTS (SELECT 1 FROM x_books_people_roles bpr WHERE bpr.book_id = books.id AND "@,
        ).add(id_list_frag("bpr.role_id"@, ids)).add(
            lit(
                ") OR EXISTS (SELECT 1 FROM x_books_contents bc JOIN x_contents_people_roles cpr ON cpr.content_id = bc.content_id WHERE bc.book_id = books.id AND "@,
            ),
        ).add(id_list_frag("cpr.role_id"@, ids)).add(lit("))"@))
    }
}

pub open spec fn role_restriction(column: Seq<char>, id: Option<i64>) -> Frag {
    match id {
        Some(v) => lit(column).add(bind_int(v as int)),
        None => empty_frag(),
    }
}

/// Books with a person who has one of the languages (optionally in a role).
pub open spec fn person_language_frag(role_id: Option<i64>, filter: Filter) -> Frag {
    let ids = id_values(filter.values@);
    if ids.len() == 0 {
        false_frag()
    } else {
        lit(
            "(EXISTS (SELECT 1 FROM x_books_people_roles bpr JOIN person_languages pl ON pl.person_id = bpr.person_id WHERE bpr.book_id = books.id"@,
        ).add(role_restriction(" AND pl.role_id = "@, role_id)).add(lit(" AND "@)).add(
            id_list_frag("pl.language_id"@, ids),
        ).add(
            lit(
                ") OR EXISTS (SELECT 1 FROM x_books_contents bc JOIN x_contents_people_roles cpr ON cpr.content_id = bc.content_id JOIN person_languages pl ON pl.person_id = cpr.person_id WHERE bc.book_id = books.id"@,
            ),
        ).add(role_restriction(" AND pl.role_id = "@, role_id)).add(lit(" AND "@)).add(
            id_list_frag("pl.language_id"@, ids),
        ).add(lit("))"@))
    }
}

pub open spec fn place_eq_item(t: Seq<char>) -> Frag {
    lit("dp.city = "@).add(bind_text(t)).add(lit(" COLLATE NOCASE OR dp.country = "@)).add(
        bind_text(t),
    ).add(lit(" COLLATE NOCASE"@))
}

pub open spec fn place_like_item(t: Seq<char>) -> Frag {
    lit("dp.city LIKE "@).add(bind_text(pct(t))).add(lit(" COLLATE NOCASE OR dp.country LIKE "@)).add(
        bind_text(pct(t)),
    ).add(lit(" COLLATE NOCASE"@))
}

/// Which places match: ids compared whole, texts with a city or country.
pub open spec fn place_value_frag(filter: Filter) -> Frag {
    let ids = id_values(filter.values@);
    let texts = text_values(filter.values@);
    match filter.operator {
        FilterOperator::Equals => if ids.len() > 0 {
            lit(" AND "@).add(id_list_frag("dp.id"@, ids))
        } else if texts.len() > 0 {
            lit(" AND ("@).add(
                joined_frags(texts.map_values(|t: Seq<char>| place_eq_item(t)), " OR "@),
            ).add(lit(")"@))
        } else {
            lit(" AND 1=0"@)
        },
        FilterOperator::Contains => if texts.len() == 0 {
            lit(" AND 1=0"@)
        } else {
            lit(" AND ("@).add(
                joined_frags(texts.map_values(|t: Seq<char>| place_like_item(t)), " OR "@),
            ).add(lit(")"@))
        },
        _ => lit(" AND 1=0"@),
    }
}

/// Books with a person linked to a matching place (optionally of a type).
pub open spec fn person_place_frag(place_type_id: Option<i64>, filter: Filter) -> Frag {
    lit(
        "(EXISTS (SELECT 1 FROM x_books_people_roles bpr JOIN x_person_places pp ON pp.person_id = bpr.person_id JOIN d_places dp ON dp.id = pp.place_id WHERE bpr.book_id = books.id"@,
    ).add(role_restriction(" AND pp.place_type_id = "@, place_type_id)).add(
        place_value_frag(filter),
    ).add(
        lit(
            ") OR EXISTS (SELECT 1 FROM x_books_contents bc JOIN x_contents_people_roles cpr ON cpr.content_id = bc.content_id JOIN x_person_places pp ON pp.person_id = cpr.person_id JOIN d_places dp ON dp.id = pp.place_id WHERE bc.book_id = books.id"@,
        ),
    ).add(role_restriction(" AND pp.place_type_id = "@, place_type_id)).add(
        place_value_frag(filter),
    ).add(lit("))"@))
}

/// Books with a person whose birth (or death) date matches.
pub open spec fn person_date_frag(which: Seq<char>, filter: Filter) -> Frag {
    let y = "p."@ + which + "_date_year"@;
    let m = "p."@ + which + "_date_month"@;
    let d = "p."@ + which + "_date_day"@;
    lit(
        "(EXISTS (SELECT 1 FROM x_books_people_roles bpr JOIN people p ON p.id = bpr.person_id WHERE bpr.book_id = books.id AND "@,
    ).add(date_frag(y, m, d, filter)).add(
        lit(
            ") OR EXISTS (SELECT 1 FROM x_books_contents bc JOIN x_contents_people_roles cpr ON cpr.content_id = bc.content_id JOIN people p ON p.id = cpr.person_id WHERE bc.book_id = books.id AND "@,
        ),
    ).add(date_frag(y, m, d, filter)).add(lit("))"@))
}

/// The condition a filter puts on a book.
pub open spec fn book_filter_frag(filter: Filter) -> Frag {
    match filter.field {
        FilterField::BookTitle => text_frag("books.name"@, filter, true),
        FilterField::BookIsbn => text_frag("books.isbn"@, filter, true),
        FilterField::BookFormat => relation_frag(
            "books.format_id"@,
            "formats"@,
            "id"@,
            "key"@,
            filter,
        ),
        FilterField::BookSeries => relation_frag(
            "books.series_id"@,
            "series"@,
            "id"@,
            "name"@,
            filter,
        ),
        FilterField::BookPublisher => relation_frag(
            "books.publisher_id"@,
            "publishers"@,
            "id"@,
            "name"@,
            filter,
        ),
        FilterField::BookPublicationDate => date_frag(
            "books.publication_date_year"@,
            "books.publication_date_month"@,
            "books.publication_date_day"@,
            filter,
        ),
        FilterField::BookTag => link_frag(
            "EXISTS (SELECT 1 FROM "@,
            "x_books_tags"@,
            "book_id"@,
            "tag_id"@,
            tags_table(),
            "books.id"@,
            None,
            ")"@,
            filter,
        ),
        FilterField::BookLanguage { role_id } => link_frag(
            "EXISTS (SELECT 1 FROM "@,
            "book_languages"@,
            "book_id"@,
            "language_id"@,
            languages_table(),
            "books.id"@,
            role_extra(role_id),
            ")"@,
            filter,
        ),
        FilterField::ContentTitle => lit(content_of_book_prefix()).add(
            text_frag("contents.name"@, filter, true),
        ).add(lit(")"@)),
        FilterField::ContentGenre => lit(content_of_book_prefix()).add(
            relation_frag("contents.genre_id"@, "genres"@, "id"@, "key"@, filter),
        ).add(lit(")"@)),
        FilterField::ContentPublicationDate => lit(content_of_book_prefix()).add(
            date_frag(
                "contents.publication_date_year"@,
                "contents.publication_date_month"@,
                "contents.publication_date_day"@,
                filter,
            ),
        ).add(lit(")"@)),
        FilterField::ContentTag => link_frag(
            content_link_prefix(),
            "x_contents_tags"@,
            "content_id"@,
            "tag_id"@,
            tags_table(),
            "book_content.content_id"@,
            None,
            ")))"@,
            filter,
        ),
        FilterField::ContentLanguage { role_id } => link_frag(
            content_link_prefix(),
            "content_languages"@,
            "content_id"@,
            "language_id"@,
            languages_table(),
            "book_content.content_id"@,
            role_extra(role_id),
            ")))"@,
            filter,
        ),
        FilterField::PersonName => person_name_frag(filter),
        FilterField::PersonRole { role_id } => person_role_frag(role_id, filter),
        FilterField::PersonLanguage { role_id } => person_language_frag(role_id, filter),
        FilterField::PersonPlace { place_type_id } => person_place_frag(place_type_id, filter),
        FilterField::PersonBirthDate => person_date_frag("birth"@, filter),
        FilterField::PersonDeathDate => person_date_frag("death"@, filter),
    }
}

/// Appends `person_name_frag(filter)`.
pub fn push_person_name_filter(q: &mut SqlQuery, filter: &Filter)
    ensures
        final(q)@ == old(q)@.add(person_name_frag(*filter)),
{
    let ghost start = q@;
    let texts = filter_text_values(&filter.values);
    match filter.operator {
        FilterOperator::Contains | FilterOperator::Equals => {
            if texts.len() == 0 {
                push_false(q);
                return;
            }
            let like = filter.operator == FilterOperator::Contains;
            q.push(
                "EXISTS (SELECT 1 FROM x_books_people_roles bpr JOIN people p ON p.id = bpr.person_id WHERE bpr.book_id = books.id AND (",
            );
            push_text_items(q, "p.name", &texts, like);
            q.push(
                ")) OR EXISTS (SELECT 1 FROM x_books_contents bc JOIN x_contents_people_roles cpr ON cpr.content_id = bc.content_id JOIN people p ON p.id = cpr.person_id WHERE bc.book_id = books.id AND (",
            );
            push_text_items(q, "p.name", &texts, like);
            q.push(")))");
            assert(q@ =~= start.add(person_name_frag(*filter)));
        },
        _ => push_false(q),
    }
}

/// Appends `person_role_frag(role_id, filter)`.
pub fn push_person_role_filter(q: &mut SqlQuery, role_id: Option<i64>, filter: &Filter)
    ensures
        final(q)@ == old(q)@.add(person_role_frag(role_id, *filter)),
{
    let ghost start = q@;
    let ids = match role_id {
        Some(single) => {
            let mut v: Vec<i64> = Vec::new();
            v.push(single);
            assert(v@ =~= seq![single]);
            v
        },
        None => filter_id_values(&filter.values),
    };
    if ids.len() == 0 {
        push_false(q);
        return;
    }
    q.push("(EXISTS (SELECT 1 FROM x_books_people_roles bpr WHERE bpr.book_id = books.id AND ");
    push_id_list_or_single(q, "bpr.role_id", &ids);
    q.push(
        ") OR EXISTS (SELECT 1 FROM x_books_contents bc JOIN x_contents_people_roles cpr ON cpr.content_id = bc.content_id WHERE bc.book_id = books.id AND ",
    );
    push_id_list_or_single(q, "cpr.role_id", &ids);
    q.push("))");
    assert(q@ =~= start.add(person_role_frag(role_id, *filter)));
}

fn push_role_restriction(q: &mut SqlQuery, column: &str, id: Option<i64>)
    ensures
        final(q)@ == old(q)@.add(role_restriction(column@, id)),
{
    let ghost start = q@;
    if let Some(value) = id {
        q.push(column);
        q.push_bind_int(value);
    }
    assert(q@ =~= start.add(role_restriction(column@, id)));
}

/// Appends `person_language_frag(role_id, filter)`.
pub fn push_person_language_filter(q: &mut SqlQuery, role_id: Option<i64>, filter: &Filter)
    ensures
        final(q)@ == old(q)@.add(person_language_frag(role_id, *filter)),
{
    let ghost start = q@;
    let ids = filter_id_values(&filter.values);
    if ids.len() == 0 {
        push_false(q);
        return;
    }
    q.push(
        "(EXISTS (SELECT 1 FROM x_books_people_roles bpr JOIN person_languages pl ON pl.person_id = bpr.person_id WHERE bpr.book_id = books.id",
    );
    push_role_restriction(q, " AND pl.role_id = ", role_id);
    q.push(" AND ");
    push_id_list_or_single(q, "pl.language_id", &ids);
    q.push(
        ") OR EXISTS (SELECT 1 FROM x_books_contents bc JOIN x_contents_people_roles cpr ON cpr.content_id = bc.content_id JOIN person_languages pl ON pl.person_id = cpr.person_id WHERE bc.book_id = books.id",
    );
    push_role_restriction(q, " AND pl.role_id = ", role_id);
    q.push(" AND ");
    push_id_list_or_single(q, "pl.language_id", &ids);
    q.push("))");
    assert(q@ =~= start.add(person_language_frag(role_id, *filter)));
}

fn push_place_items(q: &mut SqlQuery, texts: &Vec<String>, like: bool)
    ensures
        final(q)@ == old(q)@.add(
            joined_frags(
                if like {
                    views(texts@).map_values(|t: Seq<char>| place_like_item(t))
                } else {
                    views(texts@).map_values(|t: Seq<char>| place_eq_item(t))
                },
                " OR "@,
            ),
        ),
{
    let ghost start = q@;
    let ghost items = if like {
        views(texts@).map_values(|t: Seq<char>| place_like_item(t))
    } else {
        views(texts@).map_values(|t: Seq<char>| place_eq_item(t))
    };
    let mut i: usize = 0;
    proof {
        assert(items.take(0) =~= Seq::<Frag>::empty());
        assert(q@ =~= start.add(joined_frags(items.take(0), " OR "@)));
    }
    while i < texts.len()
        invariant
            i <= texts@.len() == items.len(),
            items == (if like {
                views(texts@).map_values(|t: Seq<char>| place_like_item(t))
            } else {
                views(texts@).map_values(|t: Seq<char>| place_eq_item(t))
            }),
            q@ == start.add(joined_frags(items.take(i as int), " OR "@)),
        decreases texts@.len() - i,
    {
        proof {
            lemma_joined_step(items, " OR "@, i as int);
        }
        if i > 0 {
            q.push(" OR ");
        }
        let ghost mid = q@;
        let t = texts[i].as_str();
        if like {
            q.push("dp.city LIKE ");
            q.push_bind_text(pattern_of(t));
            q.push(" COLLATE NOCASE OR dp.country LIKE ");
            q.push_bind_text(pattern_of(t));
            q.push(" COLLATE NOCASE");
        } else {
            q.push("dp.city = ");
            q.push_bind_text(t.to_string());
            q.push(" COLLATE NOCASE OR dp.country = ");
            q.push_bind_text(t.to_string());
            q.push(" COLLATE NOCASE");
        }
        proof {
            assert(q@ =~= mid.add(items[i as int]));
            let j = joined_frags(items.take(i as int), " OR "@);
            if i > 0 {
                assert(q@ =~= start.add(j.add(lit(" OR "@)).add(items[i as int])));
            } else {
                assert(q@ =~= start.add(items[0]));
            }
        }
        i = i + 1;
    }
    assert(items.take(texts@.len() as int) =~= items);
}

/// Appends `place_value_frag(filter)`.
pub fn push_person_place_value_condition(q: &mut SqlQuery, filter: &Filter)
    ensures
        final(q)@ == old(q)@.add(place_value_frag(*filter)),
{
    let ghost start = q@;
    let ids = filter_id_values(&filter.values);
    let texts = filter_text_values(&filter.values);
    match filter.operator {
        FilterOperator::Equals => {
            if ids.len() > 0 {
                q.push(" AND ");
                push_id_list_or_single(q, "dp.id", &ids);
            } else if texts.len() > 0 {
                q.push(" AND (");
                push_place_items(q, &texts, false);
                q.push(")");
            } else {
                q.push(" AND 1=0");
            }
        },
        FilterOperator::Contains => {
            if texts.len() == 0 {
                q.push(" AND 1=0");
            } else {
                q.push(" AND (");
                push_place_items(q, &texts, true);
                q.push(")");
            }
        },
        _ => {
            q.push(" AND 1=0");
        },
    }
    assert(q@ =~= start.add(place_value_frag(*filter)));
}

/// Appends `person_place_frag(place_type_id, filter)`.
pub fn push_person_place_filter(q: &mut SqlQuery, place_type_id: Option<i64>, filter: &Filter)
    ensures
        final(q)@ == old(q)@.add(person_place_frag(place_type_id, *filter)),
{
    let ghost start = q@;
    q.push(
        "(EXISTS (SELECT 1 FROM x_books_people_roles bpr JOIN x_person_places pp ON pp.person_id = bpr.person_id JOIN d_places dp ON dp.id = pp.place_id WHERE bpr.book_id = books.id",
    );
    push_role_restriction(q, " AND pp.place_type_id = ", place_type_id);
    push_person_place_value_condition(q, filter);
    q.push(
        ") OR EXISTS (SELECT 1 FROM x_books_contents bc JOIN x_contents_people_roles cpr ON cpr.content_id = bc.content_id JOIN x_person_places pp ON pp.person_id = cpr.person_id JOIN d_places dp ON dp.id = pp.place_id WHERE bc.book_id = books.id",
    );
    push_role_restriction(q, " AND pp.place_type_id = ", place_type_id);
    push_person_place_value_condition(q, filter);
    q.push("))");
    assert(q@ =~= start.add(person_place_frag(place_type_id, *filter)));
}

fn date_column(which: &str, part: &str) -> (r: String)
    ensures
        r@ == "p."@ + which@ + part@,
{
    let mut r = "p.".to_string();
    r.append(which);
    r.append(part);
    r
}

/// Appends `person_date_frag(which, filter)`.
pub fn push_person_date_filter(q: &mut SqlQuery, which: &str, filter: &Filter)
    requires
        date_values_fit(*filter),
    ensures
        final(q)@ == old(q)@.add(person_date_frag(which@, *filter)),
{
    let ghost start = q@;
    let y = date_column(which, "_date_year");
    let m = date_column(which, "_date_month");
    let d = date_column(which, "_date_day");
    q.push(
        "(EXISTS (SELECT 1 FROM x_books_people_roles bpr JOIN people p ON p.id = bpr.person_id WHERE bpr.book_id = books.id AND ",
    );
    push_date_filter(q, y.as_str(), m.as_str(), d.as_str(), filter);
    q.push(
        ") OR EXISTS (SELECT 1 FROM x_books_contents bc JOIN x_contents_people_roles cpr ON cpr.content_id = bc.content_id JOIN people p ON p.id = cpr.person_id WHERE bc.book_id = books.id AND ",
    );
    push_date_filter(q, y.as_str(), m.as_str(), d.as_str(), filter);
    q.push("))");
    assert(q@ =~= start.add(person_date_frag(which@, *filter)));
}

/// Appends the condition a filter puts on a book (`book_filter_frag`).
pub fn push_filter_condition(q: &mut SqlQuery, filter: &Filter)
    requires
        filter_computable(*filter),
    ensures
        final(q)@ == old(q)@.add(book_filter_frag(*filter)),
{
    let ghost start = q@;
    match filter.field {
        FilterField::BookTitle => push_text_filter(q, "books.name", filter, true),
        FilterField::BookIsbn => push_text_filter(q, "books.isbn", filter, true),
        FilterField::BookFormat => push_relation_filter(
            q,
            "books.format_id",
            "formats",
            "id",
            "key",
            filter,
        ),
        FilterField::BookSeries => push_relation_filter(
            q,
            "books.series_id",
            "series",
            "id",
            "name",
            filter,
        ),
        FilterField::BookPublisher => push_relation_filter(
            q,
            "books.publisher_id",
            "publishers",
            "id",
            "name",
            filter,
        ),
        FilterField::BookPublicationDate => push_date_filter(
            q,
            "books.publication_date_year",
            "books.publication_date_month",
            "books.publication_date_day",
            filter,
        ),
        FilterField::BookTag => push_link_filter(
            q,
            "EXISTS (SELECT 1 FROM ",
            "x_books_tags",
            "book_id",
            "tag_id",
            Some(("tags", "id", "name")),
            "books.id",
            None,
            ")",
            filter,
        ),
        FilterField::BookLanguage { role_id } => {
            let extra = match role_id {
                Some(id) => Some(("role_id", id)),
                None => None,
            };
            push_link_filter(
                q,
                "EXISTS (SELECT 1 FROM ",
                "book_languages",
                "book_id",
                "language_id",
                Some(("languages", "id", "official_name")),
                "books.id",
                extra,
                ")",
                filter,
            )
        },
        FilterField::ContentTitle => {
            push_content_of_book_prefix(q);
            push_text_filter(q, "contents.name", filter, true);
            q.push(")");
            assert(q@ =~= start.add(book_filter_frag(*filter)));
        },
        FilterField::ContentGenre => {
            push_content_of_book_prefix(q);
            push_relation_filter(q, "contents.genre_id", "genres", "id", "key", filter);
            q.push(")");
            assert(q@ =~= start.add(book_filter_frag(*filter)));
        },
        FilterField::ContentPublicationDate => {
            push_content_of_book_prefix(q);
            push_date_filter(
                q,
                "contents.publication_date_year",
                "contents.publication_date_month",
                "contents.publication_date_day",
                filter,
            );
            q.push(")");
            assert(q@ =~= start.add(book_filter_frag(*filter)));
        },
        FilterField::ContentTag => push_link_filter(
            q,
            "EXISTS (SELECT 1 FROM x_books_contents book_content WHERE book_content.book_id = books.id AND EXISTS (SELECT 1 FROM ",
            "x_contents_tags",
            "content_id",
            "tag_id",
            Some(("tags", "id", "name")),
            "book_content.content_id",
            None,
            ")))",
            filter,
        ),
        FilterField::ContentLanguage { role_id } => {
            let extra = match role_id {
                Some(id) => Some(("role_id", id)),
                None => None,
            };
            push_link_filter(
                q,
                "EXISTS (SELECT 1 FROM x_books_contents book_content WHERE book_content.book_id = books.id AND EXISTS (SELECT 1 FROM ",
                "content_languages",
                "content_id",
                "language_id",
                Some(("languages", "id", "official_name")),
                "book_content.content_id",
                extra,
                ")))",
                filter,
            )
        },
        FilterField::PersonName => push_person_name_filter(q, filter),
        FilterField::PersonRole { role_id } => push_person_role_filter(q, role_id, filter),
        FilterField::PersonLanguage { role_id } => push_person_language_filter(q, role_id, filter),
        FilterField::PersonPlace { place_type_id } => push_person_place_filter(
            q,
            place_type_id,
            filter,
        ),
        FilterField::PersonBirthDate => push_person_date_filter(q, "birth", filter),
        FilterField::PersonDeathDate => push_person_date_filter(q, "death", filter),
    }
}

fn push_content_of_book_prefix(q: &mut SqlQuery)
    ensures
        final(q)@ == old(q)@.add(lit(content_of_book_prefix())),
{
    q.push(
        "EXISTS (SELECT 1 FROM x_books_contents book_content JOIN contents ON contents.id = book_content.content_id WHERE book_content.book_id = books.id AND ",
    );
}

} // verus!
