//! What a user types never becomes SQL text: searches whose filters differ
//! only in the texts typed have the same SQL text, the texts reaching the
//! query only as bound parameters.

use vstd::prelude::*;
use crate::search::books::{
    book_filter_frag, person_date_frag, person_language_frag, person_name_frag,
    person_place_frag, person_role_frag, place_eq_item, place_like_item, place_value_frag,
    role_ids,
};
use crate::search::conditions::{
    date_frag, eq_item, eq_items, like_item, like_items, link_frag, link_tail_frag, relation_frag,
    text_frag, Linked,
};
use crate::search::filter::{
    first_date, first_range, id_values, text_values, Filter, FilterSet, FilterValue,
};
use crate::search::query::{
    active_sets, content_filter_frag, filter_frag, search_frag, set_frag, where_frag, SearchTarget,
};
use crate::search::sql::{joined_frags, Frag};

verus! {

/// Two values alike but for the contents of a text: both texts, or equal.
pub open spec fn kin(x: FilterValue, y: FilterValue) -> bool {
    match x {
        FilterValue::Text(_) => y is Text,
        _ => x == y,
    }
}

/// Two lists of values alike but for the contents of their texts.
pub open spec fn values_kin(a: Seq<FilterValue>, b: Seq<FilterValue>) -> bool {
    &&& a.len() == b.len()
    &&& forall|i: int| 0 <= i < a.len() ==> #[trigger] kin(a[i], b[i])
}

/// Two filters alike but for the texts typed in them.
pub open spec fn filters_kin(f: Filter, g: Filter) -> bool {
    &&& f.field == g.field
    &&& f.operator == g.operator
    &&& values_kin(f.values@, g.values@)
}

/// Two filter sets alike but for the texts typed in their filters.
pub open spec fn sets_kin(s: FilterSet, t: FilterSet) -> bool {
    &&& s.active == t.active
    &&& s.operator == t.operator
    &&& s.filters@.len() == t.filters@.len()
    &&& forall|j: int| 0 <= j < s.filters@.len() ==> #[trigger] filters_kin(s.filters@[j], t.filters@[j])
}

/// Two lists of filter sets alike but for the texts typed in them.
pub open spec fn set_lists_kin(s: Seq<FilterSet>, t: Seq<FilterSet>) -> bool {
    &&& s.len() == t.len()
    &&& forall|i: int| 0 <= i < s.len() ==> #[trigger] sets_kin(s[i], t[i])
}

proof fn lemma_values_kin_back(a: Seq<FilterValue>, b: Seq<FilterValue>)
    requires
        values_kin(a, b),
    ensures
        text_values(a).len() == text_values(b).len(),
        id_values(a) == id_values(b),
    decreases a.len(),
{
    if a.len() > 0 {
        assert(values_kin(a.drop_last(), b.drop_last())) by {
            assert forall|i: int| 0 <= i < a.drop_last().len() implies #[trigger] kin(
                a.drop_last()[i],
                b.drop_last()[i],
            ) by {
                assert(kin(a[i], b[i]));
            }
        }
        lemma_values_kin_back(a.drop_last(), b.drop_last());
        assert(kin(a[a.len() - 1], b[b.len() - 1]));
    }
}

proof fn lemma_values_kin_front(a: Seq<FilterValue>, b: Seq<FilterValue>)
    requires
        values_kin(a, b),
    ensures
        first_date(a) == first_date(b),
        first_range(a) == first_range(b),
    decreases a.len(),
{
    if a.len() > 0 {
        assert(values_kin(a.drop_first(), b.drop_first())) by {
            assert forall|i: int| 0 <= i < a.drop_first().len() implies #[trigger] kin(
                a.drop_first()[i],
                b.drop_first()[i],
            ) by {
                assert(kin(a[i + 1], b[i + 1]));
            }
        }
        lemma_values_kin_front(a.drop_first(), b.drop_first());
        assert(kin(a[0], b[0]));
    }
}

proof fn lemma_filters_kin(f: Filter, g: Filter)
    requires
        filters_kin(f, g),
    ensures
        text_values(f.values@).len() == text_values(g.values@).len(),
        id_values(f.values@) == id_values(g.values@),
        first_date(f.values@) == first_date(g.values@),
        first_range(f.values@) == first_range(g.values@),
{
    lemma_values_kin_back(f.values@, g.values@);
    lemma_values_kin_front(f.values@, g.values@);
}

/// Lists of pieces with the same texts, joined alike, have the same text.
proof fn lemma_joined_sql(x: Seq<Frag>, y: Seq<Frag>, sep: Seq<char>)
    requires
        x.len() == y.len(),
        forall|i: int| 0 <= i < x.len() ==> #[trigger] x[i].sql == y[i].sql,
    ensures
        joined_frags(x, sep).sql == joined_frags(y, sep).sql,
    decreases x.len(),
{
    if x.len() > 1 {
        lemma_joined_sql(x.drop_last(), y.drop_last(), sep);
        assert(x.last().sql == y.last().sql);
    } else if x.len() == 1 {
        assert(x[0].sql == y[0].sql);
    }
}

proof fn lemma_items_sql(column: Seq<char>, s: Seq<Seq<char>>, t: Seq<Seq<char>>, sep: Seq<char>)
    requires
        s.len() == t.len(),
    ensures
        joined_frags(like_items(column, s), sep).sql == joined_frags(like_items(column, t), sep).sql,
        joined_frags(eq_items(column, s), sep).sql == joined_frags(eq_items(column, t), sep).sql,
        joined_frags(s.map_values(|v: Seq<char>| place_eq_item(v)), sep).sql == joined_frags(
            t.map_values(|v: Seq<char>| place_eq_item(v)),
            sep,
        ).sql,
        joined_frags(s.map_values(|v: Seq<char>| place_like_item(v)), sep).sql == joined_frags(
            t.map_values(|v: Seq<char>| place_like_item(v)),
            sep,
        ).sql,
{
    assert forall|i: int| 0 <= i < s.len() implies #[trigger] like_items(column, s)[i].sql
        == like_items(column, t)[i].sql by {
        assert(like_items(column, s)[i] == like_item(column, s[i]));
        assert(like_items(column, t)[i] == like_item(column, t[i]));
    }
    lemma_joined_sql(like_items(column, s), like_items(column, t), sep);
    assert forall|i: int| 0 <= i < s.len() implies #[trigger] eq_items(column, s)[i].sql
        == eq_items(column, t)[i].sql by {
        assert(eq_items(column, s)[i] == eq_item(column, s[i]));
        assert(eq_items(column, t)[i] == eq_item(column, t[i]));
    }
    lemma_joined_sql(eq_items(column, s), eq_items(column, t), sep);
    let pe_s = s.map_values(|v: Seq<char>| place_eq_item(v));
    let pe_t = t.map_values(|v: Seq<char>| place_eq_item(v));
    assert forall|i: int| 0 <= i < s.len() implies #[trigger] pe_s[i].sql == pe_t[i].sql by {
        assert(pe_s[i] == place_eq_item(s[i]));
        assert(pe_t[i] == place_eq_item(t[i]));
    }
    lemma_joined_sql(pe_s, pe_t, sep);
    let pl_s = s.map_values(|v: Seq<char>| place_like_item(v));
    let pl_t = t.map_values(|v: Seq<char>| place_like_item(v));
    assert forall|i: int| 0 <= i < s.len() implies #[trigger] pl_s[i].sql == pl_t[i].sql by {
        assert(pl_s[i] == place_like_item(s[i]));
        assert(pl_t[i] == place_like_item(t[i]));
    }
    lemma_joined_sql(pl_s, pl_t, sep);
}

proof fn lemma_text_frag(column: Seq<char>, f: Filter, g: Filter, bare_single: bool)
    requires
        filters_kin(f, g),
    ensures
        text_frag(column, f, bare_single).sql == text_frag(column, g, bare_single).sql,
{
    lemma_filters_kin(f, g);
    let s = text_values(f.values@);
    let t = text_values(g.values@);
    lemma_items_sql(column, s, t, " OR "@);
}

proof fn lemma_relation_frag(
    scalar: Seq<char>,
    table: Seq<char>,
    id_column: Seq<char>,
    text_column: Seq<char>,
    f: Filter,
    g: Filter,
)
    requires
        filters_kin(f, g),
    ensures
        relation_frag(scalar, table, id_column, text_column, f).sql == relation_frag(
            scalar,
            table,
            id_column,
            text_column,
            g,
        ).sql,
{
    lemma_filters_kin(f, g);
    lemma_items_sql(
        crate::search::conditions::dotted(table, text_column),
        text_values(f.values@),
        text_values(g.values@),
        " OR "@,
    );
}

proof fn lemma_link_frag(
    prefix: Seq<char>,
    join_table: Seq<char>,
    owner_column: Seq<char>,
    key_column: Seq<char>,
    linked: Option<Linked>,
    owner: Seq<char>,
    extra: Option<(Seq<char>, i64)>,
    suffix: Seq<char>,
    f: Filter,
    g: Filter,
)
    requires
        filters_kin(f, g),
    ensures
        link_frag(prefix, join_table, owner_column, key_column, linked, owner, extra, suffix, f).sql
            == link_frag(
            prefix,
            join_table,
            owner_column,
            key_column,
            linked,
            owner,
            extra,
            suffix,
            g,
        ).sql,
{
    lemma_filters_kin(f, g);
    match linked {
        Some(l) => lemma_items_sql(
            crate::search::conditions::dotted(l.table, l.text_column),
            text_values(f.values@),
            text_values(g.values@),
            " OR "@,
        ),
        None => {},
    }
    assert(link_tail_frag(join_table, key_column, linked, f).sql == link_tail_frag(
        join_table,
        key_column,
        linked,
        g,
    ).sql);
}

proof fn lemma_date_frag(year: Seq<char>, month: Seq<char>, day: Seq<char>, f: Filter, g: Filter)
    requires
        filters_kin(f, g),
    ensures
        date_frag(year, month, day, f).sql == date_frag(year, month, day, g).sql,
{
    lemma_filters_kin(f, g);
}

proof fn lemma_book_filter_frag(f: Filter, g: Filter)
    requires
        filters_kin(f, g),
    ensures
        book_filter_frag(f).sql == book_filter_frag(g).sql,
{
    lemma_filters_kin(f, g);
    let s = text_values(f.values@);
    let t = text_values(g.values@);
    lemma_text_frag("books.name"@, f, g, true);
    lemma_text_frag("books.isbn"@, f, g, true);
    lemma_text_frag("contents.name"@, f, g, true);
    lemma_relation_frag("books.format_id"@, "formats"@, "id"@, "key"@, f, g);
    lemma_relation_frag("books.series_id"@, "series"@, "id"@, "name"@, f, g);
    lemma_relation_frag("books.publisher_id"@, "publishers"@, "id"@, "name"@, f, g);
    lemma_relation_frag("contents.genre_id"@, "genres"@, "id"@, "key"@, f, g);
    lemma_items_sql("p.name"@, s, t, " OR "@);
    assert(person_name_frag(f).sql == person_name_frag(g).sql);
    match f.field {
        crate::search::filter::FilterField::BookPublicationDate => lemma_date_frag(
            "books.publication_date_year"@,
            "books.publication_date_month"@,
            "books.publication_date_day"@,
            f,
            g,
        ),
        crate::search::filter::FilterField::ContentPublicationDate => lemma_date_frag(
            "contents.publication_date_year"@,
            "contents.publication_date_month"@,
            "contents.publication_date_day"@,
            f,
            g,
        ),
        crate::search::filter::FilterField::BookTag => lemma_link_frag(
            "EXISTS (SELECT 1 FROM "@,
            "x_books_tags"@,
            "book_id"@,
            "tag_id"@,
            crate::search::books::tags_table(),
            "books.id"@,
            None,
            ")"@,
            f,
            g,
        ),
        crate::search::filter::FilterField::BookLanguage { role_id } => lemma_link_frag(
            "EXISTS (SELECT 1 FROM "@,
            "book_languages"@,
            "book_id"@,
            "language_id"@,
            crate::search::books::languages_table(),
            "books.id"@,
            crate::search::books::role_extra(role_id),
            ")"@,
            f,
            g,
        ),
        crate::search::filter::FilterField::ContentTag => lemma_link_frag(
            crate::search::books::content_link_prefix(),
            "x_contents_tags"@,
            "content_id"@,
            "tag_id"@,
            crate::search::books::tags_table(),
            "book_content.content_id"@,
            None,
            ")))"@,
            f,
            g,
        ),
        crate::search::filter::FilterField::ContentLanguage { role_id } => lemma_link_frag(
            crate::search::books::content_link_prefix(),
            "content_languages"@,
            "content_id"@,
            "language_id"@,
            crate::search::books::languages_table(),
            "book_content.content_id"@,
            crate::search::books::role_extra(role_id),
            ")))"@,
            f,
            g,
        ),
        crate::search::filter::FilterField::PersonRole { role_id } => {
            assert(role_ids(role_id, f) == role_ids(role_id, g));
            assert(person_role_frag(role_id, f).sql == person_role_frag(role_id, g).sql);
        },
        crate::search::filter::FilterField::PersonLanguage { role_id } => {
            assert(person_language_frag(role_id, f).sql == person_language_frag(role_id, g).sql);
        },
        crate::search::filter::FilterField::PersonPlace { place_type_id } => {
            assert(place_value_frag(f).sql == place_value_frag(g).sql);
            assert(person_place_frag(place_type_id, f).sql == person_place_frag(
                place_type_id,
                g,
            ).sql);
        },
        crate::search::filter::FilterField::PersonBirthDate => {
            lemma_date_frag("p."@ + "birth"@ + "_date_year"@, "p."@ + "birth"@ + "_date_month"@,
                "p."@ + "birth"@ + "_date_day"@, f, g);
            assert(person_date_frag("birth"@, f).sql == person_date_frag("birth"@, g).sql);
        },
        crate::search::filter::FilterField::PersonDeathDate => {
            lemma_date_frag("p."@ + "death"@ + "_date_year"@, "p."@ + "death"@ + "_date_month"@,
                "p."@ + "death"@ + "_date_day"@, f, g);
            assert(person_date_frag("death"@, f).sql == person_date_frag("death"@, g).sql);
        },
        _ => {},
    }
}

proof fn lemma_content_filter_frag(f: Filter, g: Filter)
    requires
        filters_kin(f, g),
    ensures
        content_filter_frag(f).sql == content_filter_frag(g).sql,
{
    lemma_text_frag("contents.name"@, f, g, false);
    lemma_relation_frag("contents.genre_id"@, "genres"@, "id"@, "key"@, f, g);
    lemma_date_frag(
        "contents.publication_date_year"@,
        "contents.publication_date_month"@,
        "contents.publication_date_day"@,
        f,
        g,
    );
    match f.field {
        crate::search::filter::FilterField::ContentTag => lemma_link_frag(
            "EXISTS (SELECT 1 FROM "@,
            "x_contents_tags"@,
            "content_id"@,
            "tag_id"@,
            crate::search::books::tags_table(),
            "contents.id"@,
            None,
            ")"@,
            f,
            g,
        ),
        crate::search::filter::FilterField::ContentLanguage { role_id } => lemma_link_frag(
            "EXISTS (SELECT 1 FROM "@,
            "content_languages"@,
            "content_id"@,
            "language_id"@,
            crate::search::books::languages_table(),
            "contents.id"@,
            crate::search::books::role_extra(role_id),
            ")"@,
            f,
            g,
        ),
        _ => {},
    }
}

proof fn lemma_set_frag(s: FilterSet, t: FilterSet, target: SearchTarget)
    requires
        sets_kin(s, t),
    ensures
        set_frag(s, target).sql == set_frag(t, target).sql,
{
    let x = s.filters@.map_values(|f: Filter| filter_frag(f, target));
    let y = t.filters@.map_values(|f: Filter| filter_frag(f, target));
    assert forall|i: int| 0 <= i < x.len() implies #[trigger] x[i].sql == y[i].sql by {
        assert(filters_kin(s.filters@[i], t.filters@[i]));
        lemma_book_filter_frag(s.filters@[i], t.filters@[i]);
        lemma_content_filter_frag(s.filters@[i], t.filters@[i]);
    }
    lemma_joined_sql(x, y, crate::search::query::operator_text(s.operator));
}

proof fn lemma_active_sets_kin(s: Seq<FilterSet>, t: Seq<FilterSet>)
    requires
        set_lists_kin(s, t),
    ensures
        set_lists_kin(active_sets(s), active_sets(t)),
    decreases s.len(),
{
    if s.len() > 0 {
        assert(set_lists_kin(s.drop_last(), t.drop_last())) by {
            assert forall|i: int| 0 <= i < s.drop_last().len() implies #[trigger] sets_kin(
                s.drop_last()[i],
                t.drop_last()[i],
            ) by {
                assert(sets_kin(s[i], t[i]));
            }
        }
        lemma_active_sets_kin(s.drop_last(), t.drop_last());
        assert(sets_kin(s[s.len() - 1], t[t.len() - 1]));
        let a = active_sets(s.drop_last());
        let b = active_sets(t.drop_last());
        if s.last().active {
            assert forall|i: int| 0 <= i < a.len() + 1 implies #[trigger] sets_kin(
                a.push(s.last())[i],
                b.push(t.last())[i],
            ) by {
                if i < a.len() {
                    assert(sets_kin(a[i], b[i]));
                }
            }
        }
    }
}

/// The text a user types never becomes SQL text: two searches whose filter
/// sets differ only in the texts typed in them have the same SQL text (the
/// texts go into the parameters).
pub proof fn lemma_typed_text_only_in_parameters(
    s: Seq<FilterSet>,
    t: Seq<FilterSet>,
    target: SearchTarget,
)
    requires
        set_lists_kin(s, t),
    ensures
        search_frag(s, target).sql == search_frag(t, target).sql,
{
    lemma_active_sets_kin(s, t);
    let a = active_sets(s);
    let b = active_sets(t);
    let x = a.map_values(|v: FilterSet| set_frag(v, target));
    let y = b.map_values(|v: FilterSet| set_frag(v, target));
    assert forall|i: int| 0 <= i < x.len() implies #[trigger] x[i].sql == y[i].sql by {
        assert(sets_kin(a[i], b[i]));
        lemma_set_frag(a[i], b[i], target);
    }
    lemma_joined_sql(x, y, " AND "@);
    assert(where_frag(s, target).sql == where_frag(t, target).sql);
}

} // verus!
