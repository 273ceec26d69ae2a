//! What the search conditions mean, stated over the text and parameters of
//! the query: how a date is compared, how a set joins its filters, and what
//! an exact text match binds.

use vstd::prelude::*;
use crate::domain::PartialDate;
use crate::search::conditions::text_frag;
use crate::search::filter::{first_date, first_range, text_values, Filter, FilterField, FilterOperator, FilterSet, LogicalOperator};
use crate::search::query::{filter_frag, set_frag, SearchTarget};
use crate::search::sql::{joined_frags, BindView, Frag};
use crate::text::joined;

verus! {

/// A date as a number that orders dates: the year times ten thousand, the
/// month times a hundred, and the day, each missing part 0.
pub open spec fn date_number(d: PartialDate) -> int {
    (match d.year {
        Some(y) => y as int,
        None => 0,
    }) * 10000 + (match d.month {
        Some(m) => m as int,
        None => 0,
    }) * 100 + (match d.day {
        Some(x) => x as int,
        None => 0,
    })
}

/// The columns that hold the publication date of the records searched.
pub open spec fn date_columns(target: SearchTarget) -> (Seq<char>, Seq<char>, Seq<char>) {
    match target {
        SearchTarget::Books => (
            "books.publication_date_year"@,
            "books.publication_date_month"@,
            "books.publication_date_day"@,
        ),
        SearchTarget::Contents => (
            "contents.publication_date_year"@,
            "contents.publication_date_month"@,
            "contents.publication_date_day"@,
        ),
    }
}

/// The number a record's date columns make, as SQL.
pub open spec fn record_date_number(target: SearchTarget) -> Seq<char> {
    let (y, m, d) = date_columns(target);
    "(COALESCE("@ + y + ", 0) * 10000 + COALESCE("@ + m + ", 0) * 100 + COALESCE("@ + d
        + ", 0))"@
}

/// The filter on the publication date of the records searched.
pub open spec fn publication_date_field(target: SearchTarget) -> FilterField {
    match target {
        SearchTarget::Books => FilterField::BookPublicationDate,
        SearchTarget::Contents => FilterField::ContentPublicationDate,
    }
}

/// A publication date filter keeps the records dated strictly before its
/// first date where its operator is Before, strictly after it where it is
/// After: the record's date number is compared with `<`, or with `>`, to
/// the date's number, bound as the one parameter.
pub proof fn lemma_date_filter_compares_strictly(filter: Filter, target: SearchTarget, d: PartialDate)
    requires
        filter.field == publication_date_field(target),
        filter.operator == FilterOperator::Before || filter.operator == FilterOperator::After,
        first_date(filter.values@) == Some(d),
    ensures
        filter_frag(filter, target).sql == record_date_number(target) + (
        if filter.operator == FilterOperator::Before {
            seq![' ', '<', ' ', '?']
        } else {
            seq![' ', '>', ' ', '?']
        }),
        filter_frag(filter, target).binds == seq![BindView::Int(date_number(d))],
{
    reveal_strlit(" < ");
    reveal_strlit(" > ");
    let f = filter_frag(filter, target);
    assert(f.sql =~= record_date_number(target) + (if filter.operator == FilterOperator::Before {
        seq![' ', '<', ' ', '?']
    } else {
        seq![' ', '>', ' ', '?']
    }));
    assert(f.binds =~= seq![BindView::Int(date_number(d))]);
}

/// The SQL text of a join is the join of the texts.
pub proof fn lemma_joined_frags_sql(items: Seq<Frag>, sep: Seq<char>)
    ensures
        joined_frags(items, sep).sql == joined(items.map_values(|f: Frag| f.sql), sep),
    decreases items.len(),
{
    let texts = items.map_values(|f: Frag| f.sql);
    if items.len() > 1 {
        lemma_joined_frags_sql(items.drop_last(), sep);
        assert(items.drop_last().map_values(|f: Frag| f.sql) =~= texts.drop_last());
    }
}

/// The parameters of a join of items that bind one each are those, in
/// order.
pub proof fn lemma_joined_frags_single_binds(items: Seq<Frag>, sep: Seq<char>)
    requires
        forall|k: int| 0 <= k < items.len() ==> (#[trigger] items[k]).binds.len() == 1,
    ensures
        joined_frags(items, sep).binds == items.map_values(|f: Frag| f.binds[0]),
    decreases items.len(),
{
    if items.len() == 0 {
        assert(items.map_values(|f: Frag| f.binds[0]) =~= Seq::<BindView>::empty());
    } else if items.len() == 1 {
        assert(items[0].binds =~= seq![items[0].binds[0]]);
        assert(items.map_values(|f: Frag| f.binds[0]) =~= seq![items[0].binds[0]]);
    } else {
        let front = items.drop_last();
        assert forall|k: int| 0 <= k < front.len() implies (#[trigger] front[k]).binds.len() == 1 by {
            assert(front[k] == items[k]);
        }
        lemma_joined_frags_single_binds(front, sep);
        assert(items.last().binds =~= seq![items.last().binds[0]]);
        assert(items.map_values(|f: Frag| f.binds[0]) =~= front.map_values(
            |f: Frag| f.binds[0],
        ).push(items.last().binds[0]));
    }
}

/// A filter set with filters joins their conditions with " OR " where its
/// operator is Or and with " AND " where it is And, in brackets: a record
/// matches an Or set where it matches any filter, an And set where it
/// matches every one.
pub proof fn lemma_set_joins_by_its_operator(set: FilterSet, target: SearchTarget)
    requires
        set.filters@.len() > 0,
    ensures
        set_frag(set, target).sql == seq!['('] + joined(
            set.filters@.map_values(|f: Filter| filter_frag(f, target).sql),
            if set.operator == LogicalOperator::Or {
                seq![' ', 'O', 'R', ' ']
            } else {
                seq![' ', 'A', 'N', 'D', ' ']
            },
        ) + seq![')'],
{
    reveal_strlit(" OR ");
    reveal_strlit(" AND ");
    reveal_strlit("(");
    reveal_strlit(")");
    let items = set.filters@.map_values(|f: Filter| filter_frag(f, target));
    let sep = if set.operator == LogicalOperator::Or {
        seq![' ', 'O', 'R', ' ']
    } else {
        seq![' ', 'A', 'N', 'D', ' ']
    };
    assert(crate::search::query::operator_text(set.operator) =~= sep);
    lemma_joined_frags_sql(items, sep);
    assert(items.map_values(|f: Frag| f.sql) =~= set.filters@.map_values(
        |f: Filter| filter_frag(f, target).sql,
    ));
}

/// A text condition with Equals binds exactly the filter's text values, in
/// order, each compared whole with `=`; with Contains it binds each of them
/// wrapped in `%`, to match it as a part with LIKE. Without text values
/// nothing is bound.
pub proof fn lemma_text_filter_binds(column: Seq<char>, filter: Filter, bare_single: bool)
    requires
        filter.operator == FilterOperator::Equals || filter.operator == FilterOperator::Contains,
    ensures
        ({
            let texts = text_values(filter.values@);
            let f = text_frag(column, filter, bare_single);
            &&& f.binds.len() == texts.len()
            &&& forall|i: int|
                0 <= i < texts.len() ==> #[trigger] f.binds[i] == BindView::Text(
                    if filter.operator == FilterOperator::Equals {
                        texts[i]
                    } else {
                        seq!['%'] + texts[i] + seq!['%']
                    },
                )
        }),
{
    let texts = text_values(filter.values@);
    let f = text_frag(column, filter, bare_single);
    if texts.len() == 0 {
    } else if filter.operator == FilterOperator::Equals && bare_single && texts.len() == 1 {
        assert(f.binds =~= seq![BindView::Text(texts[0])]);
    } else {
        let items = if filter.operator == FilterOperator::Equals {
            crate::search::conditions::eq_items(column, texts)
        } else {
            crate::search::conditions::like_items(column, texts)
        };
        assert forall|k: int| 0 <= k < items.len() implies (#[trigger] items[k]).binds.len() == 1 by {
        }
        lemma_joined_frags_single_binds(items, " OR "@);
        assert(f.binds =~= joined_frags(items, " OR "@).binds);
    }
}

/// An exact text match compares with `=`: a title filter with Equals on one
/// text is `books.name = ? COLLATE NOCASE`, bound to the text as typed.
pub proof fn lemma_exact_title_match(filter: Filter, t: Seq<char>)
    requires
        filter.field == FilterField::BookTitle,
        filter.operator == FilterOperator::Equals,
        text_values(filter.values@) == seq![t],
    ensures
        filter_frag(filter, SearchTarget::Books).sql == "books.name = ? COLLATE NOCASE"@,
        filter_frag(filter, SearchTarget::Books).binds == seq![BindView::Text(t)],
{
    reveal_strlit("books.name = ? COLLATE NOCASE");
    reveal_strlit("books.name");
    reveal_strlit(" = ");
    reveal_strlit(" COLLATE NOCASE");
    let f = filter_frag(filter, SearchTarget::Books);
    assert(f.sql =~= "books.name = ? COLLATE NOCASE"@);
    assert(f.binds =~= seq![BindView::Text(t)]);
}


/// A publication date filter with Equals keeps the records of exactly its
/// first date's number; with Between, those whose number lies within the
/// bounds of its first range, both bounds included.
pub proof fn lemma_date_filter_equals_and_between(filter: Filter, target: SearchTarget)
    requires
        filter.field == publication_date_field(target),
    ensures
        filter.operator == FilterOperator::Equals ==> (first_date(filter.values@) matches Some(d)
            ==> filter_frag(filter, target).sql == record_date_number(target) + seq![' ', '=', ' ', '?']
            && filter_frag(filter, target).binds == seq![BindView::Int(date_number(d))]),
        filter.operator == FilterOperator::Between ==> (first_range(filter.values@) matches Some(
            (a, b),
        ) ==> filter_frag(filter, target).sql == record_date_number(target) + " BETWEEN ? AND ?"@
            && filter_frag(filter, target).binds == seq![
            BindView::Int(date_number(a)),
            BindView::Int(date_number(b)),
        ]),
{
    reveal_strlit(" = ");
    reveal_strlit(" BETWEEN ");
    reveal_strlit(" AND ");
    reveal_strlit(" BETWEEN ? AND ?");
    let f = filter_frag(filter, target);
    if filter.operator == FilterOperator::Equals {
        if let Some(d) = first_date(filter.values@) {
            assert(f.sql =~= record_date_number(target) + seq![' ', '=', ' ', '?']);
            assert(f.binds =~= seq![BindView::Int(date_number(d))]);
        }
    }
    if filter.operator == FilterOperator::Between {
        if let Some((a, b)) = first_range(filter.values@) {
            assert(f.sql =~= record_date_number(target) + " BETWEEN ? AND ?"@);
            assert(f.binds =~= seq![BindView::Int(date_number(a)), BindView::Int(date_number(b))]);
        }
    }
}

/// The comparison of one text: `column = ? COLLATE NOCASE` to match it
/// whole, `column LIKE ? COLLATE NOCASE` to match it as a part.
pub open spec fn text_test(column: Seq<char>, whole: bool) -> Seq<char> {
    column + (if whole {
        " = ?"@
    } else {
        " LIKE ?"@
    }) + " COLLATE NOCASE"@
}

/// A text condition with text values compares each of them with `=`
/// (Equals) or with LIKE (Contains), the comparisons joined by " OR " in
/// brackets; an Equals on a lone value where `bare_single` is its one
/// comparison without brackets.
pub proof fn lemma_text_filter_sql(column: Seq<char>, filter: Filter, bare_single: bool)
    requires
        filter.operator == FilterOperator::Equals || filter.operator == FilterOperator::Contains,
        text_values(filter.values@).len() > 0,
    ensures
        ({
            let texts = text_values(filter.values@);
            let whole = filter.operator == FilterOperator::Equals;
            text_frag(column, filter, bare_single).sql == if whole && bare_single && texts.len()
                == 1 {
                text_test(column, true)
            } else {
                seq!['('] + joined(
                    Seq::new(texts.len(), |i: int| text_test(column, whole)),
                    " OR "@,
                ) + seq![')']
            }
        }),
{
    reveal_strlit(" = ");
    reveal_strlit(" = ?");
    reveal_strlit(" LIKE ");
    reveal_strlit(" LIKE ?");
    reveal_strlit(" COLLATE NOCASE");
    reveal_strlit("(");
    reveal_strlit(")");
    let texts = text_values(filter.values@);
    let whole = filter.operator == FilterOperator::Equals;
    let f = text_frag(column, filter, bare_single);
    if whole && bare_single && texts.len() == 1 {
        assert(f.sql =~= text_test(column, true));
    } else {
        let items = if whole {
            crate::search::conditions::eq_items(column, texts)
        } else {
            crate::search::conditions::like_items(column, texts)
        };
        lemma_joined_frags_sql(items, " OR "@);
        assert forall|i: int| 0 <= i < texts.len() implies #[trigger] items[i].sql
            == text_test(column, whole) by {
            if whole {
                assert(items[i].sql =~= text_test(column, whole));
            } else {
                assert(items[i].sql =~= text_test(column, whole));
            }
        }
        assert(items.map_values(|g: Frag| g.sql) =~= Seq::new(
            texts.len(),
            |i: int| text_test(column, whole),
        ));
        assert(f.sql =~= seq!['('] + joined_frags(items, " OR "@).sql + seq![')']);
    }
}
} // verus!
