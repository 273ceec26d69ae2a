//! The search queries: the books, or the contents, that match every active
//! filter set, ordered by name.

use vstd::prelude::*;
use crate::search::books::{book_filter_frag, filter_computable, push_filter_condition};
use crate::search::conditions::{
    date_frag, false_frag, link_frag, push_date_filter, push_false, push_link_filter,
    push_relation_filter, push_text_filter, relation_frag, text_frag,
};
use crate::search::books::{languages_table, role_extra, tags_table};
use crate::domain::PartialDate;
use crate::search::filter::{
    first_date_value, first_date_range_value, sortable_fits, Filter, FilterField, FilterOperator,
    FilterSet, LogicalOperator,
};
use crate::search::sql::{empty_frag, joined_frags, lemma_joined_step, lit, Frag, SqlQuery};

verus! {

/// What a search looks for.
#[derive(Debug, Clone, Copy, PartialEq, Eq, Structural)]
pub enum SearchTarget {
    Books,
    Contents,
}

/// The condition a filter puts on a content; a filter on books or people
/// matches no content.
pub open spec fn content_filter_frag(filter: Filter) -> Frag {
    match filter.field {
        FilterField::ContentTitle => text_frag("contents.name"@, filter, false),
        FilterField::ContentGenre => relation_frag(
            "contents.genre_id"@,
            "genres"@,
            "id"@,
            "key"@,
            filter,
        ),
        FilterField::ContentPublicationDate => date_frag(
            "contents.publication_date_year"@,
            "contents.publication_date_month"@,
            "contents.publication_date_day"@,
            filter,
        ),
        FilterField::ContentTag => link_frag(
            "EXISTS (SELECT 1 FROM "@,
            "x_contents_tags"@,
            "content_id"@,
            "tag_id"@,
            tags_table(),
            "contents.id"@,
            None,
            ")"@,
            filter,
        ),
        FilterField::ContentLanguage { role_id } => link_frag(
            "EXISTS (SELECT 1 FROM "@,
            "content_languages"@,
            "content_id"@,
            "language_id"@,
            languages_table(),
            "contents.id"@,
            role_extra(role_id),
            ")"@,
            filter,
        ),
        _ => false_frag(),
    }
}

pub open spec fn filter_frag(filter: Filter, target: SearchTarget) -> Frag {
    match target {
        SearchTarget::Books => book_filter_frag(filter),
        SearchTarget::Contents => content_filter_frag(filter),
    }
}

pub open spec fn operator_text(op: LogicalOperator) -> Seq<char> {
    match op {
        LogicalOperator::And => " AND "@,
        LogicalOperator::Or => " OR "@,
    }
}

/// The condition of a filter set: its filters joined by its operator, in
/// brackets; a set without filters matches everything.
pub open spec fn set_frag(set: FilterSet, target: SearchTarget) -> Frag {
    if set.filters@.len() == 0 {
        lit("(1=1)"@)
    } else {
        lit("("@).add(
            joined_frags(
                set.filters@.map_values(|f: Filter| filter_frag(f, target)),
                operator_text(set.operator),
            ),
        ).add(lit(")"@))
    }
}

/// The active sets among `sets`, in order.
pub open spec fn active_sets(sets: Seq<FilterSet>) -> Seq<FilterSet>
    decreases sets.len(),
{
    if sets.len() == 0 {
        Seq::empty()
    } else if sets.last().active {
        active_sets(sets.drop_last()).push(sets.last())
    } else {
        active_sets(sets.drop_last())
    }
}

/// ` WHERE ` and the conditions of the active sets joined by ` AND `;
/// nothing where no set is active.
pub open spec fn where_frag(sets: Seq<FilterSet>, target: SearchTarget) -> Frag {
    let active = active_sets(sets);
    if active.len() == 0 {
        empty_frag()
    } else {
        lit(" WHERE "@).add(
            joined_frags(active.map_values(|s: FilterSet| set_frag(s, target)), " AND "@),
        )
    }
}

pub open spec fn select_text(target: SearchTarget) -> Seq<char> {
    match target {
        SearchTarget::Books => "SELECT books.id, books.name, books.isbn, books.publication_date_year, books.publication_date_month, books.publication_date_day, books.publication_date_circa, books.notes FROM books"@,
        SearchTarget::Contents => "SELECT contents.id, contents.name, contents.publication_date_year, contents.publication_date_month, contents.publication_date_day, contents.publication_date_circa, contents.notes FROM contents"@,
    }
}

pub open spec fn order_text(target: SearchTarget) -> Seq<char> {
    match target {
        SearchTarget::Books => " ORDER BY books.name"@,
        SearchTarget::Contents => " ORDER BY contents.name"@,
    }
}

/// The whole search query.
pub open spec fn search_frag(sets: Seq<FilterSet>, target: SearchTarget) -> Frag {
    lit(select_text(target)).add(where_frag(sets, target)).add(lit(order_text(target)))
}

/// Appends the condition a filter puts on a content (`content_filter_frag`).
pub fn push_content_filter_condition(q: &mut SqlQuery, filter: &Filter)
    requires
        filter.field == FilterField::ContentPublicationDate ==> filter_computable(*filter),
    ensures
        final(q)@ == old(q)@.add(content_filter_frag(*filter)),
{
    match filter.field {
        FilterField::ContentTitle => push_text_filter(q, "contents.name", filter, false),
        FilterField::ContentGenre => push_relation_filter(
            q,
            "contents.genre_id",
            "genres",
            "id",
            "key",
            filter,
        ),
        FilterField::ContentPublicationDate => push_date_filter(
            q,
            "contents.publication_date_year",
            "contents.publication_date_month",
            "contents.publication_date_day",
            filter,
        ),
        FilterField::ContentTag => push_link_filter(
            q,
            "EXISTS (SELECT 1 FROM ",
            "x_contents_tags",
            "content_id",
            "tag_id",
            Some(("tags", "id", "name")),
            "contents.id",
            None,
            ")",
            filter,
        ),
        FilterField::ContentLanguage { role_id } => {
            let extra = match role_id {
                Some(id) => Some(("role_id", id)),
                None => None,
            };
            push_link_filter(
                q,
                "EXISTS (SELECT 1 FROM ",
                "content_languages",
                "content_id",
                "language_id",
                Some(("languages", "id", "official_name")),
                "contents.id",
                extra,
                ")",
                filter,
            )
        },
        _ => push_false(q),
    }
}

/// Whether the filters of `set` can be turned into SQL for `target`.
pub open spec fn set_ok(set: FilterSet, target: SearchTarget) -> bool {
    forall|j: int|
        0 <= j < set.filters@.len() ==> match target {
            SearchTarget::Books => filter_computable(#[trigger] set.filters@[j]),
            SearchTarget::Contents => set.filters@[j].field == FilterField::ContentPublicationDate
                ==> filter_computable(set.filters@[j]),
        }
}

/// Appends the condition of a filter set (`set_frag`).
pub fn push_filter_set_condition(q: &mut SqlQuery, set: &FilterSet, target: SearchTarget)
    requires
        set_ok(*set, target),
    ensures
        final(q)@ == old(q)@.add(set_frag(*set, target)),
{
    let ghost start = q@;
    if set.filters.len() == 0 {
        q.push("(1=1)");
        return;
    }
    q.push("(");
    let ghost head = q@;
    let ghost items = set.filters@.map_values(|f: Filter| filter_frag(f, target));
    let ghost sep = operator_text(set.operator);
    let mut i: usize = 0;
    proof {
        assert(items.take(0) =~= Seq::<Frag>::empty());
        assert(q@ =~= head.add(joined_frags(items.take(0), sep)));
    }
    while i < set.filters.len()
        invariant
            i <= set.filters@.len() == items.len(),
            items == set.filters@.map_values(|f: Filter| filter_frag(f, target)),
            sep == operator_text(set.operator),
            set_ok(*set, target),
            q@ == head.add(joined_frags(items.take(i as int), sep)),
        decreases set.filters@.len() - i,
    {
        proof {
            lemma_joined_step(items, sep, i as int);
        }
        if i > 0 {
            match set.operator {
                LogicalOperator::And => q.push(" AND "),
                LogicalOperator::Or => q.push(" OR "),
            }
        }
        let ghost mid = q@;
        let filter = &set.filters[i];
        proof {
            assert(set.filters@[i as int] == *filter);
        }
        match target {
            SearchTarget::Books => push_filter_condition(q, filter),
            SearchTarget::Contents => push_content_filter_condition(q, filter),
        }
        proof {
            assert(items[i as int] == filter_frag(*filter, target));
            let j = joined_frags(items.take(i as int), sep);
            if i > 0 {
                assert(q@ =~= head.add(j.add(lit(sep)).add(items[i as int])));
            } else {
                assert(q@ =~= head.add(items[0]));
            }
        }
        i = i + 1;
    }
    assert(items.take(set.filters@.len() as int) =~= items);
    q.push(")");
    assert(q@ =~= start.add(set_frag(*set, target)));
}

/// Whether every active set's filters can be turned into SQL for `target`.
pub open spec fn sets_ok(sets: Seq<FilterSet>, target: SearchTarget) -> bool {
    forall|i: int| 0 <= i < sets.len() ==> (#[trigger] sets[i]).active ==> set_ok(sets[i], target)
}

/// The query that finds the records of `target` matching every active set
/// of `sets` (see `search_frag`).
pub fn build_search_query(sets: &Vec<FilterSet>, target: SearchTarget) -> (q: SqlQuery)
    requires
        sets_ok(sets@, target),
    ensures
        q@ == search_frag(sets@, target),
{
    let mut q = match target {
        SearchTarget::Books => SqlQuery::new(
            "SELECT books.id, books.name, books.isbn, books.publication_date_year, books.publication_date_month, books.publication_date_day, books.publication_date_circa, books.notes FROM books",
        ),
        SearchTarget::Contents => SqlQuery::new(
            "SELECT contents.id, contents.name, contents.publication_date_year, contents.publication_date_month, contents.publication_date_day, contents.publication_date_circa, contents.notes FROM contents",
        ),
    };
    let ghost base = q@;
    let mut count: usize = 0;
    let mut i: usize = 0;
    proof {
        assert(sets@.take(0) =~= Seq::<FilterSet>::empty());
    }
    while i < sets.len()
        invariant
            i <= sets@.len(),
            sets_ok(sets@, target),
            base == lit(select_text(target)),
            count == active_sets(sets@.take(i as int)).len(),
            count <= i,
            q@ == base.add(where_frag(sets@.take(i as int), target)),
        decreases sets@.len() - i,
    {
        let ghost prefix = sets@.take(i as int);
        let ghost next = sets@.take(i + 1);
        proof {
            assert(next.drop_last() =~= prefix);
            assert(next.last() == sets@[i as int]);
        }
        let set = &sets[i];
        if set.active {
            let ghost act = active_sets(prefix);
            let ghost items = act.map_values(|s: FilterSet| set_frag(s, target));
            let ghost items2 = active_sets(next).map_values(|s: FilterSet| set_frag(s, target));
            proof {
                assert(active_sets(next) == act.push(*set));
                assert(items2.take(count as int) =~= items);
                assert(items2.take(count + 1) =~= items2);
                lemma_joined_step(items2, " AND "@, count as int);
                assert(items2[count as int] == set_frag(*set, target));
            }
            if count == 0 {
                q.push(" WHERE ");
            } else {
                q.push(" AND ");
            }
            push_filter_set_condition(&mut q, set, target);
            proof {
                if count == 0 {
                    assert(q@ =~= base.add(where_frag(next, target)));
                } else {
                    let j = joined_frags(items, " AND "@);
                    assert(where_frag(prefix, target) == lit(" WHERE "@).add(j));
                    assert(q@ =~= base.add(where_frag(next, target)));
                }
            }
            count = count + 1;
        } else {
            proof {
                assert(active_sets(next) == active_sets(prefix));
            }
        }
        i = i + 1;
    }
    proof {
        assert(sets@.take(sets@.len() as int) =~= sets@);
    }
    match target {
        SearchTarget::Books => q.push(" ORDER BY books.name"),
        SearchTarget::Contents => q.push(" ORDER BY contents.name"),
    }
    q
}


/// Keeping the active sets of a list of active sets changes nothing.
pub proof fn lemma_active_sets_idempotent(sets: Seq<FilterSet>)
    ensures
        active_sets(active_sets(sets)) == active_sets(sets),
    decreases sets.len(),
{
    if sets.len() > 0 {
        lemma_active_sets_idempotent(sets.drop_last());
        if sets.last().active {
            let a = active_sets(sets.drop_last());
            assert(a.push(sets.last()).drop_last() =~= a);
            assert(a.push(sets.last()).last() == sets.last());
        }
    }
}

/// Inactive filter sets do not change a search: the query of the sets is
/// the query of their active sets alone.
pub proof fn lemma_inactive_sets_ignored(sets: Seq<FilterSet>, target: SearchTarget)
    ensures
        search_frag(sets, target) == search_frag(active_sets(sets), target),
{
    lemma_active_sets_idempotent(sets);
}

/// With no active filter set the search has no condition and no
/// parameter: all records, in name order.
pub proof fn lemma_no_active_sets_no_condition(sets: Seq<FilterSet>, target: SearchTarget)
    requires
        active_sets(sets).len() == 0,
    ensures
        search_frag(sets, target).sql == select_text(target) + order_text(target),
        search_frag(sets, target).binds.len() == 0,
{
    assert(search_frag(sets, target).sql =~= select_text(target) + order_text(target));
}

/// Whether `sortable(date)` can be computed in `i32` (see `sortable_fits`).
pub fn sortable_date_fits(date: PartialDate) -> (r: bool)
    ensures
        r == sortable_fits(date),
{
    let year: i64 = match date.year {
        Some(y) => y as i64,
        None => 0,
    };
    let month: i64 = match date.month {
        Some(m) => m as i64,
        None => 0,
    };
    let day: i64 = match date.day {
        Some(d) => d as i64,
        None => 0,
    };
    let y = year * 10000;
    (i32::MIN as i64) <= y && y + month * 100 + day <= (i32::MAX as i64)
}

/// Whether a filter can be turned into SQL for `target` (see `set_ok`).
pub fn filter_fits(filter: &Filter, target: SearchTarget) -> (r: bool)
    ensures
        r == (match target {
            SearchTarget::Books => filter_computable(*filter),
            SearchTarget::Contents => filter.field == FilterField::ContentPublicationDate
                ==> filter_computable(*filter),
        }),
{
    let is_date = match filter.field {
        FilterField::BookPublicationDate | FilterField::ContentPublicationDate
        | FilterField::PersonBirthDate | FilterField::PersonDeathDate => true,
        _ => false,
    };
    let checked = match target {
        SearchTarget::Books => is_date,
        SearchTarget::Contents => filter.field == FilterField::ContentPublicationDate,
    };
    if !checked {
        return true;
    }
    match filter.operator {
        FilterOperator::Equals | FilterOperator::Before | FilterOperator::After => {
            match first_date_value(&filter.values) {
                Some(d) => sortable_date_fits(d),
                None => true,
            }
        },
        FilterOperator::Between => match first_date_range_value(&filter.values) {
            Some((a, b)) => sortable_date_fits(a) && sortable_date_fits(b),
            None => true,
        },
        FilterOperator::Contains => true,
    }
}

/// Whether every active set can be turned into SQL (see `sets_ok`).
pub fn sets_fit(sets: &Vec<FilterSet>, target: SearchTarget) -> (r: bool)
    ensures
        r == sets_ok(sets@, target),
{
    let mut i: usize = 0;
    while i < sets.len()
        invariant
            i <= sets@.len(),
            forall|k: int| 0 <= k < i ==> (#[trigger] sets@[k]).active ==> set_ok(sets@[k], target),
        decreases sets@.len() - i,
    {
        if sets[i].active {
            let mut j: usize = 0;
            while j < sets[i].filters.len()
                invariant
                    i < sets@.len(),
                    sets@[i as int].active,
                    j <= sets@[i as int].filters@.len(),
                    forall|k: int|
                        0 <= k < j ==> match target {
                            SearchTarget::Books => filter_computable(
                                #[trigger] sets@[i as int].filters@[k],
                            ),
                            SearchTarget::Contents => sets@[i as int].filters@[k].field
                                == FilterField::ContentPublicationDate ==> filter_computable(
                                sets@[i as int].filters@[k],
                            ),
                        },
                decreases sets@[i as int].filters@.len() - j,
            {
                if !filter_fits(&sets[i].filters[j], target) {
                    proof {
                        assert(!set_ok(sets@[i as int], target));
                        assert(sets@[i as int].active);
                        assert(!sets_ok(sets@, target));
                    }
                    return false;
                }
                j = j + 1;
            }
        }
        i = i + 1;
    }
    true
}

/// The query of the active sets (see `build_search_query`), or `None`
/// where a date they compare with cannot be made comparable in `i32`.
pub fn search_query_checked(sets: &Vec<FilterSet>, target: SearchTarget) -> (r: Option<SqlQuery>)
    ensures
        match r {
            Some(q) => sets_ok(sets@, target) && q@ == search_frag(sets@, target),
            None => !sets_ok(sets@, target),
        },
{
    if sets_fit(sets, target) {
        Some(build_search_query(sets, target))
    } else {
        None
    }
}

} // verus!
