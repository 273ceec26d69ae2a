//! The SQL conditions that search filters stand for. Each `*_frag` spec
//! function states the text and parameters of one kind of condition; the
//! `push_*` function of the same name appends exactly that to a query.
//! Every value typed by a user goes into a parameter, never into the text.

use vstd::prelude::*;
use crate::search::filter::{
    filter_id_values, filter_text_values, first_date, first_date_range_value,
    first_date_value, first_range, id_values, partial_date_to_sortable, sortable, sortable_fits,
    text_values, Filter, FilterOperator,
};
use crate::search::sql::{
    bind_int, bind_text, empty_frag, joined_frags, lemma_joined_step, lit, Frag, SqlQuery,
};
use crate::text::views;

verus! {

/// `%v%`: the pattern of a text that contains `v`.
pub open spec fn pct(v: Seq<char>) -> Seq<char> {
    seq!['%'] + v + seq!['%']
}

/// A condition that holds of nothing.
pub open spec fn false_frag() -> Frag {
    lit("1=0"@)
}

/// `a.b`: a column of a table.
pub open spec fn dotted(a: Seq<char>, b: Seq<char>) -> Seq<char> {
    a + seq!['.'] + b
}

/// `column LIKE ? COLLATE NOCASE`, bound to `%v%`.
pub open spec fn like_item(column: Seq<char>, v: Seq<char>) -> Frag {
    lit(column).add(lit(" LIKE "@)).add(bind_text(pct(v))).add(lit(" COLLATE NOCASE"@))
}

/// `column = ? COLLATE NOCASE`, bound to `v`.
pub open spec fn eq_item(column: Seq<char>, v: Seq<char>) -> Frag {
    lit(column).add(lit(" = "@)).add(bind_text(v)).add(lit(" COLLATE NOCASE"@))
}

pub open spec fn like_items(column: Seq<char>, texts: Seq<Seq<char>>) -> Seq<Frag> {
    texts.map_values(|v: Seq<char>| like_item(column, v))
}

pub open spec fn eq_items(column: Seq<char>, texts: Seq<Seq<char>>) -> Seq<Frag> {
    texts.map_values(|v: Seq<char>| eq_item(column, v))
}

/// The items joined with ` OR `, in brackets.
pub open spec fn or_group(items: Seq<Frag>) -> Frag {
    lit("("@).add(joined_frags(items, " OR "@)).add(lit(")"@))
}

/// `column = ?` for one id, else `column IN (?, ?, ...)`.
pub open spec fn id_list_frag(column: Seq<char>, ids: Seq<i64>) -> Frag {
    if ids.len() == 1 {
        lit(column).add(lit(" = "@)).add(bind_int(ids[0] as int))
    } else {
        lit(column).add(lit(" IN ("@)).add(
            joined_frags(ids.map_values(|i: i64| bind_int(i as int)), ", "@),
        ).add(lit(")"@))
    }
}

/// A condition on a text column: `Contains` matches any of the text values
/// as a part, `Equals` matches one of them whole (a lone value without
/// brackets where `bare_single`), ignoring case; without text values, or
/// with another operator, nothing matches.
pub open spec fn text_frag(column: Seq<char>, filter: Filter, bare_single: bool) -> Frag {
    let texts = text_values(filter.values@);
    match filter.operator {
        FilterOperator::Contains => if texts.len() == 0 {
            false_frag()
        } else {
            or_group(like_items(column, texts))
        },
        FilterOperator::Equals => if texts.len() == 0 {
            false_frag()
        } else if bare_single && texts.len() == 1 {
            eq_item(column, texts[0])
        } else {
            or_group(eq_items(column, texts))
        },
        _ => false_frag(),
    }
}

/// The opening of a lookup in `table` for the row that `scalar` points at.
pub open spec fn lookup_head(scalar: Seq<char>, table: Seq<char>, id_column: Seq<char>) -> Frag {
    lit("EXISTS (SELECT 1 FROM "@ + table + " WHERE "@ + dotted(table, id_column) + " = "@ + scalar
        + " AND ("@)
}

/// A condition on a column that points into a lookup table: `Equals` with
/// ids compares the ids, else with texts the looked-up text; `Contains`
/// matches parts of the looked-up text.
pub open spec fn relation_frag(
    scalar: Seq<char>,
    table: Seq<char>,
    id_column: Seq<char>,
    text_column: Seq<char>,
    filter: Filter,
) -> Frag {
    let ids = id_values(filter.values@);
    let texts = text_values(filter.values@);
    match filter.operator {
        FilterOperator::Equals => if ids.len() > 0 {
            id_list_frag(scalar, ids)
        } else if texts.len() > 0 {
            lookup_head(scalar, table, id_column).add(
                joined_frags(eq_items(dotted(table, text_column), texts), " OR "@),
            ).add(lit("))"@))
        } else {
            false_frag()
        },
        FilterOperator::Contains => if texts.len() == 0 {
            false_frag()
        } else {
            lookup_head(scalar, table, id_column).add(
                joined_frags(like_items(dotted(table, text_column), texts), " OR "@),
            ).add(lit("))"@))
        },
        _ => false_frag(),
    }
}

/// The table a link table joins to: its name, id column and text column.
pub struct Linked {
    pub table: Seq<char>,
    pub id_column: Seq<char>,
    pub text_column: Seq<char>,
}

pub open spec fn linked_view(l: Option<(&str, &str, &str)>) -> Option<Linked> {
    match l {
        Some((t, i, x)) => Some(Linked { table: t@, id_column: i@, text_column: x@ }),
        None => None,
    }
}

/// The part of a link-table condition after its `WHERE` clause: which
/// linked rows match.
pub open spec fn link_tail_frag(
    join_table: Seq<char>,
    key_column: Seq<char>,
    linked: Option<Linked>,
    filter: Filter,
) -> Frag {
    let ids = id_values(filter.values@);
    let texts = text_values(filter.values@);
    match filter.operator {
        FilterOperator::Equals => if ids.len() > 0 {
            lit(" AND "@).add(id_list_frag(dotted(join_table, key_column), ids))
        } else if texts.len() > 0 {
            match linked {
                Some(l) => lit(" AND ("@).add(
                    joined_frags(eq_items(dotted(l.table, l.text_column), texts), " OR "@),
                ).add(lit(")"@)),
                None => lit(" AND 1=0"@),
            }
        } else {
            lit(" AND 1=0"@)
        },
        FilterOperator::Contains => if texts.len() == 0 {
            lit(" AND 1=0"@)
        } else {
            match linked {
                Some(l) => lit(" AND ("@).add(
                    joined_frags(like_items(dotted(l.table, l.text_column), texts), " OR "@),
                ).add(lit(")"@)),
                None => lit(" AND 1=0"@),
            }
        },
        _ => lit(" AND 1=0"@),
    }
}

/// A condition on a link table (`join_table`, its `owner_column` pointing
/// at `owner`, its `key_column` at the linked rows), opened by `prefix` and
/// closed by `suffix`, optionally restricted by `extra` (a column and a
/// value).
pub open spec fn link_frag(
    prefix: Seq<char>,
    join_table: Seq<char>,
    owner_column: Seq<char>,
    key_column: Seq<char>,
    linked: Option<Linked>,
    owner: Seq<char>,
    extra: Option<(Seq<char>, i64)>,
    suffix: Seq<char>,
    filter: Filter,
) -> Frag {
    lit(prefix + join_table).add(link_join_frag(join_table, key_column, linked)).add(
        lit(" WHERE "@ + dotted(join_table, owner_column) + " = "@ + owner),
    ).add(link_extra_frag(join_table, extra)).add(
        link_tail_frag(join_table, key_column, linked, filter),
    ).add(lit(suffix))
}

/// Whether the date that a date condition compares with can be made
/// comparable in `i32` arithmetic (see `sortable_fits`).
pub open spec fn date_values_fit(filter: Filter) -> bool {
    match filter.operator {
        FilterOperator::Equals | FilterOperator::Before | FilterOperator::After => (first_date(
            filter.values@,
        ) matches Some(d) ==> sortable_fits(d)),
        FilterOperator::Between => (first_range(filter.values@) matches Some((s, e))
            ==> sortable_fits(s) && sortable_fits(e)),
        FilterOperator::Contains => true,
    }
}

/// The expression that makes a date comparable from its three columns.
pub open spec fn date_expr(year: Seq<char>, month: Seq<char>, day: Seq<char>) -> Seq<char> {
    "(COALESCE("@ + year + ", 0) * 10000 + COALESCE("@ + month + ", 0) * 100 + COALESCE("@ + day
        + ", 0))"@
}

/// A condition on a date: equal to, before or after the first date value,
/// or between the bounds of the first range; nothing matches without such a
/// value or with `Contains`.
pub open spec fn date_frag(year: Seq<char>, month: Seq<char>, day: Seq<char>, filter: Filter) -> Frag {
    let e = lit(date_expr(year, month, day));
    match filter.operator {
        FilterOperator::Equals => match first_date(filter.values@) {
            Some(d) => e.add(lit(" = "@)).add(bind_int(sortable(d))),
            None => false_frag(),
        },
        FilterOperator::Before => match first_date(filter.values@) {
            Some(d) => e.add(lit(" < "@)).add(bind_int(sortable(d))),
            None => false_frag(),
        },
        FilterOperator::After => match first_date(filter.values@) {
            Some(d) => e.add(lit(" > "@)).add(bind_int(sortable(d))),
            None => false_frag(),
        },
        FilterOperator::Between => match first_range(filter.values@) {
            Some((s, t)) => e.add(lit(" BETWEEN "@)).add(bind_int(sortable(s))).add(
                lit(" AND "@),
            ).add(bind_int(sortable(t))),
            None => false_frag(),
        },
        FilterOperator::Contains => false_frag(),
    }
}

// ---------------------------------------------------------------------------
// Executable builders.
// ---------------------------------------------------------------------------

/// `a.b`.
pub fn dotted_name(a: &str, b: &str) -> (r: String)
    ensures
        r@ == dotted(a@, b@),
{
    let mut r = a.to_string();
    r.append(".");
    r.append(b);
    proof {
        reveal_strlit(".");
    }
    r
}

/// `%v%`.
pub fn pattern_of(v: &str) -> (r: String)
    ensures
        r@ == pct(v@),
{
    let mut r = "%".to_string();
    r.append(v);
    r.append("%");
    proof {
        reveal_strlit("%");
    }
    r
}

pub fn push_false(q: &mut SqlQuery)
    ensures
        final(q)@ == old(q)@.add(false_frag()),
{
    q.push("1=0");
}

fn push_like_item(q: &mut SqlQuery, column: &str, v: &str)
    ensures
        final(q)@ == old(q)@.add(like_item(column@, v@)),
{
    let ghost start = q@;
    q.push(column);
    q.push(" LIKE ");
    q.push_bind_text(pattern_of(v));
    q.push(" COLLATE NOCASE");
    assert(q@ =~= start.add(like_item(column@, v@)));
}

fn push_eq_item(q: &mut SqlQuery, column: &str, v: &str)
    ensures
        final(q)@ == old(q)@.add(eq_item(column@, v@)),
{
    let ghost start = q@;
    q.push(column);
    q.push(" = ");
    q.push_bind_text(v.to_string());
    q.push(" COLLATE NOCASE");
    assert(q@ =~= start.add(eq_item(column@, v@)));
}

/// Appends the items `column LIKE ?` (where `like`) or `column = ?` for
/// `texts`, joined with ` OR `.
pub(crate) fn push_text_items(q: &mut SqlQuery, column: &str, texts: &Vec<String>, like: bool)
    ensures
        final(q)@ == old(q)@.add(
            joined_frags(
                if like {
                    like_items(column@, views(texts@))
                } else {
                    eq_items(column@, views(texts@))
                },
                " OR "@,
            ),
        ),
{
    let ghost start = q@;
    let ghost items = if like {
        like_items(column@, views(texts@))
    } else {
        eq_items(column@, views(texts@))
    };
    let mut i: usize = 0;
    proof {
        assert(items.take(0) =~= Seq::<Frag>::empty());
        assert(q@ =~= start.add(joined_frags(items.take(0), " OR "@)));
    }
    while i < texts.len()
        invariant
            i <= texts@.len() == items.len(),
            items == (if like {
                like_items(column@, views(texts@))
            } else {
                eq_items(column@, views(texts@))
            }),
            q@ == start.add(joined_frags(items.take(i as int), " OR "@)),
        decreases texts@.len() - i,
    {
        let ghost before = q@;
        proof {
            lemma_joined_step(items, " OR "@, i as int);
        }
        if i > 0 {
            q.push(" OR ");
        }
        let ghost mid = q@;
        if like {
            push_like_item(q, column, texts[i].as_str());
        } else {
            push_eq_item(q, column, texts[i].as_str());
        }
        proof {
            assert(items[i as int] == (if like {
                like_item(column@, texts@[i as int]@)
            } else {
                eq_item(column@, texts@[i as int]@)
            }));
            let j = joined_frags(items.take(i as int), " OR "@);
            if i > 0 {
                assert(q@ =~= start.add(j.add(lit(" OR "@)).add(items[i as int])));
            } else {
                assert(q@ =~= start.add(items[0]));
            }
        }
        i = i + 1;
    }
    assert(items.take(texts@.len() as int) =~= items);
}

/// Appends `column = ?` for one id, else `column IN (?, ...)`.
pub fn push_id_list_or_single(q: &mut SqlQuery, column: &str, ids: &Vec<i64>)
    ensures
        final(q)@ == old(q)@.add(id_list_frag(column@, ids@)),
{
    let ghost start = q@;
    if ids.len() == 1 {
        q.push(column);
        q.push(" = ");
        q.push_bind_int(ids[0]);
        assert(q@ =~= start.add(id_list_frag(column@, ids@)));
        return;
    }
    q.push(column);
    q.push(" IN (");
    let ghost head = q@;
    let ghost items = ids@.map_values(|i: i64| bind_int(i as int));
    let mut i: usize = 0;
    proof {
        assert(items.take(0) =~= Seq::<Frag>::empty());
        assert(q@ =~= head.add(joined_frags(items.take(0), ", "@)));
    }
    while i < ids.len()
        invariant
            i <= ids@.len() == items.len(),
            items == ids@.map_values(|i: i64| bind_int(i as int)),
            q@ == head.add(joined_frags(items.take(i as int), ", "@)),
        decreases ids@.len() - i,
    {
        proof {
            lemma_joined_step(items, ", "@, i as int);
        }
        if i > 0 {
            q.push(", ");
        }
        q.push_bind_int(ids[i]);
        proof {
            let j = joined_frags(items.take(i as int), ", "@);
            if i > 0 {
                assert(q@ =~= head.add(j.add(lit(", "@)).add(items[i as int])));
            } else {
                assert(q@ =~= head.add(items[0]));
            }
        }
        i = i + 1;
    }
    assert(items.take(ids@.len() as int) =~= items);
    q.push(")");
    assert(q@ =~= start.add(id_list_frag(column@, ids@)));
}

/// Appends `text_frag(column, filter, bare_single)`.
pub fn push_text_filter(q: &mut SqlQuery, column: &str, filter: &Filter, bare_single: bool)
    ensures
        final(q)@ == old(q)@.add(text_frag(column@, *filter, bare_single)),
{
    let ghost start = q@;
    let texts = filter_text_values(&filter.values);
    match filter.operator {
        FilterOperator::Contains => {
            if texts.len() == 0 {
                push_false(q);
                return;
            }
            q.push("(");
            push_text_items(q, column, &texts, true);
            q.push(")");
            assert(q@ =~= start.add(text_frag(column@, *filter, bare_single)));
        },
        FilterOperator::Equals => {
            if texts.len() == 0 {
                push_false(q);
                return;
            }
            if bare_single && texts.len() == 1 {
                push_eq_item(q, column, texts[0].as_str());
                assert(views(texts@)[0] == texts@[0]@);
            } else {
                q.push("(");
                push_text_items(q, column, &texts, false);
                q.push(")");
                assert(q@ =~= start.add(text_frag(column@, *filter, bare_single)));
            }
        },
        _ => push_false(q),
    }
}

/// Appends `relation_frag(scalar, table, id_column, text_column, filter)`.
pub fn push_relation_filter(
    q: &mut SqlQuery,
    scalar: &str,
    table: &str,
    id_column: &str,
    text_column: &str,
    filter: &Filter,
)
    ensures
        final(q)@ == old(q)@.add(relation_frag(scalar@, table@, id_column@, text_column@, *filter)),
{
    let ghost start = q@;
    let ids = filter_id_values(&filter.values);
    let texts = filter_text_values(&filter.values);
    let column = dotted_name(table, text_column);
    match filter.operator {
        FilterOperator::Equals => {
            if ids.len() > 0 {
                push_id_list_or_single(q, scalar, &ids);
            } else if texts.len() > 0 {
                push_lookup_head(q, scalar, table, id_column);
                push_text_items(q, column.as_str(), &texts, false);
                q.push("))");
                assert(q@ =~= start.add(
                    relation_frag(scalar@, table@, id_column@, text_column@, *filter),
                ));
            } else {
                push_false(q);
            }
        },
        FilterOperator::Contains => {
            if texts.len() == 0 {
                push_false(q);
                return;
            }
            push_lookup_head(q, scalar, table, id_column);
            push_text_items(q, column.as_str(), &texts, true);
            q.push("))");
            assert(q@ =~= start.add(
                relation_frag(scalar@, table@, id_column@, text_column@, *filter),
            ));
        },
        _ => push_false(q),
    }
}

fn push_lookup_head(q: &mut SqlQuery, scalar: &str, table: &str, id_column: &str)
    ensures
        final(q)@ == old(q)@.add(lookup_head(scalar@, table@, id_column@)),
{
    let ghost start = q@;
    q.push("EXISTS (SELECT 1 FROM ");
    q.push(table);
    q.push(" WHERE ");
    q.push(table);
    q.push(".");
    q.push(id_column);
    q.push(" = ");
    q.push(scalar);
    q.push(" AND (");
    proof {
        reveal_strlit(".");
    }
    assert(q@ =~= start.add(lookup_head(scalar@, table@, id_column@)));
}

/// The `JOIN` of a link table to the table it links to.
pub open spec fn link_join_frag(join_table: Seq<char>, key_column: Seq<char>, linked: Option<Linked>) -> Frag {
    match linked {
        Some(l) => lit(
            " JOIN "@ + l.table + " ON "@ + dotted(l.table, l.id_column) + " = "@ + dotted(
                join_table,
                key_column,
            ),
        ),
        None => empty_frag(),
    }
}

/// The restriction of a link table by a column and a value.
pub open spec fn link_extra_frag(join_table: Seq<char>, extra: Option<(Seq<char>, i64)>) -> Frag {
    match extra {
        Some((c, v)) => lit(" AND "@ + dotted(join_table, c) + " = "@).add(bind_int(v as int)),
        None => empty_frag(),
    }
}

pub open spec fn extra_view(extra: Option<(&str, i64)>) -> Option<(Seq<char>, i64)> {
    match extra {
        Some((c, v)) => Some((c@, v)),
        None => None,
    }
}

fn push_link_join(q: &mut SqlQuery, join_table: &str, key_column: &str, linked: Option<(&str, &str, &str)>)
    ensures
        final(q)@ == old(q)@.add(link_join_frag(join_table@, key_column@, linked_view(linked))),
{
    let ghost start = q@;
    if let Some((linked_table, linked_id, _)) = linked {
        q.push(" JOIN ");
        q.push(linked_table);
        q.push(" ON ");
        q.push(dotted_name(linked_table, linked_id).as_str());
        q.push(" = ");
        q.push(dotted_name(join_table, key_column).as_str());
    }
    assert(q@ =~= start.add(link_join_frag(join_table@, key_column@, linked_view(linked))));
}

fn push_link_extra(q: &mut SqlQuery, join_table: &str, extra: Option<(&str, i64)>)
    ensures
        final(q)@ == old(q)@.add(link_extra_frag(join_table@, extra_view(extra))),
{
    let ghost start = q@;
    if let Some((extra_column, extra_value)) = extra {
        q.push(" AND ");
        q.push(dotted_name(join_table, extra_column).as_str());
        q.push(" = ");
        let ghost mid = q@;
        q.push_bind_int(extra_value);
        assert(mid =~= start.add(lit(" AND "@ + dotted(join_table@, extra_column@) + " = "@)));
    }
    assert(q@ =~= start.add(link_extra_frag(join_table@, extra_view(extra))));
}

fn push_link_tail(
    q: &mut SqlQuery,
    join_table: &str,
    key_column: &str,
    linked: Option<(&str, &str, &str)>,
    filter: &Filter,
)
    ensures
        final(q)@ == old(q)@.add(
            link_tail_frag(join_table@, key_column@, linked_view(linked), *filter),
        ),
{
    let ghost start = q@;
    let ids = filter_id_values(&filter.values);
    let texts = filter_text_values(&filter.values);
    match filter.operator {
        FilterOperator::Equals => {
            if ids.len() > 0 {
                q.push(" AND ");
                push_id_list_or_single(q, dotted_name(join_table, key_column).as_str(), &ids);
            } else if texts.len() > 0 {
                if let Some((linked_table, _, linked_text)) = linked {
                    q.push(" AND (");
                    push_text_items(q, dotted_name(linked_table, linked_text).as_str(), &texts, false);
                    q.push(")");
                } else {
                    q.push(" AND 1=0");
                }
            } else {
                q.push(" AND 1=0");
            }
        },
        FilterOperator::Contains => {
            if texts.len() == 0 {
                q.push(" AND 1=0");
            } else if let Some((linked_table, _, linked_text)) = linked {
                q.push(" AND (");
                push_text_items(q, dotted_name(linked_table, linked_text).as_str(), &texts, true);
                q.push(")");
            } else {
                q.push(" AND 1=0");
            }
        },
        _ => {
            q.push(" AND 1=0");
        },
    }
    assert(q@ =~= start.add(link_tail_frag(join_table@, key_column@, linked_view(linked), *filter)));
}

/// Appends `link_frag(...)` for the given tables and filter.
pub fn push_link_filter(
    q: &mut SqlQuery,
    prefix: &str,
    join_table: &str,
    owner_column: &str,
    key_column: &str,
    linked: Option<(&str, &str, &str)>,
    owner: &str,
    extra: Option<(&str, i64)>,
    suffix: &str,
    filter: &Filter,
)
    ensures
        final(q)@ == old(q)@.add(
            link_frag(
                prefix@,
                join_table@,
                owner_column@,
                key_column@,
                linked_view(linked),
                owner@,
                extra_view(extra),
                suffix@,
                *filter,
            ),
        ),
{
    let ghost start = q@;
    q.push(prefix);
    q.push(join_table);
    let ghost a = q@;
    push_link_join(q, join_table, key_column, linked);
    let ghost b = q@;
    q.push(" WHERE ");
    q.push(dotted_name(join_table, owner_column).as_str());
    q.push(" = ");
    q.push(owner);
    let ghost c = q@;
    push_link_extra(q, join_table, extra);
    let ghost d = q@;
    push_link_tail(q, join_table, key_column, linked, filter);
    let ghost e = q@;
    q.push(suffix);
    proof {
        let lv = linked_view(linked);
        let xv = extra_view(extra);
        assert(a =~= start.add(lit(prefix@ + join_table@)));
        assert(c =~= b.add(lit(" WHERE "@ + dotted(join_table@, owner_column@) + " = "@ + owner@)));
        let f1 = lit(prefix@ + join_table@);
        let f2 = link_join_frag(join_table@, key_column@, lv);
        let f3 = lit(" WHERE "@ + dotted(join_table@, owner_column@) + " = "@ + owner@);
        let f4 = link_extra_frag(join_table@, xv);
        let f5 = link_tail_frag(join_table@, key_column@, lv, *filter);
        let f6 = lit(suffix@);
        assert(q@ =~= start.add(f1).add(f2).add(f3).add(f4).add(f5).add(f6));
        assert(f1.add(f2).add(f3).add(f4).add(f5).add(f6) == link_frag(
            prefix@,
            join_table@,
            owner_column@,
            key_column@,
            lv,
            owner@,
            xv,
            suffix@,
            *filter,
        ));
        assert(q@ =~= start.add(f1.add(f2).add(f3).add(f4).add(f5).add(f6)));
    }
}

/// Appends `date_frag(year, month, day, filter)`; every date among the
/// filter's values must be comparable in `i32` arithmetic.
pub fn push_date_filter(q: &mut SqlQuery, year: &str, month: &str, day: &str, filter: &Filter)
    requires
        date_values_fit(*filter),
    ensures
        final(q)@ == old(q)@.add(date_frag(year@, month@, day@, *filter)),
{
    let ghost start = q@;
    match filter.operator {
        FilterOperator::Contains => {
            push_false(q);
            return;
        },
        FilterOperator::Between => {
            match first_date_range_value(&filter.values) {
                Some((s, t)) => {
                    push_date_expr(q, year, month, day);
                    q.push(" BETWEEN ");
                    q.push_bind_int(partial_date_to_sortable(s) as i64);
                    q.push(" AND ");
                    q.push_bind_int(partial_date_to_sortable(t) as i64);
                    assert(q@ =~= start.add(date_frag(year@, month@, day@, *filter)));
                },
                None => push_false(q),
            }
            return;
        },
        _ => {},
    }
    match first_date_value(&filter.values) {
        Some(d) => {
            push_date_expr(q, year, month, day);
            match filter.operator {
                FilterOperator::Equals => q.push(" = "),
                FilterOperator::Before => q.push(" < "),
                _ => q.push(" > "),
            }
            q.push_bind_int(partial_date_to_sortable(d) as i64);
            assert(q@ =~= start.add(date_frag(year@, month@, day@, *filter)));
        },
        None => push_false(q),
    }
}

fn push_date_expr(q: &mut SqlQuery, year: &str, month: &str, day: &str)
    ensures
        final(q)@ == old(q)@.add(lit(date_expr(year@, month@, day@))),
{
    let ghost start = q@;
    q.push("(COALESCE(");
    q.push(year);
    q.push(", 0) * 10000 + COALESCE(");
    q.push(month);
    q.push(", 0) * 100 + COALESCE(");
    q.push(day);
    q.push(", 0))");
    assert(q@ =~= start.add(lit(date_expr(year@, month@, day@))));
}

} // verus!
