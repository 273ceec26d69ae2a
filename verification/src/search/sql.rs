//! SQL text with bound parameters, built piece by piece.

use vstd::prelude::*;

verus! {

/// A parameter bound to a `?` of the SQL text.
#[derive(Debug, Clone, PartialEq, Eq)]
pub enum BindValue {
    Text(String),
    Int(i64),
}

/// What a bound parameter holds.
pub enum BindView {
    Text(Seq<char>),
    Int(int),
}

impl View for BindValue {
    type V = BindView;

    open spec fn view(&self) -> BindView {
        match self {
            BindValue::Text(s) => BindView::Text(s@),
            BindValue::Int(i) => BindView::Int(*i as int),
        }
    }
}

/// SQL text with `?` where parameters go, and the parameters in order.
#[verifier::ext_equal]
pub struct Frag {
    pub sql: Seq<char>,
    pub binds: Seq<BindView>,
}

impl Frag {
    pub open spec fn add(self, other: Frag) -> Frag {
        Frag { sql: self.sql + other.sql, binds: self.binds + other.binds }
    }
}

/// Nothing.
pub open spec fn empty_frag() -> Frag {
    Frag { sql: Seq::empty(), binds: Seq::empty() }
}

/// SQL text without parameters.
pub open spec fn lit(s: Seq<char>) -> Frag {
    Frag { sql: s, binds: Seq::empty() }
}

/// A text parameter.
pub open spec fn bind_text(s: Seq<char>) -> Frag {
    Frag { sql: seq!['?'], binds: seq![BindView::Text(s)] }
}

/// An integer parameter.
pub open spec fn bind_int(i: int) -> Frag {
    Frag { sql: seq!['?'], binds: seq![BindView::Int(i)] }
}

/// `items` with the text `sep` between each two of them.
pub open spec fn joined_frags(items: Seq<Frag>, sep: Seq<char>) -> Frag
    decreases items.len(),
{
    if items.len() == 0 {
        empty_frag()
    } else if items.len() == 1 {
        items[0]
    } else {
        joined_frags(items.drop_last(), sep).add(lit(sep)).add(items.last())
    }
}

pub proof fn lemma_add_assoc(a: Frag, b: Frag, c: Frag)
    ensures
        a.add(b).add(c) == a.add(b.add(c)),
{
    assert(a.add(b).add(c) =~= a.add(b.add(c)));
}

pub proof fn lemma_add_empty(a: Frag)
    ensures
        a.add(empty_frag()) == a,
        empty_frag().add(a) == a,
{
    assert(a.add(empty_frag()) =~= a);
    assert(empty_frag().add(a) =~= a);
}

/// One step of a list joined with `sep`.
pub proof fn lemma_joined_step(items: Seq<Frag>, sep: Seq<char>, i: int)
    requires
        0 <= i < items.len(),
    ensures
        joined_frags(items.take(i + 1), sep) == (if i == 0 {
            items[0]
        } else {
            joined_frags(items.take(i), sep).add(lit(sep)).add(items[i])
        }),
{
    let t = items.take(i + 1);
    assert(t.drop_last() =~= items.take(i));
    assert(t.last() == items[i]);
    if i == 0 {
        assert(t.len() == 1);
    }
}

/// A query being built: SQL text and parameters.
#[derive(Debug, Clone, PartialEq, Eq)]
pub struct SqlQuery {
    pub sql: String,
    pub binds: Vec<BindValue>,
}

impl View for SqlQuery {
    type V = Frag;

    open spec fn view(&self) -> Frag {
        Frag { sql: self.sql@, binds: self.binds@.map_values(|b: BindValue| b@) }
    }
}

impl SqlQuery {
    /// A query that starts with the text `start`.
    pub fn new(start: &str) -> (q: SqlQuery)
        ensures
            q@ == lit(start@),
    {
        let q = SqlQuery { sql: start.to_string(), binds: Vec::new() };
        assert(q@ =~= lit(start@));
        q
    }

    /// Appends text.
    pub fn push(&mut self, s: &str)
        ensures
            final(self)@ == old(self)@.add(lit(s@)),
    {
        self.sql.append(s);
        assert(final(self)@ =~= old(self)@.add(lit(s@)));
    }

    /// Appends a `?` and binds `s` to it.
    pub fn push_bind_text(&mut self, s: String)
        ensures
            final(self)@ == old(self)@.add(bind_text(s@)),
    {
        self.sql.append("?");
        proof {
            reveal_strlit("?");
        }
        self.binds.push(BindValue::Text(s));
        assert(final(self)@ =~= old(self)@.add(bind_text(s@)));
    }

    /// Appends a `?` and binds `i` to it.
    pub fn push_bind_int(&mut self, i: i64)
        ensures
            final(self)@ == old(self)@.add(bind_int(i as int)),
    {
        self.sql.append("?");
        proof {
            reveal_strlit("?");
        }
        self.binds.push(BindValue::Int(i));
        assert(final(self)@ =~= old(self)@.add(bind_int(i as int)));
    }
}

} // verus!
