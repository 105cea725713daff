//! The statements the store sends to the engine.
//!
//! Every value that comes from a caller is bound to a `?` mark; only the
//! limit of a query, a number, is written into the text.

use crate::query::{Query, QueryView};
use vstd::prelude::*;
use vstd::string::*;

verus! {

/// Makes the table of documents, unless it is there.
pub const CREATE_TABLE: &'static str =
    "CREATE TABLE IF NOT EXISTS objects (id TEXT PRIMARY KEY, data JSON NOT NULL)";

/// Makes the index on the type of the documents, unless it is there.
pub const CREATE_INDEX: &'static str =
    "CREATE INDEX IF NOT EXISTS idx_type ON objects(json_extract(data, '$.type'))";

/// Inserts a document: its identifier, then its data as JSON text.
pub const INSERT: &'static str = "INSERT INTO objects (id, data) VALUES (?, jsonb(?))";

/// Replaces the data of a document: the new data as JSON text, then the
/// identifier.
pub const UPDATE: &'static str = "UPDATE objects SET data = jsonb(?) WHERE id = ?";

/// Deletes the document with the identifier bound.
pub const DELETE: &'static str = "DELETE FROM objects WHERE id = ?";

/// Selects the document with the identifier bound.
pub const SELECT_ONE: &'static str = "SELECT id, json(data) FROM objects WHERE id = ?";

/// Selects every document; the clauses of a query follow it.
pub const SELECT_ALL: &'static str = "SELECT id, json(data) FROM objects WHERE 1=1";

/// Selects the documents whose `links` are an array that holds the string
/// bound.
pub const SELECT_LINKING: &'static str =
    "SELECT id, json(data) FROM objects WHERE json_type(data, '$.links') = 'array' AND EXISTS (SELECT 1 FROM json_each(data, '$.links') WHERE type = 'text' AND value = ?)";

/// Narrows a selection to the documents whose `type` is the string bound.
pub const AND_TYPE: &'static str =
    " AND json_extract(data, '$.type') = ? AND json_type(data, '$.type') = 'text'";

/// Narrows a selection to the documents whose `tags` are an array that
/// holds the string bound.
pub const AND_TAG: &'static str =
    " AND json_type(data, '$.tags') = 'array' AND EXISTS (SELECT 1 FROM json_each(data, '$.tags') WHERE type = 'text' AND value = ?)";

/// Narrows a selection to the documents whose `parent` is the string bound.
pub const AND_PARENT: &'static str =
    " AND json_extract(data, '$.parent') = ? AND json_type(data, '$.parent') = 'text'";

/// Cuts a selection off after the number of rows that follows.
pub const LIMIT: &'static str = " LIMIT ";

/// A statement for the engine: its text, and the values bound to its `?`
/// marks, in their order.
#[derive(Debug, Clone, PartialEq, Eq)]
pub struct Statement {
    pub sql: String,
    pub params: Vec<String>,
}

/// A statement as mathematics.
pub struct StatementView {
    pub sql: Seq<char>,
    pub params: Seq<Seq<char>>,
}

/// The characters of each of the strings in `s`.
pub open spec fn texts(s: Seq<String>) -> Seq<Seq<char>> {
    Seq::new(s.len(), |i: int| s[i]@)
}

impl View for Statement {
    type V = StatementView;

    open spec fn view(&self) -> StatementView {
        StatementView { sql: self.sql@, params: texts(self.params@) }
    }
}

pub open spec fn digit(d: nat) -> char {
    if d == 0 {
        '0'
    } else if d == 1 {
        '1'
    } else if d == 2 {
        '2'
    } else if d == 3 {
        '3'
    } else if d == 4 {
        '4'
    } else if d == 5 {
        '5'
    } else if d == 6 {
        '6'
    } else if d == 7 {
        '7'
    } else if d == 8 {
        '8'
    } else {
        '9'
    }
}

/// `n` in decimal, without leading zeros.
pub open spec fn decimal(n: nat) -> Seq<char>
    decreases n,
{
    if n < 10 {
        seq![digit(n)]
    } else {
        decimal(n / 10).push(digit(n % 10))
    }
}

fn digit_text(d: usize) -> (r: &'static str)
    requires
        d < 10,
    ensures
        r@ == seq![digit(d as nat)],
{
    proof {
        reveal_strlit("0");
        reveal_strlit("1");
        reveal_strlit("2");
        reveal_strlit("3");
        reveal_strlit("4");
        reveal_strlit("5");
        reveal_strlit("6");
        reveal_strlit("7");
        reveal_strlit("8");
        reveal_strlit("9");
    }
    let r = if d == 0 {
        "0"
    } else if d == 1 {
        "1"
    } else if d == 2 {
        "2"
    } else if d == 3 {
        "3"
    } else if d == 4 {
        "4"
    } else if d == 5 {
        "5"
    } else if d == 6 {
        "6"
    } else if d == 7 {
        "7"
    } else if d == 8 {
        "8"
    } else {
        "9"
    };
    assert(r@ =~= seq![digit(d as nat)]);
    r
}

/// Writes `n` in decimal at the end of `out`.
pub fn push_decimal(out: &mut String, n: usize)
    ensures
        final(out)@ == old(out)@ + decimal(n as nat),
    decreases n,
{
    if n >= 10 {
        push_decimal(out, n / 10);
    }
    out.append(digit_text(n % 10));
    assert(out@ =~= old(out)@ + decimal(n as nat));
}

/// The number that the decimal digit `c` stands for.
pub open spec fn digit_value(c: char) -> nat {
    if c == '1' {
        1
    } else if c == '2' {
        2
    } else if c == '3' {
        3
    } else if c == '4' {
        4
    } else if c == '5' {
        5
    } else if c == '6' {
        6
    } else if c == '7' {
        7
    } else if c == '8' {
        8
    } else if c == '9' {
        9
    } else {
        0
    }
}

/// The number that the decimal digits `s` stand for.
pub open spec fn decimal_value(s: Seq<char>) -> nat
    decreases s.len(),
{
    if s.len() == 0 {
        0
    } else {
        decimal_value(s.drop_last()) * 10 + digit_value(s.last())
    }
}

/// The decimal text of a number stands for that number, and has no leading
/// zero unless the number is zero.
pub proof fn law_decimal_reads_back(n: nat)
    ensures
        decimal_value(decimal(n)) == n,
        decimal(n).len() >= 1,
        decimal(n)[0] == '0' <==> n == 0,
    decreases n,
{
    if n >= 10 {
        law_decimal_reads_back(n / 10);
        assert(decimal(n).drop_last() =~= decimal(n / 10));
        assert(decimal(n).last() == digit(n % 10));
        assert(digit_value(digit(n % 10)) == n % 10);
        assert(decimal(n)[0] == decimal(n / 10)[0]);
    } else {
        assert(decimal(n).drop_last() =~= Seq::<char>::empty());
        assert(decimal(n).last() == digit(n));
        assert(digit_value(digit(n)) == n);
        assert(decimal_value(Seq::<char>::empty()) == 0);
    }
}

/// A statement with one bound value.
pub open spec fn bound_one(sql: Seq<char>, a: Seq<char>) -> StatementView {
    StatementView { sql, params: seq![a] }
}

/// A statement with two bound values.
pub open spec fn bound_two(sql: Seq<char>, a: Seq<char>, b: Seq<char>) -> StatementView {
    StatementView { sql, params: seq![a, b] }
}

/// A statement that binds nothing.
pub open spec fn unbound(sql: Seq<char>) -> StatementView {
    StatementView { sql, params: Seq::empty() }
}

/// The clause of a text filter, where the filter is set.
pub open spec fn clause(filter: Option<Seq<char>>, text: Seq<char>) -> Seq<char> {
    match filter {
        Some(_) => text,
        None => Seq::empty(),
    }
}

/// The value of a text filter, where the filter is set.
pub open spec fn bound(filter: Option<Seq<char>>) -> Seq<Seq<char>> {
    match filter {
        Some(value) => seq![value],
        None => Seq::empty(),
    }
}

/// The clause of the limit, where one is set.
pub open spec fn limit_clause(limit: Option<nat>) -> Seq<char> {
    match limit {
        Some(l) => LIMIT@ + decimal(l),
        None => Seq::empty(),
    }
}

/// The text of the selection for `q`: one scan, with the clause of each
/// filter that is set, in the order type, tag, parent, then the limit.
pub open spec fn query_sql(q: QueryView) -> Seq<char> {
    SELECT_ALL@ + clause(q.object_type, AND_TYPE@) + clause(q.tag, AND_TAG@) + clause(
        q.parent,
        AND_PARENT@,
    ) + limit_clause(q.limit)
}

/// The values bound in the selection for `q`: those of the filters that are
/// set, in the order type, tag, parent.
pub open spec fn query_params(q: QueryView) -> Seq<Seq<char>> {
    bound(q.object_type) + bound(q.tag) + bound(q.parent)
}

/// The selection for `q`.
pub open spec fn query_statement(q: QueryView) -> StatementView {
    StatementView { sql: query_sql(q), params: query_params(q) }
}

/// The selection of the documents whose parent is `id`.
pub open spec fn children_statement(id: Seq<char>) -> StatementView {
    bound_one(SELECT_ALL@ + AND_PARENT@, id)
}

impl Statement {
    /// The statement `sql`, which binds nothing.
    pub fn plain(sql: &str) -> (st: Statement)
        ensures
            st@ == unbound(sql@),
    {
        let st = Statement { sql: sql.to_owned(), params: Vec::new() };
        assert(st@.params =~= Seq::empty());
        st
    }

    /// The statement `sql`, which binds `a`.
    pub fn with_one(sql: &str, a: String) -> (st: Statement)
        ensures
            st@ == bound_one(sql@, a@),
    {
        let mut params: Vec<String> = Vec::new();
        params.push(a);
        let st = Statement { sql: sql.to_owned(), params };
        assert(st@.params =~= seq![a@]);
        st
    }

    /// The statement `sql`, which binds `a`, then `b`.
    pub fn with_two(sql: &str, a: String, b: String) -> (st: Statement)
        ensures
            st@ == bound_two(sql@, a@, b@),
    {
        let mut params: Vec<String> = Vec::new();
        params.push(a);
        params.push(b);
        let st = Statement { sql: sql.to_owned(), params };
        assert(st@.params =~= seq![a@, b@]);
        st
    }

    /// The selection for `q`. Filter values are bound, never written into the
    /// text; the limit is written in decimal.
    pub fn for_query(q: &Query) -> (st: Statement)
        ensures
            st@ == query_statement(q@),
    {
        let mut sql = SELECT_ALL.to_owned();
        let mut params: Vec<String> = Vec::new();
        assert(texts(params@) =~= Seq::empty());
        match &q.object_type {
            Some(t) => {
                sql.append(AND_TYPE);
                params.push(t.clone());
            },
            None => {},
        }
        assert(sql@ =~= SELECT_ALL@ + clause(q@.object_type, AND_TYPE@));
        assert(texts(params@) =~= bound(q@.object_type));
        match &q.tag {
            Some(t) => {
                sql.append(AND_TAG);
                params.push(t.clone());
            },
            None => {},
        }
        assert(sql@ =~= SELECT_ALL@ + clause(q@.object_type, AND_TYPE@) + clause(q@.tag, AND_TAG@));
        assert(texts(params@) =~= bound(q@.object_type) + bound(q@.tag));
        match &q.parent {
            Some(p) => {
                sql.append(AND_PARENT);
                params.push(p.clone());
            },
            None => {},
        }
        assert(sql@ =~= SELECT_ALL@ + clause(q@.object_type, AND_TYPE@) + clause(q@.tag, AND_TAG@)
            + clause(q@.parent, AND_PARENT@));
        assert(texts(params@) =~= query_params(q@));
        match q.limit {
            Some(l) => {
                sql.append(LIMIT);
                push_decimal(&mut sql, l);
            },
            None => {},
        }
        assert(sql@ =~= query_sql(q@));
        Statement { sql, params }
    }
}

/// The children of a document are selected as a query with only the parent
/// filter set.
pub proof fn law_children_is_parent_query(id: Seq<char>)
    ensures
        children_statement(id) == query_statement(
            QueryView { parent: Some(id), ..QueryView::unconstrained() },
        ),
{
    let q = QueryView { parent: Some(id), ..QueryView::unconstrained() };
    assert(query_sql(q) =~= SELECT_ALL@ + AND_PARENT@);
    assert(query_params(q) =~= seq![id]);
}

/// The text of a selection does not depend on the values filtered by, only
/// on which filters are set and on the limit: values reach the engine bound.
pub proof fn law_filter_values_are_bound(a: QueryView, b: QueryView)
    requires
        a.object_type is Some <==> b.object_type is Some,
        a.tag is Some <==> b.tag is Some,
        a.parent is Some <==> b.parent is Some,
        a.limit == b.limit,
    ensures
        query_sql(a) == query_sql(b),
{
}

} // verus!
