//! The query description: a table, the projected columns and a conjunction of
//! equality filters, serialised on demand to SQL text and bound parameters.

use vstd::prelude::*;
use vstd::string::*;

verus! {

/// The mathematical content of a query description.
pub struct QueryModel {
    pub table: Seq<char>,
    pub columns: Seq<Seq<char>>,
    pub filters: Seq<(Seq<char>, Seq<char>)>,
}

impl QueryModel {
    /// The description of `SELECT columns FROM table`, without filters.
    pub open spec fn select(table: Seq<char>, columns: Seq<Seq<char>>) -> QueryModel {
        QueryModel { table, columns, filters: Seq::empty() }
    }

    /// The description with one more equality filter at the end.
    pub open spec fn with_filter(self, column: Seq<char>, value: Seq<char>) -> QueryModel {
        QueryModel { filters: self.filters.push((column, value)), ..self }
    }

    /// The description with each of `pairs` added as a filter, in order.
    pub open spec fn with_filters(self, pairs: Seq<(Seq<char>, Seq<char>)>) -> QueryModel
        decreases pairs.len(),
    {
        if pairs.len() == 0 {
            self
        } else {
            self.with_filters(pairs.drop_last()).with_filter(pairs.last().0, pairs.last().1)
        }
    }
}

/// The parts written one after another with `sep` between neighbours.
pub open spec fn joined(parts: Seq<Seq<char>>, sep: Seq<char>) -> Seq<char>
    decreases parts.len(),
{
    if parts.len() == 0 {
        Seq::empty()
    } else if parts.len() == 1 {
        parts[0]
    } else {
        joined(parts.drop_last(), sep) + sep + parts.last()
    }
}

/// The predicate text of one filter: the column, then a positional placeholder.
pub open spec fn condition(column: Seq<char>) -> Seq<char> {
    column + "=?"@
}

/// The predicate texts of the filters, in insertion order.
pub open spec fn conditions(filters: Seq<(Seq<char>, Seq<char>)>) -> Seq<Seq<char>> {
    Seq::new(filters.len(), |i: int| condition(filters[i].0))
}

/// The values to bind: those of the filters, in insertion order.
pub open spec fn parameters(filters: Seq<(Seq<char>, Seq<char>)>) -> Seq<Seq<char>> {
    Seq::new(filters.len(), |i: int| filters[i].1)
}

/// `SELECT <columns> FROM <table>`.
pub open spec fn select_clause(q: QueryModel) -> Seq<char> {
    "SELECT "@ + joined(q.columns, ", "@) + " FROM "@ + q.table
}

/// Nothing without filters; otherwise ` WHERE ` and the conditions joined by ` AND `.
pub open spec fn where_clause(q: QueryModel) -> Seq<char> {
    if q.filters.len() == 0 {
        Seq::empty()
    } else {
        " WHERE "@ + joined(conditions(q.filters), " AND "@)
    }
}

/// The SQL text of a description.
pub open spec fn sql_text(q: QueryModel) -> Seq<char> {
    select_clause(q) + where_clause(q)
}

/// Joining one part more: the first part stands alone, each later one follows a separator.
pub proof fn lemma_joined_step(parts: Seq<Seq<char>>, sep: Seq<char>, n: int)
    requires
        0 <= n < parts.len(),
    ensures
        joined(parts.take(n + 1), sep) == if n == 0 {
            parts[0]
        } else {
            joined(parts.take(n), sep) + sep + parts[n]
        },
{
    assert(parts.take(n + 1).drop_last() =~= parts.take(n));
    assert(parts.take(n + 1).last() == parts[n]);
}

/// A description made by `select` alone serialises to `SELECT`, the columns
/// joined by `, `, ` FROM ` and the table, and binds no parameter.
pub proof fn lemma_select_without_filters(table: Seq<char>, columns: Seq<Seq<char>>)
    ensures
        sql_text(QueryModel::select(table, columns)) == "SELECT "@ + joined(columns, ", "@)
            + " FROM "@ + table,
        parameters(QueryModel::select(table, columns).filters) == Seq::<Seq<char>>::empty(),
{
    let q = QueryModel::select(table, columns);
    assert(sql_text(q) =~= select_clause(q));
    assert(parameters(q.filters) =~= Seq::<Seq<char>>::empty());
}

/// Adding filters one after another keeps the table, the columns and the
/// earlier filters, and puts the new ones behind them in the order given.
pub proof fn lemma_with_filters(q: QueryModel, pairs: Seq<(Seq<char>, Seq<char>)>)
    ensures
        q.with_filters(pairs).table == q.table,
        q.with_filters(pairs).columns == q.columns,
        q.with_filters(pairs).filters == q.filters + pairs,
    decreases pairs.len(),
{
    if pairs.len() == 0 {
        assert(q.filters + pairs =~= q.filters);
    } else {
        lemma_with_filters(q, pairs.drop_last());
        assert(q.filters + pairs =~= (q.filters + pairs.drop_last()).push(pairs.last()));
    }
}

/// After `select` and then filters `(c1, v1) .. (cN, vN)` with `N > 0`, the
/// SQL text is the `SELECT` clause, ` WHERE `, and exactly `N` terms `ci=?`
/// joined by ` AND ` in that order; the parameters are `v1 .. vN` in the same
/// order.
pub proof fn lemma_filters_in_order(
    table: Seq<char>,
    columns: Seq<Seq<char>>,
    pairs: Seq<(Seq<char>, Seq<char>)>,
)
    requires
        pairs.len() > 0,
    ensures
        ({
            let q = QueryModel::select(table, columns).with_filters(pairs);
            let terms = Seq::new(pairs.len(), |i: int| pairs[i].0 + "=?"@);
            let values = Seq::new(pairs.len(), |i: int| pairs[i].1);
            &&& terms.len() == pairs.len()
            &&& sql_text(q) == "SELECT "@ + joined(columns, ", "@) + " FROM "@ + table
                + " WHERE "@ + joined(terms, " AND "@)
            &&& parameters(q.filters) == values
        }),
{
    let start = QueryModel::select(table, columns);
    let q = start.with_filters(pairs);
    lemma_with_filters(start, pairs);
    assert(q.filters =~= pairs);
    let terms = Seq::new(pairs.len(), |i: int| pairs[i].0 + "=?"@);
    let values = Seq::new(pairs.len(), |i: int| pairs[i].1);
    assert(conditions(q.filters) =~= terms);
    assert(parameters(q.filters) =~= values);
    assert(sql_text(q) =~= "SELECT "@ + joined(columns, ", "@) + " FROM "@ + table + " WHERE "@
        + joined(terms, " AND "@));
}

/// Serialising is a function of the description alone: whatever two calls of
/// `build` on one description return, the texts agree and so do the parameters.
pub proof fn lemma_build_repeatable(
    q: QueryModel,
    first: (Seq<char>, Seq<Seq<char>>),
    second: (Seq<char>, Seq<Seq<char>>),
)
    requires
        first.0 == sql_text(q),
        first.1 == parameters(q.filters),
        second.0 == sql_text(q),
        second.1 == parameters(q.filters),
    ensures
        first == second,
{
}

/// Appends to `out` the parts joined by `sep`.
fn append_joined(out: &mut String, parts: &Vec<String>, sep: &str)
    ensures
        final(out)@ == old(out)@ + joined(parts.deep_view(), sep@),
{
    let ghost texts = parts.deep_view();
    let mut i: usize = 0;
    while i < parts.len()
        invariant
            i <= parts.len(),
            texts == parts.deep_view(),
            out@ == old(out)@ + joined(texts.take(i as int), sep@),
        decreases parts.len() - i,
    {
        proof {
            lemma_joined_step(texts, sep@, i as int);
        }
        if i > 0 {
            out.append(sep);
        }
        out.append(parts[i].as_str());
        i += 1;
    }
    assert(texts.take(parts.len() as int) =~= texts);
}

/// A `SELECT` query under construction. Identifiers are trusted as given;
/// filter values are never written into the SQL text, only bound.
#[derive(Debug)]
pub struct QueryBuilder {
    table: String,
    columns: Vec<String>,
    where_clauses: Vec<(String, String)>,
}

impl View for QueryBuilder {
    type V = QueryModel;

    closed spec fn view(&self) -> QueryModel {
        QueryModel {
            table: self.table@,
            columns: self.columns.deep_view(),
            filters: self.where_clauses.deep_view(),
        }
    }
}

impl Clone for QueryBuilder {
    fn clone(&self) -> (r: Self)
        ensures
            r@ == self@,
    {
        let mut columns: Vec<String> = Vec::new();
        let mut i: usize = 0;
        while i < self.columns.len()
            invariant
                i <= self.columns.len(),
                columns.deep_view() == self.columns.deep_view().take(i as int),
            decreases self.columns.len() - i,
        {
            let ghost copied = columns.deep_view();
            columns.push(self.columns[i].clone());
            assert(columns.deep_view() =~= copied.push(self.columns[i as int]@));
            assert(columns.deep_view() =~= self.columns.deep_view().take(i + 1));
            i += 1;
        }
        let mut where_clauses: Vec<(String, String)> = Vec::new();
        let mut j: usize = 0;
        while j < self.where_clauses.len()
            invariant
                j <= self.where_clauses.len(),
                where_clauses.deep_view() == self.where_clauses.deep_view().take(j as int),
            decreases self.where_clauses.len() - j,
        {
            let ghost copied = where_clauses.deep_view();
            let pair = &self.where_clauses[j];
            where_clauses.push((pair.0.clone(), pair.1.clone()));
            assert(where_clauses.deep_view() =~= copied.push((pair.0@, pair.1@)));
            assert(where_clauses.deep_view() =~= self.where_clauses.deep_view().take(j + 1));
            j += 1;
        }
        assert(columns.deep_view() =~= self.columns.deep_view());
        assert(where_clauses.deep_view() =~= self.where_clauses.deep_view());
        QueryBuilder { table: self.table.clone(), columns, where_clauses }
    }
}

impl QueryBuilder {
    /// Describes `SELECT columns FROM table`, with no filter yet. Nothing is
    /// validated: an empty column list is kept as it is.
    pub fn select(table: String, columns: Vec<String>) -> (q: Self)
        ensures
            q@ == QueryModel::select(table@, columns.deep_view()),
    {
        let q = QueryBuilder { table, columns, where_clauses: Vec::new() };
        assert(q.where_clauses.deep_view() =~= Seq::empty());
        q
    }

    /// Adds the filter `column = value` after those already there, and
    /// returns a copy of the description so extended.
    pub fn where_(&mut self, column: String, value: String) -> (r: Self)
        ensures
            final(self)@ == old(self)@.with_filter(column@, value@),
            r@ == final(self)@,
    {
        let ghost before = self.where_clauses.deep_view();
        self.where_clauses.push((column, value));
        assert(self.where_clauses.deep_view() =~= before.push((column@, value@)));
        self.clone()
    }

    /// Serialises the description: the SQL text with one placeholder per
    /// filter, and the values to bind, in the order of the placeholders.
    pub fn build(&self) -> (r: (String, Vec<String>))
        ensures
            r.0@ == sql_text(self@),
            r.1.deep_view() == parameters(self@.filters),
    {
        let mut sql = String::from_str("SELECT ");
        append_joined(&mut sql, &self.columns, ", ");
        sql.append(" FROM ");
        sql.append(self.table.as_str());
        let mut params: Vec<String> = Vec::new();
        if self.where_clauses.len() > 0 {
            let ghost filters = self.where_clauses.deep_view();
            let mut terms: Vec<String> = Vec::new();
            let mut i: usize = 0;
            while i < self.where_clauses.len()
                invariant
                    i <= self.where_clauses.len(),
                    filters == self.where_clauses.deep_view(),
                    terms.deep_view() == conditions(filters).take(i as int),
                    params.deep_view() == parameters(filters).take(i as int),
                decreases self.where_clauses.len() - i,
            {
                let ghost written = terms.deep_view();
                let ghost bound = params.deep_view();
                let pair = &self.where_clauses[i];
                params.push(pair.1.clone());
                terms.push(pair.0.clone().concat("=?"));
                assert(filters[i as int] == (pair.0@, pair.1@));
                assert(params.deep_view() =~= bound.push(pair.1@));
                assert(terms.deep_view() =~= written.push(condition(pair.0@)));
                assert(terms.deep_view() =~= conditions(filters).take(i + 1));
                assert(params.deep_view() =~= parameters(filters).take(i + 1));
                i += 1;
            }
            assert(terms.deep_view() =~= conditions(filters));
            assert(params.deep_view() =~= parameters(filters));
            sql.append(" WHERE ");
            append_joined(&mut sql, &terms, " AND ");
        } else {
            assert(params.deep_view() =~= parameters(self.where_clauses.deep_view()));
        }
        (sql, params)
    }
}

} // verus!
