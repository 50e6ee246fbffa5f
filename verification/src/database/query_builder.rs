//! A fluent builder for `SELECT` queries with `?` placeholders.
//! Running a query is left to the caller, which binds `bindings()` in order.
use vstd::prelude::*;
use vstd::string::*;
use crate::text::{join, join_strings, views, signed_decimal, i64_to_decimal};

verus! {

/// What a query is made of.
pub struct QueryView {
    pub table: Seq<char>,
    pub conditions: Seq<Seq<char>>,
    pub bindings: Seq<Seq<char>>,
    pub select: Option<Seq<char>>,
    pub limit: Option<i64>,
    pub offset: Option<i64>,
    pub order_by: Option<(Seq<char>, Seq<char>)>,
}

/// A query on one table.
pub struct QueryBuilder {
    table: String,
    conditions: Vec<String>,
    bindings: Vec<String>,
    select: Option<String>,
    limit: Option<i64>,
    offset: Option<i64>,
    order_by: Option<(String, String)>,
}

pub open spec fn opt_view(o: Option<String>) -> Option<Seq<char>> {
    match o {
        Some(s) => Some(s@),
        None => None,
    }
}

pub open spec fn pair_view(o: Option<(String, String)>) -> Option<(Seq<char>, Seq<char>)> {
    match o {
        Some(p) => Some((p.0@, p.1@)),
        None => None,
    }
}

impl View for QueryBuilder {
    type V = QueryView;

    closed spec fn view(&self) -> QueryView {
        QueryView {
            table: self.table@,
            conditions: views(self.conditions@),
            bindings: views(self.bindings@),
            select: opt_view(self.select),
            limit: self.limit,
            offset: self.offset,
            order_by: pair_view(self.order_by),
        }
    }
}

/// A query on `table` with no clauses.
pub open spec fn plain_query(table: Seq<char>) -> QueryView {
    QueryView {
        table,
        conditions: Seq::empty(),
        bindings: Seq::empty(),
        select: None,
        limit: None,
        offset: None,
        order_by: None,
    }
}

/// The `WHERE` part: empty when there are no conditions.
pub open spec fn where_sql(q: QueryView) -> Seq<char> {
    if q.conditions.len() == 0 { Seq::empty() } else { " WHERE "@ + join(q.conditions, " AND "@) }
}

/// The `SELECT` statement of a query.
pub open spec fn select_sql(q: QueryView) -> Seq<char> {
    let columns = match q.select { Some(c) => c, None => "*"@ };
    let order = match q.order_by { Some(o) => " ORDER BY "@ + o.0 + " "@ + o.1, None => Seq::empty() };
    let limit = match q.limit { Some(n) => " LIMIT "@ + signed_decimal(n as int), None => Seq::empty() };
    let offset = match q.offset { Some(n) => " OFFSET "@ + signed_decimal(n as int), None => Seq::empty() };
    "SELECT "@ + columns + " FROM "@ + q.table + where_sql(q) + order + limit + offset
}

/// The counting statement of a query.
pub open spec fn count_sql(q: QueryView) -> Seq<char> {
    "SELECT COUNT(*) as count FROM "@ + q.table + where_sql(q)
}

impl QueryBuilder {
    /// A query on `table`.
    pub fn table(table: &str) -> (q: Self)
        ensures
            q@ == plain_query(table@),
    {
        let q = QueryBuilder {
            table: String::from_str(table),
            conditions: Vec::new(),
            bindings: Vec::new(),
            select: None,
            limit: None,
            offset: None,
            order_by: None,
        };
        assert(q@.conditions =~= Seq::<Seq<char>>::empty());
        assert(q@.bindings =~= Seq::<Seq<char>>::empty());
        q
    }

    /// Selects `columns` in place of `*`.
    pub fn select(self, columns: &str) -> (q: Self)
        ensures
            q@ == (QueryView { select: Some(columns@), ..self@ }),
    {
        let mut q = self;
        q.select = Some(String::from_str(columns));
        q
    }

    /// Adds the condition `column operator ?`, bound to `value`.
    pub fn where_clause(self, column: &str, operator: &str, value: &str) -> (q: Self)
        ensures
            q@ == (QueryView {
                conditions: self@.conditions.push(column@ + " "@ + operator@ + " ?"@),
                bindings: self@.bindings.push(value@),
                ..self@
            }),
    {
        let mut q = self;
        let mut condition = String::from_str(column);
        condition.append(" ");
        condition.append(operator);
        condition.append(" ?");
        let ghost cs = q.conditions@;
        let ghost bs = q.bindings@;
        q.conditions.push(condition);
        q.bindings.push(String::from_str(value));
        assert(views(q.conditions@) =~= views(cs).push(condition@));
        assert(views(q.bindings@) =~= views(bs).push(value@));
        q
    }

    /// Limits the number of rows.
    pub fn limit(self, limit: i64) -> (q: Self)
        ensures
            q@ == (QueryView { limit: Some(limit), ..self@ }),
    {
        let mut q = self;
        q.limit = Some(limit);
        q
    }

    /// Skips the first `offset` rows.
    pub fn offset(self, offset: i64) -> (q: Self)
        ensures
            q@ == (QueryView { offset: Some(offset), ..self@ }),
    {
        let mut q = self;
        q.offset = Some(offset);
        q
    }

    /// Orders the rows by `column` in `direction`.
    pub fn order_by(self, column: &str, direction: &str) -> (q: Self)
        ensures
            q@ == (QueryView { order_by: Some((column@, direction@)), ..self@ }),
    {
        let mut q = self;
        q.order_by = Some((String::from_str(column), String::from_str(direction)));
        q
    }

    /// The values bound to the placeholders, in order.
    pub fn bindings(&self) -> (b: &Vec<String>)
        ensures
            views(b@) == self@.bindings,
    {
        &self.bindings
    }

    fn where_part(&self) -> (s: String)
        ensures
            s@ == where_sql(self@),
    {
        if self.conditions.len() == 0 {
            String::new()
        } else {
            let mut s = String::from_str(" WHERE ");
            let conds = join_strings(&self.conditions, " AND ");
            s.append(conds.as_str());
            s
        }
    }

    /// The `SELECT` statement that fetching the rows runs.
    pub fn to_select_sql(&self) -> (s: String)
        ensures
            s@ == select_sql(self@),
    {
        let mut s = String::from_str("SELECT ");
        match &self.select {
            Some(c) => s.append(c.as_str()),
            None => s.append("*"),
        }
        s.append(" FROM ");
        s.append(self.table.as_str());
        let w = self.where_part();
        s.append(w.as_str());
        match &self.order_by {
            Some(o) => {
                s.append(" ORDER BY ");
                s.append(o.0.as_str());
                s.append(" ");
                s.append(o.1.as_str());
            },
            None => {},
        }
        match self.limit {
            Some(n) => {
                s.append(" LIMIT ");
                let d = i64_to_decimal(n);
                s.append(d.as_str());
            },
            None => {},
        }
        match self.offset {
            Some(n) => {
                s.append(" OFFSET ");
                let d = i64_to_decimal(n);
                s.append(d.as_str());
            },
            None => {},
        }
        assert(s@ =~= select_sql(self@));
        s
    }

    /// The statement that counting the rows runs.
    pub fn to_count_sql(&self) -> (s: String)
        ensures
            s@ == count_sql(self@),
    {
        let mut s = String::from_str("SELECT COUNT(*) as count FROM ");
        s.append(self.table.as_str());
        let w = self.where_part();
        s.append(w.as_str());
        s
    }
}

/// Whether every placeholder of `q` has its value: one binding per condition.
pub open spec fn bindings_complete(q: QueryView) -> bool {
    q.conditions.len() == q.bindings.len()
}

/// Every placeholder has exactly one bound value: a new query has neither, and a
/// condition adds one placeholder together with its value; the other clauses add none.
pub proof fn each_placeholder_is_bound(
    q: QueryView,
    table: Seq<char>,
    column: Seq<char>,
    operator: Seq<char>,
    value: Seq<char>,
)
    ensures
        bindings_complete(plain_query(table)),
        bindings_complete(q) ==> bindings_complete(QueryView {
            conditions: q.conditions.push(column + " "@ + operator + " ?"@),
            bindings: q.bindings.push(value),
            ..q
        }),
{
}

/// Counting ignores the selected columns, the order and the paging: only the table
/// and the conditions matter.
pub proof fn count_ignores_presentation(
    q: QueryView,
    select: Option<Seq<char>>,
    limit: Option<i64>,
    offset: Option<i64>,
    order_by: Option<(Seq<char>, Seq<char>)>,
)
    ensures
        count_sql(QueryView { select, limit, offset, order_by, ..q }) == count_sql(q),
{
}

/// Paging comes last: a plain query selects every column of its table, a limit appends ` LIMIT n` to the statement without one, whether
/// or not an offset is set, and an offset appends ` OFFSET m` after everything else.
pub proof fn paging_clauses(q: QueryView, table: Seq<char>, n: i64, m: i64)
    ensures
        select_sql(plain_query(table)) == "SELECT "@ + "*"@ + " FROM "@ + table,
        select_sql(QueryView { limit: Some(n), ..plain_query(table) })
            == "SELECT "@ + "*"@ + " FROM "@ + table + " LIMIT "@ + signed_decimal(n as int),
        select_sql(QueryView { limit: Some(n), offset: None, ..q })
            == select_sql(QueryView { limit: None, offset: None, ..q }) + " LIMIT "@ + signed_decimal(n as int),
        select_sql(QueryView { offset: Some(m), ..q })
            == select_sql(QueryView { offset: None, ..q }) + " OFFSET "@ + signed_decimal(m as int),
        select_sql(QueryView { limit: Some(n), offset: Some(m), ..q })
            == select_sql(QueryView { limit: None, offset: None, ..q }) + " LIMIT "@ + signed_decimal(n as int)
                + " OFFSET "@ + signed_decimal(m as int),
{
    let a = QueryView { limit: Some(n), offset: None, ..q };
    let b = QueryView { limit: None, offset: None, ..q };
    assert(select_sql(a) =~= select_sql(b) + " LIMIT "@ + signed_decimal(n as int));
    let c = QueryView { offset: Some(m), ..q };
    let d = QueryView { offset: None, ..q };
    assert(select_sql(c) =~= select_sql(d) + " OFFSET "@ + signed_decimal(m as int));
    let e = QueryView { limit: Some(n), offset: Some(m), ..q };
    assert(select_sql(e) =~= select_sql(b) + " LIMIT "@ + signed_decimal(n as int) + " OFFSET "@ + signed_decimal(m as int));
    assert(select_sql(plain_query(table)) =~= "SELECT "@ + "*"@ + " FROM "@ + table);
    assert(select_sql(QueryView { limit: Some(n), ..plain_query(table) })
        =~= "SELECT "@ + "*"@ + " FROM "@ + table + " LIMIT "@ + signed_decimal(n as int));
}

} // verus!
