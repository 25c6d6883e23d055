//! The `SELECT` statement.

use vstd::prelude::*;
use crate::query_builder::fragment::{
    Expression,
    QueryFragment,
    clause_parts,
    expression_types,
    expressions_parts,
    walk_clause,
    walk_expressions,
};
use crate::query_builder::parts::{Part, SqlPart, parts_view};
use crate::query_source::{Table, column_types, columns_parts};
use crate::types::{SqlType, Value};

verus! {

/// Reads rows: from a table or from nowhere, all of them or those that
/// meet a predicate, in an order and within a window where these are given.
#[derive(Debug, PartialEq, Eq)]
pub struct SelectStatement {
    /// What a row consists of. `None` stands for every column of the
    /// table, in the table's order.
    pub select: Option<Vec<Expression>>,
    pub from: Option<Table>,
    pub where_clause: Option<Vec<QueryFragment>>,
    pub order: Option<Vec<QueryFragment>>,
    /// The most rows to yield, bound like any other value.
    pub limit: Option<Value>,
    /// The number of rows to skip, bound like any other value.
    pub offset: Option<Value>,
}

/// The select list. Without one of its own a statement selects the columns
/// of its table; without a table either, there is nothing to select.
pub open spec fn select_list_parts(select: Option<Vec<Expression>>, from: Option<Table>) -> Seq<
    SqlPart,
>
    decreases select,
{
    match select {
        Some(expressions) => expressions_parts(expressions@),
        None => match from {
            Some(table) => columns_parts(table.name@, table.columns@),
            None => seq![SqlPart::Refused],
        },
    }
}

/// The `FROM` clause.
pub open spec fn from_parts(from: Option<Table>) -> Seq<SqlPart> {
    match from {
        Some(table) => seq![SqlPart::Sql(" FROM "@), SqlPart::Identifier(table.name@)],
        None => Seq::empty(),
    }
}

/// An optional clause that consists of `keyword` and one bound value.
pub open spec fn bound_clause_parts(keyword: Seq<char>, value: Option<Value>) -> Seq<SqlPart> {
    match value {
        Some(value) => seq![SqlPart::Sql(keyword), SqlPart::Bind(value@)],
        None => Seq::empty(),
    }
}

impl SelectStatement {
    /// Written as `SELECT` and the select list, then the `FROM`, `WHERE`,
    /// `ORDER BY`, `LIMIT` and `OFFSET` clauses that are present, in this
    /// order.
    pub open spec fn parts(self) -> Seq<SqlPart>
        decreases self,
    {
        seq![SqlPart::Sql("SELECT "@)] + select_list_parts(self.select, self.from) + from_parts(
            self.from,
        ) + clause_parts(" WHERE "@, self.where_clause) + clause_parts(
            " ORDER BY "@,
            self.order,
        ) + bound_clause_parts(" LIMIT "@, self.limit) + bound_clause_parts(
            " OFFSET "@,
            self.offset,
        )
    }

    /// The SQL types of the rows this statement yields: those of its
    /// select list, or of the table's columns where it has none.
    pub open spec fn sql_types(self) -> Seq<SqlType> {
        match self.select {
            Some(expressions) => expression_types(expressions@),
            None => match self.from {
                Some(table) => column_types(table.columns@),
                None => Seq::empty(),
            },
        }
    }

    /// The statement that reads every row of `from`, whole; or, without a
    /// table, the statement that has yet to be told what to select.
    pub fn simple(from: Option<Table>) -> (statement: Self)
        ensures
            statement == (SelectStatement {
                select: None,
                from,
                where_clause: None,
                order: None,
                limit: None,
                offset: None,
            }),
    {
        SelectStatement {
            select: None,
            from,
            where_clause: None,
            order: None,
            limit: None,
            offset: None,
        }
    }

    /// This statement with `expressions` as its select list.
    pub fn select(self, expressions: Vec<Expression>) -> (statement: Self)
        ensures
            statement == (SelectStatement {
                select: Some(expressions),
                from: self.from,
                where_clause: self.where_clause,
                order: self.order,
                limit: self.limit,
                offset: self.offset,
            }),
    {
        SelectStatement {
            select: Some(expressions),
            from: self.from,
            where_clause: self.where_clause,
            order: self.order,
            limit: self.limit,
            offset: self.offset,
        }
    }

    /// Walks this statement and appends its leaf pieces to `out`.
    pub fn walk<'a>(&'a self, out: &mut Vec<Part<'a>>)
        ensures
            parts_view(final(out)@) == parts_view(old(out)@) + self.parts(),
        decreases self,
    {
        let ghost start = parts_view(out@);
        out.push(Part::Sql("SELECT "));
        walk_select_list(&self.select, &self.from, out);
        walk_from(&self.from, out);
        let ghost sourced = parts_view(out@);
        walk_clause(" WHERE ", &self.where_clause, out);
        walk_clause(" ORDER BY ", &self.order, out);
        let ghost ordered = parts_view(out@);
        walk_bound_clause(" LIMIT ", &self.limit, out);
        walk_bound_clause(" OFFSET ", &self.offset, out);
        proof {
            let head = seq![SqlPart::Sql("SELECT "@)] + select_list_parts(self.select, self.from)
                + from_parts(self.from);
            let middle = clause_parts(" WHERE "@, self.where_clause) + clause_parts(
                " ORDER BY "@,
                self.order,
            );
            let tail = bound_clause_parts(" LIMIT "@, self.limit) + bound_clause_parts(
                " OFFSET "@,
                self.offset,
            );
            assert(sourced =~= start + head);
            assert(ordered =~= start + (head + middle));
            assert(parts_view(out@) =~= start + (head + middle + tail));
            assert(self.parts() =~= head + middle + tail);
        }
    }
}

/// Walks the select list of a statement.
pub(crate) fn walk_select_list<'a>(
    select: &'a Option<Vec<Expression>>,
    from: &'a Option<Table>,
    out: &mut Vec<Part<'a>>,
)
    ensures
        parts_view(final(out)@) == parts_view(old(out)@) + select_list_parts(*select, *from),
    decreases select,
{
    match select {
        Some(expressions) => {
            walk_expressions(expressions, out);
        },
        None => match from {
            Some(table) => {
                table.walk_columns(out);
            },
            None => {
                out.push(Part::Refused("a select without a table needs a select list"));
            },
        },
    }
}

/// Walks an optional clause that consists of `keyword` and one bound
/// value.
pub(crate) fn walk_bound_clause<'a>(
    keyword: &'static str,
    value: &'a Option<Value>,
    out: &mut Vec<Part<'a>>,
)
    ensures
        parts_view(final(out)@) == parts_view(old(out)@) + bound_clause_parts(keyword@, *value),
{
    match value {
        Some(value) => {
            out.push(Part::Sql(keyword));
            out.push(Part::Bind(value));
        },
        None => {},
    }
}

/// Walks the `FROM` clause of a statement.
pub(crate) fn walk_from<'a>(from: &'a Option<Table>, out: &mut Vec<Part<'a>>)
    ensures
        parts_view(final(out)@) == parts_view(old(out)@) + from_parts(*from),
{
    match from {
        Some(table) => {
            out.push(Part::Sql(" FROM "));
            out.push(Part::Identifier(table.name.as_str()));
        },
        None => {},
    }
}

} // verus!
