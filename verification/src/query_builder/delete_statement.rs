//! The `DELETE` statement.

use vstd::prelude::*;
use crate::query_builder::fragment::{
    Expression,
    QueryFragment,
    clause_parts,
    returning_parts,
    returning_types,
    walk_clause,
    walk_returning,
};
use crate::query_builder::parts::{Part, SqlPart, parts_view};
use crate::query_source::Table;
use crate::types::SqlType;

verus! {

/// Deletes the rows of a table that meet a predicate, or all of them.
#[derive(Debug, PartialEq, Eq)]
pub struct DeleteStatement {
    pub table: Table,
    pub where_clause: Option<Vec<QueryFragment>>,
    pub returning: Option<Vec<Expression>>,
}

impl DeleteStatement {
    /// Written as `DELETE FROM`, the table, then the optional `WHERE` and
    /// `RETURNING` clauses.
    pub open spec fn parts(self) -> Seq<SqlPart>
        decreases self,
    {
        seq![SqlPart::Sql("DELETE FROM "@), SqlPart::Identifier(self.table.name@)] + clause_parts(
            " WHERE "@,
            self.where_clause,
        ) + returning_parts(self.returning)
    }

    /// The SQL types of the rows this statement yields: those of its
    /// `RETURNING` clause.
    pub open spec fn sql_types(self) -> Seq<SqlType> {
        returning_types(self.returning)
    }

    /// A statement that deletes from `table` the rows that meet
    /// `where_clause`, and yields no rows.
    pub fn new(table: Table, where_clause: Option<Vec<QueryFragment>>) -> (statement: Self)
        ensures
            statement == (DeleteStatement { table, where_clause, returning: None }),
    {
        DeleteStatement { table, where_clause, returning: None }
    }

    /// This statement, yielding `expressions` of every row it deletes.
    pub fn returning(self, expressions: Vec<Expression>) -> (statement: Self)
        ensures
            statement == (DeleteStatement {
                table: self.table,
                where_clause: self.where_clause,
                returning: Some(expressions),
            }),
    {
        DeleteStatement {
            table: self.table,
            where_clause: self.where_clause,
            returning: Some(expressions),
        }
    }

    /// Walks this statement and appends its leaf pieces to `out`.
    pub fn walk<'a>(&'a self, out: &mut Vec<Part<'a>>)
        ensures
            parts_view(final(out)@) == parts_view(old(out)@) + self.parts(),
        decreases self,
    {
        out.push(Part::Sql("DELETE FROM "));
        out.push(Part::Identifier(self.table.name.as_str()));
        walk_clause(" WHERE ", &self.where_clause, out);
        walk_returning(&self.returning, out);
    }
}

} // verus!
