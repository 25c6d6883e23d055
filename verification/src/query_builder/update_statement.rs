//! The `UPDATE` statement, and what an update or a delete is aimed at.

use vstd::prelude::*;
use crate::query_builder::fragment::{
    Assignment,
    Expression,
    QueryFragment,
    clause_parts,
    returning_parts,
    returning_types,
    walk_clause,
    walk_returning,
};
use crate::query_builder::parts::{Part, SqlPart, parts_view};
use crate::query_source::{FilteredTable, Table};
use crate::types::SqlType;

verus! {

/// The rows an update or a delete works on: a table, and the predicate
/// that picks the rows, if there is one.
#[derive(Debug, PartialEq, Eq)]
pub struct UpdateTarget {
    pub table: Table,
    pub where_clause: Option<Vec<QueryFragment>>,
}

/// What can be the target of an update or a delete: whatever yields a
/// table and, where it has one, a predicate.
pub trait IntoUpdateTarget: Sized {
    /// The table and predicate this source yields.
    spec fn update_target(self) -> UpdateTarget;

    /// Takes the source apart into its table and its predicate.
    fn into_update_target(self) -> (target: UpdateTarget)
        ensures
            target == self.update_target(),
    ;
}

impl IntoUpdateTarget for Table {
    open spec fn update_target(self) -> UpdateTarget {
        UpdateTarget { table: self, where_clause: None }
    }

    fn into_update_target(self) -> (target: UpdateTarget) {
        UpdateTarget { table: self, where_clause: None }
    }
}

impl IntoUpdateTarget for FilteredTable {
    open spec fn update_target(self) -> UpdateTarget {
        UpdateTarget { table: self.table, where_clause: Some(self.predicate) }
    }

    fn into_update_target(self) -> (target: UpdateTarget) {
        UpdateTarget { table: self.table, where_clause: Some(self.predicate) }
    }
}

/// An update that knows its target and not yet what to change: it becomes
/// a statement once `set` is called.
#[derive(Debug, PartialEq, Eq)]
pub struct IncompleteUpdateStatement {
    pub table: Table,
    pub where_clause: Option<Vec<QueryFragment>>,
}

impl IncompleteUpdateStatement {
    /// An update of the rows of `target`, with nothing to change yet.
    pub fn new(target: UpdateTarget) -> (statement: Self)
        ensures
            statement == (IncompleteUpdateStatement {
                table: target.table,
                where_clause: target.where_clause,
            }),
    {
        IncompleteUpdateStatement { table: target.table, where_clause: target.where_clause }
    }

    /// The finished statement, which gives every column in `changes` its
    /// new value.
    pub fn set(self, changes: Vec<Assignment>) -> (statement: UpdateStatement)
        ensures
            statement == (UpdateStatement {
                table: self.table,
                changes,
                where_clause: self.where_clause,
                returning: None,
            }),
    {
        UpdateStatement {
            table: self.table,
            changes,
            where_clause: self.where_clause,
            returning: None,
        }
    }
}

/// Gives the rows of a table that meet a predicate, or all of them, new
/// values in some columns.
#[derive(Debug, PartialEq, Eq)]
pub struct UpdateStatement {
    pub table: Table,
    pub changes: Vec<Assignment>,
    pub where_clause: Option<Vec<QueryFragment>>,
    pub returning: Option<Vec<Expression>>,
}

/// The assignments of a `SET` clause: for each, the column, ` = `, and the
/// position of its value, separated by commas. An update that changes
/// nothing cannot be written.
pub open spec fn assignments_parts(changes: Seq<Assignment>) -> Seq<SqlPart>
    decreases changes.len(),
{
    if changes.len() == 0 {
        seq![SqlPart::Refused]
    } else {
        let change = seq![
            SqlPart::Identifier(changes.last().column@),
            SqlPart::Sql(" = "@),
            SqlPart::Bind(changes.last().value@),
        ];
        if changes.len() == 1 {
            change
        } else {
            assignments_parts(changes.drop_last()) + seq![SqlPart::Sql(", "@)] + change
        }
    }
}

/// Walks the assignments of a `SET` clause.
pub(crate) fn walk_assignments<'a>(changes: &'a Vec<Assignment>, out: &mut Vec<Part<'a>>)
    ensures
        parts_view(final(out)@) == parts_view(old(out)@) + assignments_parts(changes@),
{
    if changes.len() == 0 {
        out.push(Part::Refused("an update that changes no column cannot be written"));
        return ;
    }
    let mut i: usize = 0;
    while i < changes.len()
        invariant
            i <= changes.len(),
            changes.len() > 0,
            i > 0 ==> parts_view(out@) == parts_view(old(out)@) + assignments_parts(
                changes@.take(i as int),
            ),
            i == 0 ==> out@ == old(out)@,
        decreases changes.len() - i,
    {
        let ghost before = parts_view(out@);
        if i > 0 {
            out.push(Part::Sql(", "));
        }
        let ghost separated = parts_view(out@);
        out.push(Part::Identifier(changes[i].column.as_str()));
        out.push(Part::Sql(" = "));
        out.push(Part::Bind(&changes[i].value));
        proof {
            let upto = changes@.take(i + 1);
            assert(upto.drop_last() =~= changes@.take(i as int));
            let change = seq![
                SqlPart::Identifier(changes@[i as int].column@),
                SqlPart::Sql(" = "@),
                SqlPart::Bind(changes@[i as int].value@),
            ];
            if i > 0 {
                assert(separated =~= before + seq![SqlPart::Sql(", "@)]);
            }
            assert(parts_view(out@) =~= separated + change);
        }
        i += 1;
    }
    assert(changes@.take(changes.len() as int) =~= changes@);
}

impl UpdateStatement {
    /// Written as `UPDATE`, the table, `SET` and the assignments, then the
    /// optional `WHERE` and `RETURNING` clauses.
    pub open spec fn parts(self) -> Seq<SqlPart>
        decreases self,
    {
        seq![
            SqlPart::Sql("UPDATE "@),
            SqlPart::Identifier(self.table.name@),
            SqlPart::Sql(" SET "@),
        ] + assignments_parts(self.changes@) + clause_parts(" WHERE "@, self.where_clause)
            + returning_parts(self.returning)
    }

    /// The SQL types of the rows this statement yields: those of its
    /// `RETURNING` clause.
    pub open spec fn sql_types(self) -> Seq<SqlType> {
        returning_types(self.returning)
    }

    /// This statement, yielding `expressions` of every row it changes.
    pub fn returning(self, expressions: Vec<Expression>) -> (statement: Self)
        ensures
            statement == (UpdateStatement {
                table: self.table,
                changes: self.changes,
                where_clause: self.where_clause,
                returning: Some(expressions),
            }),
    {
        UpdateStatement {
            table: self.table,
            changes: self.changes,
            where_clause: self.where_clause,
            returning: Some(expressions),
        }
    }

    /// Walks this statement and appends its leaf pieces to `out`.
    pub fn walk<'a>(&'a self, out: &mut Vec<Part<'a>>)
        ensures
            parts_view(final(out)@) == parts_view(old(out)@) + self.parts(),
        decreases self,
    {
        out.push(Part::Sql("UPDATE "));
        out.push(Part::Identifier(self.table.name.as_str()));
        out.push(Part::Sql(" SET "));
        walk_assignments(&self.changes, out);
        walk_clause(" WHERE ", &self.where_clause, out);
        walk_returning(&self.returning, out);
    }
}

} // verus!
