//! What can be done with a query: narrow it, and send it off.

use vstd::prelude::*;
use crate::query_builder::select_statement::SelectStatement;
use crate::query_source::{FilteredTable, Table};
use crate::query_builder::parts::SqlPart;
use crate::types::{Value, ValueView};

pub mod load_dsl;

verus! {

/// Queries that take a `LIMIT` clause.
pub trait LimitDsl: Sized {
    /// This query with a limit of `limit` rows.
    spec fn limited(self, limit: i64) -> SelectStatement;

    /// This query, cut off after `limit` rows. A limit the query had
    /// before is replaced.
    fn limit(self, limit: i64) -> (limited: SelectStatement)
        ensures
            limited == self.limited(limit),
    ;
}

/// A limit adds its clause and changes nothing else: a statement that had
/// neither limit nor offset is written as before, with `LIMIT` and the
/// position of the bound number after it.
pub proof fn lemma_limit_adds_a_clause(statement: SelectStatement, limit: i64)
    requires
        statement.limit is None,
        statement.offset is None,
    ensures
        statement.limited(limit).parts() == statement.parts() + seq![
            SqlPart::Sql(" LIMIT "@),
            SqlPart::Bind(ValueView::BigInt(limit)),
        ],
{
    assert(statement.limited(limit).parts() =~= statement.parts() + seq![
        SqlPart::Sql(" LIMIT "@),
        SqlPart::Bind(ValueView::BigInt(limit)),
    ]);
}

impl LimitDsl for SelectStatement {
    open spec fn limited(self, limit: i64) -> SelectStatement {
        SelectStatement {
            select: self.select,
            from: self.from,
            where_clause: self.where_clause,
            order: self.order,
            limit: Some(Value::BigInt(limit)),
            offset: self.offset,
        }
    }

    fn limit(self, limit: i64) -> (limited: SelectStatement) {
        SelectStatement {
            select: self.select,
            from: self.from,
            where_clause: self.where_clause,
            order: self.order,
            limit: Some(Value::BigInt(limit)),
            offset: self.offset,
        }
    }
}

impl LimitDsl for Table {
    open spec fn limited(self, limit: i64) -> SelectStatement {
        SelectStatement {
            select: None,
            from: Some(self),
            where_clause: None,
            order: None,
            limit: Some(Value::BigInt(limit)),
            offset: None,
        }
    }

    fn limit(self, limit: i64) -> (limited: SelectStatement) {
        SelectStatement::simple(Some(self)).limit(limit)
    }
}

impl LimitDsl for FilteredTable {
    open spec fn limited(self, limit: i64) -> SelectStatement {
        SelectStatement {
            select: None,
            from: Some(self.table),
            where_clause: Some(self.predicate),
            order: None,
            limit: Some(Value::BigInt(limit)),
            offset: None,
        }
    }

    fn limit(self, limit: i64) -> (limited: SelectStatement) {
        SelectStatement {
            select: None,
            from: Some(self.table),
            where_clause: Some(self.predicate),
            order: None,
            limit: Some(Value::BigInt(limit)),
            offset: None,
        }
    }
}

} // verus!
