//! From what a caller holds to the finished tree that is dispatched.

use vstd::prelude::*;
use crate::query_builder::delete_statement::DeleteStatement;
use crate::query_builder::fragment::QueryFragment;
use crate::query_builder::insert_statement::InsertStatement;
use crate::query_builder::select_statement::SelectStatement;
use crate::query_builder::update_statement::UpdateStatement;
use crate::query_source::{FilteredTable, Table};

verus! {

/// What can be finished into a statement and dispatched.
pub trait AsQuery: Sized {
    /// The finished statement.
    spec fn query(self) -> QueryFragment;

    /// Finishes the statement.
    fn as_query(self) -> (query: QueryFragment)
        ensures
            query == self.query(),
    ;
}

impl AsQuery for QueryFragment {
    open spec fn query(self) -> QueryFragment {
        self
    }

    fn as_query(self) -> (query: QueryFragment) {
        self
    }
}

impl AsQuery for SelectStatement {
    open spec fn query(self) -> QueryFragment {
        QueryFragment::Select(self)
    }

    fn as_query(self) -> (query: QueryFragment) {
        QueryFragment::Select(self)
    }
}

impl AsQuery for InsertStatement {
    open spec fn query(self) -> QueryFragment {
        QueryFragment::Insert(self)
    }

    fn as_query(self) -> (query: QueryFragment) {
        QueryFragment::Insert(self)
    }
}

impl AsQuery for UpdateStatement {
    open spec fn query(self) -> QueryFragment {
        QueryFragment::Update(self)
    }

    fn as_query(self) -> (query: QueryFragment) {
        QueryFragment::Update(self)
    }
}

impl AsQuery for DeleteStatement {
    open spec fn query(self) -> QueryFragment {
        QueryFragment::Delete(self)
    }

    fn as_query(self) -> (query: QueryFragment) {
        QueryFragment::Delete(self)
    }
}

/// A table stands for the statement that reads all its rows, whole.
impl AsQuery for Table {
    open spec fn query(self) -> QueryFragment {
        QueryFragment::Select(
            SelectStatement {
                select: None,
                from: Some(self),
                where_clause: None,
                order: None,
                limit: None,
                offset: None,
            },
        )
    }

    fn as_query(self) -> (query: QueryFragment) {
        QueryFragment::Select(SelectStatement::simple(Some(self)))
    }
}

/// A filtered table stands for the statement that reads, whole, the rows
/// that meet its predicate.
impl AsQuery for FilteredTable {
    open spec fn query(self) -> QueryFragment {
        QueryFragment::Select(
            SelectStatement {
                select: None,
                from: Some(self.table),
                where_clause: Some(self.predicate),
                order: None,
                limit: None,
                offset: None,
            },
        )
    }

    fn as_query(self) -> (query: QueryFragment) {
        QueryFragment::Select(
            SelectStatement {
                select: None,
                from: Some(self.table),
                where_clause: Some(self.predicate),
                order: None,
                limit: None,
                offset: None,
            },
        )
    }
}

} // verus!
