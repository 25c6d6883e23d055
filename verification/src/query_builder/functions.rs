//! Where every statement starts.

use vstd::prelude::*;
use crate::query_builder::delete_statement::DeleteStatement;
use crate::query_builder::fragment::Expression;
use crate::query_builder::insert_statement::{
    DefaultValues,
    IncompleteInsertStatement,
    Insert,
    InsertRecords,
    Insertable,
};
use crate::query_builder::select_statement::SelectStatement;
use crate::query_builder::update_statement::{IncompleteUpdateStatement, IntoUpdateTarget};

verus! {

/// Starts an update of the rows that `source` stands for: all rows of a
/// table, or those of a filtered table. What to change is still open; `set`
/// finishes the statement.
pub fn update<T: IntoUpdateTarget>(source: T) -> (statement: IncompleteUpdateStatement)
    ensures
        statement == (IncompleteUpdateStatement {
            table: source.update_target().table,
            where_clause: source.update_target().where_clause,
        }),
{
    IncompleteUpdateStatement::new(source.into_update_target())
}

/// The statement that deletes the rows that `source` stands for: all rows
/// of a table, or those of a filtered table.
pub fn delete<T: IntoUpdateTarget>(source: T) -> (statement: DeleteStatement)
    ensures
        statement == (DeleteStatement {
            table: source.update_target().table,
            where_clause: source.update_target().where_clause,
            returning: None,
        }),
{
    let target = source.into_update_target();
    DeleteStatement::new(target.table, target.where_clause)
}

/// Starts a plain insert of `records`: one record, or a sequence of
/// records that go in as one batch. Where to is still open; `into` finishes
/// the statement.
pub fn insert<T: Insertable + ?Sized>(records: &T) -> (statement: IncompleteInsertStatement)
    ensures
        records.stands_for(statement.records@),
        statement.operator == Insert,
{
    IncompleteInsertStatement::new(records.values(), Insert)
}

/// The select statement without a `FROM` clause that yields `expression`,
/// which therefore has to be selectable from nowhere.
pub fn select(expression: Expression) -> (statement: SelectStatement)
    requires
        expression.is_standalone(),
    ensures
        statement.select matches Some(list) && list@ == seq![expression],
        statement.from is None,
        statement.where_clause is None,
        statement.order is None,
        statement.limit is None,
        statement.offset is None,
{
    let mut list: Vec<Expression> = Vec::new();
    list.push(expression);
    SelectStatement::simple(None).select(list)
}

/// Starts an insert of one row in which every column has its default
/// value. It is `insert(&default_values())` by another name.
pub fn insert_default_values() -> (statement: IncompleteInsertStatement)
    ensures
        statement == (IncompleteInsertStatement {
            records: InsertRecords::DefaultValues,
            operator: Insert,
        }),
{
    IncompleteInsertStatement::new(InsertRecords::DefaultValues, Insert)
}

/// The marker that stands for a row of default values in an insert.
pub fn default_values() -> (marker: DefaultValues)
    ensures
        marker == DefaultValues,
{
    DefaultValues
}

} // verus!
