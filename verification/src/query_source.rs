//! Tables and their columns: where rows come from and go to.

use vstd::prelude::*;
use crate::query_builder::fragment::QueryFragment;
use crate::query_builder::parts::{Part, SqlPart, parts_view};
use crate::result::{Error, QueryResult};
use crate::types::{SqlType, Value, ValueView, values_view};

verus! {

/// One column of a table.
#[derive(Debug, PartialEq, Eq)]
pub struct Column {
    pub name: String,
    pub sql_type: SqlType,
}

/// A table: its name and its columns, in the order a row holds them.
#[derive(Debug, PartialEq, Eq)]
pub struct Table {
    pub name: String,
    pub columns: Vec<Column>,
}

/// A table narrowed to the rows that meet a predicate.
#[derive(Debug, PartialEq, Eq)]
pub struct FilteredTable {
    pub table: Table,
    pub predicate: Vec<QueryFragment>,
}

/// The SQL types of `columns`, in order.
pub open spec fn column_types(columns: Seq<Column>) -> Seq<SqlType> {
    columns.map_values(|c: Column| c.sql_type)
}

/// The columns of the table named `table`, each written with the table's
/// name before it, separated by commas. A table without columns has no
/// such list.
pub open spec fn columns_parts(table: Seq<char>, columns: Seq<Column>) -> Seq<SqlPart>
    decreases columns.len(),
{
    if columns.len() == 0 {
        seq![SqlPart::Refused]
    } else {
        let column = seq![
            SqlPart::Identifier(table),
            SqlPart::Sql("."@),
            SqlPart::Identifier(columns.last().name@),
        ];
        if columns.len() == 1 {
            column
        } else {
            columns_parts(table, columns.drop_last()) + seq![SqlPart::Sql(", "@)] + column
        }
    }
}

impl Table {
    /// A table named `name` with the given columns.
    pub fn new(name: String, columns: Vec<Column>) -> (table: Table)
        ensures
            table == (Table { name, columns }),
    {
        Table { name, columns }
    }

    /// This table narrowed to the rows that meet `predicate`.
    pub fn filter(self, predicate: Vec<QueryFragment>) -> (filtered: FilteredTable)
        ensures
            filtered == (FilteredTable { table: self, predicate }),
    {
        FilteredTable { table: self, predicate }
    }

    /// Walks the list of this table's columns.
    pub(crate) fn walk_columns<'a>(&'a self, out: &mut Vec<Part<'a>>)
        ensures
            parts_view(final(out)@) == parts_view(old(out)@) + columns_parts(
                self.name@,
                self.columns@,
            ),
    {
        if self.columns.len() == 0 {
            out.push(Part::Refused("a table without columns has no column list"));
            return ;
        }
        let mut i: usize = 0;
        while i < self.columns.len()
            invariant
                i <= self.columns.len(),
                self.columns.len() > 0,
                i > 0 ==> parts_view(out@) == parts_view(old(out)@) + columns_parts(
                    self.name@,
                    self.columns@.take(i as int),
                ),
                i == 0 ==> out@ == old(out)@,
            decreases self.columns.len() - i,
        {
            let ghost before = parts_view(out@);
            if i > 0 {
                out.push(Part::Sql(", "));
            }
            let ghost separated = parts_view(out@);
            out.push(Part::Identifier(self.name.as_str()));
            out.push(Part::Sql("."));
            out.push(Part::Identifier(self.columns[i].name.as_str()));
            proof {
                let upto = self.columns@.take(i + 1);
                assert(upto.drop_last() =~= self.columns@.take(i as int));
                let column = seq![
                    SqlPart::Identifier(self.name@),
                    SqlPart::Sql("."@),
                    SqlPart::Identifier(self.columns@[i as int].name@),
                ];
                if i > 0 {
                    assert(separated =~= before + seq![SqlPart::Sql(", "@)]);
                }
                assert(parts_view(out@) =~= separated + column);
            }
            i += 1;
        }
        assert(self.columns@.take(self.columns.len() as int) =~= self.columns@);
    }
}

/// What can be built from one row of a result.
pub trait Queryable: Sized {
    /// Whether rows whose columns have these SQL types, in this order, are
    /// rows this type can be built from. A type that does not say takes
    /// rows of every shape.
    open spec fn accepts(sql_types: Seq<SqlType>) -> bool {
        true
    }

    /// Whether `built` is what `row` is turned into. A type that does not
    /// say holds every outcome possible.
    open spec fn builds(row: Seq<ValueView>, built: QueryResult<Self>) -> bool {
        true
    }

    /// Turns one row into a value of this type, or fails with a decode
    /// error of the implementation's choosing.
    fn build(row: &Vec<Value>) -> (built: QueryResult<Self>)
        ensures
            Self::builds(values_view(row@), built),
    ;
}

/// The row as it came: every column, whatever its type.
impl Queryable for Vec<Value> {
    open spec fn accepts(sql_types: Seq<SqlType>) -> bool {
        true
    }

    open spec fn builds(row: Seq<ValueView>, built: QueryResult<Self>) -> bool {
        built matches Ok(values) && values_view(values@) == row
    }

    fn build(row: &Vec<Value>) -> (built: QueryResult<Self>) {
        let mut values: Vec<Value> = Vec::new();
        let mut i: usize = 0;
        while i < row.len()
            invariant
                i <= row.len(),
                values@ == row@.take(i as int),
            decreases row.len() - i,
        {
            values.push(row[i].clone());
            i += 1;
        }
        assert(row@.take(row.len() as int) =~= row@);
        Ok(values)
    }
}

/// A row of one `Bool` column.
impl Queryable for bool {
    open spec fn accepts(sql_types: Seq<SqlType>) -> bool {
        sql_types == seq![SqlType::Bool]
    }

    open spec fn builds(row: Seq<ValueView>, built: QueryResult<Self>) -> bool {
        if row.len() == 1 && row[0] is Bool {
            built == Ok::<bool, Error>(row[0]->Bool_0)
        } else {
            built matches Err(Error::DecodeError(_))
        }
    }

    fn build(row: &Vec<Value>) -> (built: QueryResult<Self>) {
        if row.len() == 1 {
            match &row[0] {
                Value::Bool(b) => {
                    return Ok(*b);
                },
                _ => {},
            }
        }
        Err(Error::DecodeError("expected a row of one Bool column".to_string()))
    }
}

/// A row of one `Integer` column.
impl Queryable for i32 {
    open spec fn accepts(sql_types: Seq<SqlType>) -> bool {
        sql_types == seq![SqlType::Integer]
    }

    open spec fn builds(row: Seq<ValueView>, built: QueryResult<Self>) -> bool {
        if row.len() == 1 && row[0] is Integer {
            built == Ok::<i32, Error>(row[0]->Integer_0)
        } else {
            built matches Err(Error::DecodeError(_))
        }
    }

    fn build(row: &Vec<Value>) -> (built: QueryResult<Self>) {
        if row.len() == 1 {
            match &row[0] {
                Value::Integer(i) => {
                    return Ok(*i);
                },
                _ => {},
            }
        }
        Err(Error::DecodeError("expected a row of one Integer column".to_string()))
    }
}

/// A row of one `BigInt` column.
impl Queryable for i64 {
    open spec fn accepts(sql_types: Seq<SqlType>) -> bool {
        sql_types == seq![SqlType::BigInt]
    }

    open spec fn builds(row: Seq<ValueView>, built: QueryResult<Self>) -> bool {
        if row.len() == 1 && row[0] is BigInt {
            built == Ok::<i64, Error>(row[0]->BigInt_0)
        } else {
            built matches Err(Error::DecodeError(_))
        }
    }

    fn build(row: &Vec<Value>) -> (built: QueryResult<Self>) {
        if row.len() == 1 {
            match &row[0] {
                Value::BigInt(i) => {
                    return Ok(*i);
                },
                _ => {},
            }
        }
        Err(Error::DecodeError("expected a row of one BigInt column".to_string()))
    }
}

/// A row of one `Text` column.
impl Queryable for String {
    open spec fn accepts(sql_types: Seq<SqlType>) -> bool {
        sql_types == seq![SqlType::Text]
    }

    open spec fn builds(row: Seq<ValueView>, built: QueryResult<Self>) -> bool {
        if row.len() == 1 && row[0] is Text {
            built matches Ok(text) && text@ == row[0]->Text_0
        } else {
            built matches Err(Error::DecodeError(_))
        }
    }

    fn build(row: &Vec<Value>) -> (built: QueryResult<Self>) {
        if row.len() == 1 {
            match &row[0] {
                Value::Text(text) => {
                    return Ok(text.clone());
                },
                _ => {},
            }
        }
        Err(Error::DecodeError("expected a row of one Text column".to_string()))
    }
}

} // verus!
