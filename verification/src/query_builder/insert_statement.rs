//! The `INSERT` statement and the records it inserts.

use vstd::prelude::*;
use crate::query_builder::fragment::{
    Assignment,
    Expression,
    returning_parts,
    returning_types,
    walk_returning,
};
use crate::query_builder::parts::{Part, SqlPart, parts_view};
use crate::query_source::Table;
use crate::types::SqlType;

verus! {

/// The plain insert: new rows are added, and a row that cannot be added
/// fails the statement.
#[derive(Clone, Copy, Debug, PartialEq, Eq)]
pub struct Insert;

/// Stands for a row in which every column has its default value.
#[derive(Clone, Copy, Debug, PartialEq, Eq)]
pub struct DefaultValues;

/// What an insert adds to its table.
#[derive(Debug, PartialEq, Eq)]
pub enum InsertRecords {
    /// One row in which every column has its default value.
    DefaultValues,
    /// The given rows, each a list of columns with their values.
    Rows(Vec<Vec<Assignment>>),
}

/// `InsertRecords` as mathematics sees it.
pub enum Records {
    DefaultValues,
    Rows(Seq<Seq<Assignment>>),
}

/// The rows of `rows`, each as a sequence.
pub open spec fn rows_view(rows: Seq<Vec<Assignment>>) -> Seq<Seq<Assignment>> {
    rows.map_values(|row: Vec<Assignment>| row@)
}

impl View for InsertRecords {
    type V = Records;

    open spec fn view(&self) -> Records {
        match *self {
            InsertRecords::DefaultValues => Records::DefaultValues,
            InsertRecords::Rows(rows) => Records::Rows(rows_view(rows@)),
        }
    }
}

impl Records {
    /// The rows these records amount to inside a batch, where a row of
    /// default values is a row that names no column.
    pub open spec fn rows(self) -> Seq<Seq<Assignment>> {
        match self {
            Records::DefaultValues => seq![Seq::empty()],
            Records::Rows(rows) => rows,
        }
    }
}

/// What can be inserted: one record, a sequence of records, or the marker
/// for a row of default values.
pub trait Insertable {
    /// Whether `records` is what this value stands for. A type that does
    /// not say holds every answer possible.
    open spec fn stands_for(&self, records: Records) -> bool {
        true
    }

    /// Copies out the records this value stands for.
    fn values(&self) -> (records: InsertRecords)
        ensures
            self.stands_for(records@),
    ;
}

impl Insertable for DefaultValues {
    open spec fn stands_for(&self, records: Records) -> bool {
        records == Records::DefaultValues
    }

    fn values(&self) -> (records: InsertRecords) {
        InsertRecords::DefaultValues
    }
}

impl Insertable for Assignment {
    /// One row of one column.
    open spec fn stands_for(&self, records: Records) -> bool {
        records == Records::Rows(seq![seq![*self]])
    }

    fn values(&self) -> (records: InsertRecords) {
        let mut row: Vec<Assignment> = Vec::new();
        row.push(Assignment { column: self.column.clone(), value: self.value.clone() });
        let mut rows: Vec<Vec<Assignment>> = Vec::new();
        rows.push(row);
        let records = InsertRecords::Rows(rows);
        assert(records@->Rows_0 =~= seq![seq![*self]]);
        records
    }
}

/// Whether `rows` holds, in order, the rows that each of `items` stands
/// for.
pub open spec fn batch_of<T: Insertable>(items: Seq<T>, rows: Seq<Seq<Assignment>>) -> bool
    decreases items.len(),
{
    if items.len() == 0 {
        rows.len() == 0
    } else {
        exists|front: Seq<Seq<Assignment>>, last: Records|
            #![trigger front + last.rows()]
            batch_of(items.drop_last(), front) && items.last().stands_for(last) && rows == front
                + last.rows()
    }
}

/// A batch grows by the rows of one more item.
pub proof fn lemma_batch_of_push<T: Insertable>(
    items: Seq<T>,
    front: Seq<Seq<Assignment>>,
    last: Records,
)
    requires
        items.len() > 0,
        batch_of(items.drop_last(), front),
        items.last().stands_for(last),
    ensures
        batch_of(items, front + last.rows()),
{
}

impl<T: Insertable> Insertable for [T] {
    /// The rows of every item, in order, as one batch.
    open spec fn stands_for(&self, records: Records) -> bool {
        records matches Records::Rows(rows) && batch_of(self@, rows)
    }

    fn values(&self) -> (records: InsertRecords) {
        let mut rows: Vec<Vec<Assignment>> = Vec::new();
        let mut i: usize = 0;
        while i < self.len()
            invariant
                i <= self.len(),
                batch_of(self@.take(i as int), rows_view(rows@)),
            decreases self.len() - i,
        {
            let ghost before = rows_view(rows@);
            let more = self[i].values();
            let ghost last = more@;
            match more {
                InsertRecords::DefaultValues => {
                    rows.push(Vec::new());
                },
                InsertRecords::Rows(mut more) => {
                    rows.append(&mut more);
                },
            }
            proof {
                let upto = self@.take(i + 1);
                assert(upto.drop_last() =~= self@.take(i as int));
                assert(rows_view(rows@) =~= before + last.rows());
            }
            i += 1;
        }
        assert(self@.take(self.len() as int) =~= self@);
        InsertRecords::Rows(rows)
    }
}

impl<T: Insertable> Insertable for Vec<T> {
    /// The rows of every item, in order, as one batch.
    open spec fn stands_for(&self, records: Records) -> bool {
        records matches Records::Rows(rows) && batch_of(self@, rows)
    }

    fn values(&self) -> (records: InsertRecords) {
        self.as_slice().values()
    }
}

/// The names of the columns a row gives values to, in order.
pub open spec fn column_names(row: Seq<Assignment>) -> Seq<Seq<char>> {
    row.map_values(|a: Assignment| a.column@)
}

/// The columns of a row, separated by commas. A row that names no column
/// cannot be written.
pub open spec fn column_list_parts(row: Seq<Assignment>) -> Seq<SqlPart>
    decreases row.len(),
{
    if row.len() == 0 {
        seq![SqlPart::Refused]
    } else if row.len() == 1 {
        seq![SqlPart::Identifier(row.last().column@)]
    } else {
        column_list_parts(row.drop_last()) + seq![
            SqlPart::Sql(", "@),
            SqlPart::Identifier(row.last().column@),
        ]
    }
}

/// The positions of a row's values, separated by commas.
pub open spec fn value_list_parts(row: Seq<Assignment>) -> Seq<SqlPart>
    decreases row.len(),
{
    if row.len() == 0 {
        seq![SqlPart::Refused]
    } else if row.len() == 1 {
        seq![SqlPart::Bind(row.last().value@)]
    } else {
        value_list_parts(row.drop_last()) + seq![
            SqlPart::Sql(", "@),
            SqlPart::Bind(row.last().value@),
        ]
    }
}

/// One row of a `VALUES` clause: its values between parentheses. A row
/// that does not name the columns of `header`, in the same order, cannot
/// be written.
pub open spec fn row_parts(header: Seq<Assignment>, row: Seq<Assignment>) -> Seq<SqlPart> {
    if column_names(row) == column_names(header) {
        seq![SqlPart::Sql("("@)] + value_list_parts(row) + seq![SqlPart::Sql(")"@)]
    } else {
        seq![SqlPart::Refused]
    }
}

/// The rows of a `VALUES` clause, separated by commas.
pub open spec fn rows_parts(header: Seq<Assignment>, rows: Seq<Seq<Assignment>>) -> Seq<SqlPart>
    decreases rows.len(),
{
    if rows.len() == 0 {
        seq![SqlPart::Refused]
    } else if rows.len() == 1 {
        row_parts(header, rows.last())
    } else {
        rows_parts(header, rows.drop_last()) + seq![SqlPart::Sql(", "@)] + row_parts(
            header,
            rows.last(),
        )
    }
}

/// What follows the table in an insert: `DEFAULT VALUES`, or the column
/// list of the first row and one tuple of values for every row. An insert
/// of no rows cannot be written.
pub open spec fn records_parts(records: Records) -> Seq<SqlPart> {
    match records {
        Records::DefaultValues => seq![SqlPart::Sql(" DEFAULT VALUES"@)],
        Records::Rows(rows) => if rows.len() == 0 {
            seq![SqlPart::Refused]
        } else {
            seq![SqlPart::Sql(" ("@)] + column_list_parts(rows[0]) + seq![
                SqlPart::Sql(") VALUES "@),
            ] + rows_parts(rows[0], rows)
        },
    }
}

/// Whether `row` names the columns of `header`, in the same order.
pub(crate) fn same_columns(row: &Vec<Assignment>, header: &Vec<Assignment>) -> (same: bool)
    ensures
        same == (column_names(row@) == column_names(header@)),
{
    if row.len() != header.len() {
        return false;
    }
    let mut i: usize = 0;
    while i < row.len()
        invariant
            i <= row.len(),
            row.len() == header.len(),
            forall|j: int| 0 <= j < i ==> row@[j].column@ == header@[j].column@,
        decreases row.len() - i,
    {
        if !(row[i].column == header[i].column) {
            assert(column_names(row@)[i as int] != column_names(header@)[i as int]);
            return false;
        }
        i += 1;
    }
    assert(column_names(row@) =~= column_names(header@));
    true
}

/// Walks the column list of a row.
pub(crate) fn walk_column_list<'a>(row: &'a Vec<Assignment>, out: &mut Vec<Part<'a>>)
    ensures
        parts_view(final(out)@) == parts_view(old(out)@) + column_list_parts(row@),
{
    if row.len() == 0 {
        out.push(Part::Refused("a row that names no column cannot be written"));
        return ;
    }
    let mut i: usize = 0;
    while i < row.len()
        invariant
            i <= row.len(),
            row.len() > 0,
            i > 0 ==> parts_view(out@) == parts_view(old(out)@) + column_list_parts(
                row@.take(i as int),
            ),
            i == 0 ==> out@ == old(out)@,
        decreases row.len() - i,
    {
        let ghost before = parts_view(out@);
        if i > 0 {
            out.push(Part::Sql(", "));
        }
        out.push(Part::Identifier(row[i].column.as_str()));
        proof {
            let upto = row@.take(i + 1);
            assert(upto.drop_last() =~= row@.take(i as int));
            if i > 0 {
                assert(parts_view(out@) =~= before + seq![
                    SqlPart::Sql(", "@),
                    SqlPart::Identifier(row@[i as int].column@),
                ]);
            }
        }
        i += 1;
    }
    assert(row@.take(row.len() as int) =~= row@);
}

/// Walks the values of a row.
pub(crate) fn walk_value_list<'a>(row: &'a Vec<Assignment>, out: &mut Vec<Part<'a>>)
    ensures
        parts_view(final(out)@) == parts_view(old(out)@) + value_list_parts(row@),
{
    if row.len() == 0 {
        out.push(Part::Refused("a row without values cannot be written"));
        return ;
    }
    let mut i: usize = 0;
    while i < row.len()
        invariant
            i <= row.len(),
            row.len() > 0,
            i > 0 ==> parts_view(out@) == parts_view(old(out)@) + value_list_parts(
                row@.take(i as int),
            ),
            i == 0 ==> out@ == old(out)@,
        decreases row.len() - i,
    {
        let ghost before = parts_view(out@);
        if i > 0 {
            out.push(Part::Sql(", "));
        }
        out.push(Part::Bind(&row[i].value));
        proof {
            let upto = row@.take(i + 1);
            assert(upto.drop_last() =~= row@.take(i as int));
            if i > 0 {
                assert(parts_view(out@) =~= before + seq![
                    SqlPart::Sql(", "@),
                    SqlPart::Bind(row@[i as int].value@),
                ]);
            }
        }
        i += 1;
    }
    assert(row@.take(row.len() as int) =~= row@);
}

/// Walks one row of a `VALUES` clause.
pub(crate) fn walk_row<'a>(header: &Vec<Assignment>, row: &'a Vec<Assignment>, out: &mut Vec<Part<'a>>)
    ensures
        parts_view(final(out)@) == parts_view(old(out)@) + row_parts(header@, row@),
{
    if same_columns(row, header) {
        out.push(Part::Sql("("));
        let ghost opened = parts_view(out@);
        walk_value_list(row, out);
        out.push(Part::Sql(")"));
        assert(parts_view(out@) =~= opened + value_list_parts(row@) + seq![SqlPart::Sql(")"@)]);
    } else {
        out.push(Part::Refused("every row of an insert must name the same columns"));
    }
}

/// Walks the rows of a `VALUES` clause.
pub(crate) fn walk_rows<'a>(
    header: &Vec<Assignment>,
    rows: &'a Vec<Vec<Assignment>>,
    out: &mut Vec<Part<'a>>,
)
    ensures
        parts_view(final(out)@) == parts_view(old(out)@) + rows_parts(
            header@,
            rows_view(rows@),
        ),
{
    let ghost all = rows_view(rows@);
    if rows.len() == 0 {
        out.push(Part::Refused("an insert of no rows cannot be written"));
        return ;
    }
    let mut i: usize = 0;
    while i < rows.len()
        invariant
            i <= rows.len(),
            rows.len() > 0,
            all == rows_view(rows@),
            i > 0 ==> parts_view(out@) == parts_view(old(out)@) + rows_parts(
                header@,
                all.take(i as int),
            ),
            i == 0 ==> out@ == old(out)@,
        decreases rows.len() - i,
    {
        let ghost before = parts_view(out@);
        if i > 0 {
            out.push(Part::Sql(", "));
        }
        let ghost separated = parts_view(out@);
        walk_row(header, &rows[i], out);
        proof {
            let upto = all.take(i + 1);
            assert(upto.drop_last() =~= all.take(i as int));
            if i > 0 {
                assert(separated =~= before + seq![SqlPart::Sql(", "@)]);
            }
        }
        i += 1;
    }
    assert(all.take(rows.len() as int) =~= all);
}

/// Walks what follows the table in an insert.
pub(crate) fn walk_records<'a>(records: &'a InsertRecords, out: &mut Vec<Part<'a>>)
    ensures
        parts_view(final(out)@) == parts_view(old(out)@) + records_parts(records@),
{
    match records {
        InsertRecords::DefaultValues => {
            out.push(Part::Sql(" DEFAULT VALUES"));
        },
        InsertRecords::Rows(rows) => {
            if rows.len() == 0 {
                out.push(Part::Refused("an insert of no rows cannot be written"));
            } else {
                out.push(Part::Sql(" ("));
                walk_column_list(&rows[0], out);
                let ghost named = parts_view(out@);
                out.push(Part::Sql(") VALUES "));
                assert(parts_view(out@) =~= named + seq![SqlPart::Sql(") VALUES "@)]);
                walk_rows(&rows[0], rows, out);
            }
        },
    }
}

/// An insert that knows what to add and not yet where: it becomes a
/// statement once `into` names the table.
#[derive(Debug, PartialEq, Eq)]
pub struct IncompleteInsertStatement {
    pub records: InsertRecords,
    pub operator: Insert,
}

impl IncompleteInsertStatement {
    /// An insert of `records` that has yet to be given its table.
    pub fn new(records: InsertRecords, operator: Insert) -> (statement: Self)
        ensures
            statement == (IncompleteInsertStatement { records, operator }),
    {
        IncompleteInsertStatement { records, operator }
    }

    /// The finished statement, which adds the records to `table`.
    pub fn into(self, table: Table) -> (statement: InsertStatement)
        ensures
            statement == (InsertStatement { table, records: self.records, returning: None }),
    {
        InsertStatement { table, records: self.records, returning: None }
    }
}

/// Adds rows to a table.
#[derive(Debug, PartialEq, Eq)]
pub struct InsertStatement {
    pub table: Table,
    pub records: InsertRecords,
    pub returning: Option<Vec<Expression>>,
}

impl InsertStatement {
    /// Written as `INSERT INTO`, the table, the column list and the
    /// `VALUES` tuples or `DEFAULT VALUES`, then the optional `RETURNING`
    /// clause.
    pub open spec fn parts(self) -> Seq<SqlPart>
        decreases self,
    {
        seq![SqlPart::Sql("INSERT INTO "@), SqlPart::Identifier(self.table.name@)] + records_parts(
            self.records@,
        ) + returning_parts(self.returning)
    }

    /// The SQL types of the rows this statement yields: those of its
    /// `RETURNING` clause.
    pub open spec fn sql_types(self) -> Seq<SqlType> {
        returning_types(self.returning)
    }

    /// This statement, yielding `expressions` of every row it adds.
    pub fn returning(self, expressions: Vec<Expression>) -> (statement: Self)
        ensures
            statement == (InsertStatement {
                table: self.table,
                records: self.records,
                returning: Some(expressions),
            }),
    {
        InsertStatement { table: self.table, records: self.records, returning: Some(expressions) }
    }

    /// Walks this statement and appends its leaf pieces to `out`.
    pub fn walk<'a>(&'a self, out: &mut Vec<Part<'a>>)
        ensures
            parts_view(final(out)@) == parts_view(old(out)@) + self.parts(),
        decreases self,
    {
        out.push(Part::Sql("INSERT INTO "));
        out.push(Part::Identifier(self.table.name.as_str()));
        walk_records(&self.records, out);
        walk_returning(&self.returning, out);
    }
}

} // verus!
