//! Sending a finished query to a connection: for its rows, for one row,
//! or for the number of rows it affected.

use vstd::prelude::*;
use crate::backend::{Backend, has_sql_types};
use crate::connection::Connection;
use crate::query_builder::{BuilderState, QueryBuilder};
use crate::query_builder::as_query::AsQuery;
use crate::query_builder::fragment::QueryFragment;
use crate::query_builder::parts::{
    Part,
    bind_values,
    collect_binds,
    lemma_render_counts_binds,
    parts_view,
    render,
    render_parts,
};
use crate::query_dsl::LimitDsl;
use crate::query_source::Queryable;
use crate::result::{Error, QueryResult, first_or_not_found, first_or_not_found_spec};
use crate::types::{Value, ValueView, values_view};

verus! {

/// A statement as it is handed to a connection: the SQL text, and the
/// bound values in the order of their placeholders.
#[derive(Debug, PartialEq, Eq)]
pub struct Prepared {
    /// The text, with a placeholder for every bound value.
    pub sql: String,
    /// The bound values: the one at index `i` belongs to placeholder
    /// `i + 1`.
    pub binds: Vec<Value>,
}

/// What `query` looks like to a connection whose dialect is `B`: the text
/// a fresh builder ends with and the values bound, or `None` where the
/// query cannot be written.
pub open spec fn prepared<B: QueryBuilder>(query: QueryFragment) -> Option<
    (Seq<char>, Seq<ValueView>),
> {
    match render::<B>(BuilderState::fresh(), query.parts()) {
        Some(state) => Some((state.sql, bind_values(query.parts()))),
        None => None,
    }
}

/// What is handed to a connection lines up: the text holds as many
/// placeholders as there are values beside it.
pub proof fn lemma_prepared_lines_up<B: QueryBuilder>(query: QueryFragment)
    ensures
        prepared::<B>(query) matches Some((_, binds)) ==> (render::<B>(
            BuilderState::fresh(),
            query.parts(),
        ) matches Some(state) && state.bind_index == binds.len()),
{
    if prepared::<B>(query) is Some {
        lemma_render_counts_binds::<B>(BuilderState::fresh(), query.parts());
    }
}

/// Renders `query` through a fresh builder of dialect `B` and collects its
/// bound values.
pub fn prepare<B: QueryBuilder>(query: &QueryFragment) -> (r: QueryResult<Prepared>)
    ensures
        match prepared::<B>(*query) {
            Some((sql, binds)) => r matches Ok(p) && p.sql@ == sql && values_view(p.binds@)
                == binds,
            None => r matches Err(Error::RenderError(_)),
        },
{
    let mut parts: Vec<Part<'_>> = Vec::new();
    query.walk(&mut parts);
    let mut builder = B::fresh();
    match render_parts(&parts, &mut builder) {
        Ok(()) => Ok(Prepared { sql: builder.finish(), binds: collect_binds(&parts) }),
        Err(e) => Err(e),
    }
}

/// Whether some `U` can be built from `row`.
pub open spec fn buildable<U: Queryable>(row: Seq<ValueView>) -> bool {
    exists|record: U| #[trigger] U::builds(row, Ok(record))
}

/// Whether `r` is what decoding `rows` one by one comes to: every row
/// built, in order, or the failure of the first row that cannot be built.
pub open spec fn decoded<U: Queryable>(rows: Seq<Vec<Value>>, r: QueryResult<Vec<U>>) -> bool {
    match r {
        Ok(records) => {
            &&& records@.len() == rows.len()
            &&& forall|i: int|
                0 <= i < rows.len() ==> U::builds(
                    values_view(#[trigger] rows[i]@),
                    Ok(records@[i]),
                )
        },
        Err(e) => exists|i: int|
            {
                &&& 0 <= i < rows.len()
                &&& U::builds(values_view(#[trigger] rows[i]@), Err(e))
                &&& forall|j: int| 0 <= j < i ==> buildable::<U>(values_view(#[trigger] rows[j]@))
            },
    }
}

/// Builds a `U` from every row, in order, and stops at the first row that
/// cannot be built.
pub fn decode_rows<U: Queryable>(rows: &Vec<Vec<Value>>) -> (r: QueryResult<Vec<U>>)
    ensures
        decoded::<U>(rows@, r),
{
    let mut records: Vec<U> = Vec::new();
    let mut i: usize = 0;
    while i < rows.len()
        invariant
            i <= rows.len(),
            records@.len() == i,
            forall|j: int|
                0 <= j < i ==> U::builds(values_view(#[trigger] rows@[j]@), Ok(records@[j])),
        decreases rows.len() - i,
    {
        match U::build(&rows[i]) {
            Ok(record) => {
                records.push(record);
            },
            Err(e) => {
                return Err(e);
            },
        }
        i += 1;
    }
    Ok(records)
}

/// Whether `r` is what the answer of a connection to a row query comes to:
/// its failure as it came, or its rows decoded one by one.
pub open spec fn decoded_answer<U: Queryable>(
    answer: QueryResult<Vec<Vec<Value>>>,
    r: QueryResult<Vec<U>>,
) -> bool {
    match answer {
        Ok(rows) => decoded::<U>(rows@, r),
        Err(e) => r == Err::<Vec<U>, Error>(e),
    }
}

/// Turns the answer of a connection into what the caller asked for: a
/// failure is passed on as it came, rows are decoded one by one.
pub fn decode_answer<U: Queryable>(answer: QueryResult<Vec<Vec<Value>>>) -> (r: QueryResult<Vec<U>>)
    ensures
        decoded_answer::<U>(answer, r),
{
    match answer {
        Ok(rows) => decode_rows::<U>(&rows),
        Err(e) => Err(e),
    }
}

/// Whether `r` is an outcome of loading `query` over `conn`: a render
/// error where the query cannot be written; else whatever the connection
/// answered to the rendered text and its bound values, a failure passed on
/// as it came, rows decoded one by one.
pub open spec fn loaded<Conn: Connection, U: Queryable>(
    conn: &Conn,
    query: QueryFragment,
    r: QueryResult<Vec<U>>,
) -> bool {
    match prepared::<<Conn::Backend as Backend>::QueryBuilder>(query) {
        None => r matches Err(Error::RenderError(_)),
        Some((sql, binds)) => exists|answer: QueryResult<Vec<Vec<Value>>>|
            #[trigger] conn.answers_query(sql, binds, answer) && decoded_answer::<U>(answer, r),
    }
}

/// Whether `r` is an outcome of executing `query` over `conn`: a render
/// error where the query cannot be written; else whatever the connection
/// answered to the rendered text and its bound values.
pub open spec fn executed<Conn: Connection>(
    conn: &Conn,
    query: QueryFragment,
    r: QueryResult<usize>,
) -> bool {
    match prepared::<<Conn::Backend as Backend>::QueryBuilder>(query) {
        None => r matches Err(Error::RenderError(_)),
        Some((sql, binds)) => conn.answers_execute(sql, binds, r),
    }
}

/// Whether `query` can be loaded as rows of `U` over a connection to `DB`:
/// the backend knows the types of its rows, and `U` takes rows of that
/// shape.
pub open spec fn loadable<DB: Backend, U: Queryable>(query: QueryFragment) -> bool {
    &&& has_sql_types::<DB>(query.sql_types())
    &&& U::accepts(query.sql_types())
}

/// Queries that can be loaded as rows of `U` over a connection `Conn`.
pub trait LoadQuery<Conn: Connection, U: Queryable>: AsQuery {
    /// Renders the query, sends it with its bound values, and decodes
    /// every row that comes back.
    fn internal_load(self, conn: &Conn) -> (r: QueryResult<Vec<U>>)
        requires
            loadable::<Conn::Backend, U>(self.query()),
        ensures
            loaded(conn, self.query(), r),
    ;
}

impl<Conn: Connection, T: AsQuery, U: Queryable> LoadQuery<Conn, U> for T {
    fn internal_load(self, conn: &Conn) -> (r: QueryResult<Vec<U>>) {
        let query = self.as_query();
        match prepare::<<Conn::Backend as Backend>::QueryBuilder>(&query) {
            Err(e) => Err(e),
            Ok(statement) => {
                let answer = conn.query_by_index(statement.sql.as_str(), &statement.binds);
                decode_answer::<U>(answer)
            },
        }
    }
}

/// Whether `r` is an outcome of loading `query` over `conn` and keeping
/// the first row: `NotFound` where no row came back, the first row decoded
/// where one or more did, any failure passed on as it came.
pub open spec fn got<Conn: Connection, U: Queryable>(
    conn: &Conn,
    query: QueryFragment,
    r: QueryResult<U>,
) -> bool {
    exists|rows: QueryResult<Vec<U>>| #[trigger]
        loaded(conn, query, rows) && r == first_or_not_found_spec(rows)
}

/// Keeping the first row of what a connection answered: no row is
/// `NotFound`; one row or more is the first row, built; and a row that
/// cannot be built fails the whole, wherever it stands.
pub proof fn lemma_first_of_answer<U: Queryable>(
    rows: Vec<Vec<Value>>,
    loaded: QueryResult<Vec<U>>,
)
    requires
        decoded_answer::<U>(Ok(rows), loaded),
    ensures
        rows@.len() == 0 ==> first_or_not_found_spec(loaded) == Err::<U, Error>(Error::NotFound),
        rows@.len() >= 1 && loaded is Ok ==> (first_or_not_found_spec(loaded) matches Ok(first)
            && U::builds(values_view(rows@[0]@), Ok(first))),
        loaded matches Err(e) ==> first_or_not_found_spec(loaded) == Err::<U, Error>(e),
{
}

/// Sending a query for its rows.
pub trait LoadDsl<Conn: Connection>: AsQuery {
    /// Runs the query and hands back every row it yields, decoded, in the
    /// order the connection gave them. Nothing is retried, and a failure
    /// leaves no partial result.
    fn load<U: Queryable>(self, conn: &Conn) -> (r: QueryResult<Vec<U>>) where
        Self: LoadQuery<Conn, U>,

        requires
            loadable::<Conn::Backend, U>(self.query()),
        ensures
            loaded(conn, self.query(), r),
    {
        self.internal_load(conn)
    }

    /// Runs the query and hands back the first row it yields. No row at
    /// all is `NotFound`; rows beyond the first are dropped.
    fn get_result<U: Queryable>(self, conn: &Conn) -> (r: QueryResult<U>) where
        Self: LoadQuery<Conn, U>,

        requires
            loadable::<Conn::Backend, U>(self.query()),
        ensures
            got(conn, self.query(), r),
    {
        first_or_not_found(self.load(conn))
    }

    /// Runs a statement that yields the rows it affected and hands all of
    /// them back: `load` by the name that fits an insert, update or delete.
    fn get_results<U: Queryable>(self, conn: &Conn) -> (r: QueryResult<Vec<U>>) where
        Self: LoadQuery<Conn, U>,

        requires
            loadable::<Conn::Backend, U>(self.query()),
        ensures
            loaded(conn, self.query(), r),
    {
        self.load(conn)
    }
}

impl<Conn: Connection, T: AsQuery> LoadDsl<Conn> for T {
}

/// Sending a query for its first row only.
pub trait FirstDsl<Conn: Connection>: LimitDsl + LoadDsl<Conn> {
    /// Limits the query to one row, runs it, and hands back that row, or
    /// `NotFound` where the query yields none. Whatever the table holds,
    /// the connection is asked for no more than one row.
    fn first<U: Queryable>(self, conn: &Conn) -> (r: QueryResult<U>)
        requires
            loadable::<Conn::Backend, U>(QueryFragment::Select(self.limited(1))),
        ensures
            got(conn, QueryFragment::Select(self.limited(1)), r),
    {
        self.limit(1).get_result(conn)
    }
}

impl<Conn: Connection, T: LimitDsl + LoadDsl<Conn>> FirstDsl<Conn> for T {
}

/// Sending a statement for its effect.
pub trait ExecuteDsl<Conn: Connection>: AsQuery {
    /// Runs the statement and hands back the number of rows it affected,
    /// as the connection reports it. No row is decoded, and a count of
    /// zero is a success like any other.
    fn execute(self, conn: &Conn) -> (r: QueryResult<usize>)
        ensures
            executed(conn, self.query(), r),
    ;
}

impl<Conn: Connection, T: AsQuery> ExecuteDsl<Conn> for T {
    fn execute(self, conn: &Conn) -> (r: QueryResult<usize>) {
        let query = self.as_query();
        match prepare::<<Conn::Backend as Backend>::QueryBuilder>(&query) {
            Err(e) => Err(e),
            Ok(statement) => conn.execute_returning_count(
                statement.sql.as_str(),
                &statement.binds,
            ),
        }
    }
}

} // verus!
