//! The capability a database connection presents to the dispatch layer.

use vstd::prelude::*;
use crate::backend::Backend;
use crate::result::QueryResult;
use crate::types::{Value, ValueView, values_view};

verus! {

/// A live connection to a database. It takes a finished statement as SQL
/// text with its bound values beside it, in the order of the placeholders,
/// makes one blocking round trip, and reports what the database answered.
///
/// Nothing is promised of an answer: whatever comes back is passed on.
/// The two predicates only give the answers a name, so that a caller can
/// say which text and which values an answer was given to.
pub trait Connection {
    /// The database system at the other end.
    type Backend: Backend;

    /// Whether `answer` is an answer this connection gave to the row query
    /// `sql` with `binds`. A connection that does not say holds every
    /// answer possible.
    open spec fn answers_query(
        &self,
        sql: Seq<char>,
        binds: Seq<ValueView>,
        answer: QueryResult<Vec<Vec<Value>>>,
    ) -> bool {
        true
    }

    /// Whether `answer` is an answer this connection gave to the command
    /// `sql` with `binds`. A connection that does not say holds every
    /// answer possible.
    open spec fn answers_execute(
        &self,
        sql: Seq<char>,
        binds: Seq<ValueView>,
        answer: QueryResult<usize>,
    ) -> bool {
        true
    }

    /// Runs a statement that yields rows and hands back the rows, each a
    /// list of values by column index.
    fn query_by_index(&self, sql: &str, binds: &Vec<Value>) -> (answer: QueryResult<
        Vec<Vec<Value>>,
    >)
        ensures
            self.answers_query(sql@, values_view(binds@), answer),
    ;

    /// Runs a statement for its effect and hands back the number of rows
    /// it affected.
    fn execute_returning_count(&self, sql: &str, binds: &Vec<Value>) -> (answer: QueryResult<usize>)
        ensures
            self.answers_execute(sql@, values_view(binds@), answer),
    ;
}

} // verus!
