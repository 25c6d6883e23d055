//! What tells one database system from another.

use vstd::prelude::*;
use crate::query_builder::QueryBuilder;
use crate::types::SqlType;

verus! {

/// A database system: the dialect its statements are written in, and the
/// SQL types it knows.
pub trait Backend {
    /// The builder that writes this backend's dialect.
    type QueryBuilder: QueryBuilder;

    /// Whether this backend knows `sql_type`. A backend that does not say
    /// knows every type.
    open spec fn has_sql_type(sql_type: SqlType) -> bool {
        true
    }
}

/// Whether a backend knows every one of `sql_types`.
pub open spec fn has_sql_types<DB: Backend>(sql_types: Seq<SqlType>) -> bool {
    forall|i: int| 0 <= i < sql_types.len() ==> DB::has_sql_type(#[trigger] sql_types[i])
}

} // verus!
