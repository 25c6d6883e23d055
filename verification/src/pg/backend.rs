//! The PostgreSQL backend.

use vstd::prelude::*;
use crate::backend::Backend;
use crate::pg::query_builder::PgQueryBuilder;
use crate::types::SqlType;

verus! {

/// The PostgreSQL backend.
#[derive(Clone, Copy, Debug, PartialEq, Eq)]
pub struct Pg;

impl Backend for Pg {
    type QueryBuilder = PgQueryBuilder;

    open spec fn has_sql_type(sql_type: SqlType) -> bool {
        true
    }
}

} // verus!
