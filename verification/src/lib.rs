//! A statically checked SQL construction and dispatch layer.
//!
//! A statement is built as a tree of fragments, written as SQL text by the
//! query builder of a dialect, with a placeholder wherever it holds a value,
//! and sent to a connection with the values beside the text.

pub mod backend;
pub mod connection;
pub mod pg;
pub mod query_builder;
pub mod query_dsl;
pub mod query_source;
pub mod result;
pub mod types;

pub use crate::query_builder::functions::{
    default_values, delete, insert, insert_default_values, select, update,
};
pub use crate::query_dsl::load_dsl::{ExecuteDsl, FirstDsl, LoadDsl, LoadQuery};
pub use crate::query_dsl::LimitDsl;
pub use crate::result::{Error, QueryResult};
