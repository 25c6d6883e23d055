//! The PostgreSQL dialect.

pub mod backend;
pub mod query_builder;
