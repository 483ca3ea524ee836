//! A config-driven data access layer: a storage-agnostic value model, a
//! predicate algebra for filtering rows, and the synthesis of parameterized
//! SQL text plus bound parameters for query, insert, and update operations
//! against an embedded relational backend.

pub mod config;
pub mod datasource;
pub mod errors;
