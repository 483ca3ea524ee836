//! The one concrete backend: an adapter over an embedded SQL engine.

mod adapter;
mod decl;
pub(crate) mod native;

pub use adapter::SqliteDataSource;
pub use adapter::connect;
pub use adapter::convert_condition;
pub use adapter::insert_sql;
pub use adapter::native_round_trip;
pub use adapter::update_sql;
