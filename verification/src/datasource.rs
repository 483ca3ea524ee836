//! The storage-agnostic data source boundary: the value model, the
//! predicate algebra, the backend interface, and the wiring that produces a
//! live handle from a datasource specification.

mod def;
pub mod sqlite;
mod wiring;

pub use def::DataSource;
pub use def::FieldCondition;
pub use def::Row;
pub use def::Value;
pub use def::ValueView;
pub use def::assoc_lookup;
pub use wiring::connect;
