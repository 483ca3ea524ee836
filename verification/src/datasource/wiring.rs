//! The wiring from a datasource specification to a live handle.

use vstd::prelude::*;

use crate::config::DataSourceDriver;
use crate::config::DataSourceSpec;
use crate::datasource::sqlite::SqliteDataSource;
use crate::errors::Error;

verus! {

/// Dispatches on the declared driver, opens the connection, and runs the
/// optional initialization command before handing the handle out. Failure
/// at either step aborts construction: no partially-initialized handle is
/// ever returned.
pub fn connect(db_spec: &DataSourceSpec) -> (r: Result<SqliteDataSource, Error>)
    ensures
        r matches Err(e) ==> e is DB,
{
    let result = match db_spec.driver {
        DataSourceDriver::Sqlite => {
            match SqliteDataSource::connect(db_spec.path.as_str()) {
                Ok(ds) => ds,
                Err(e) => {
                    return Err(e);
                },
            }
        },
    };
    if let Some(init_sql) = &db_spec.init_script {
        match result.command(init_sql.as_str()) {
            Ok(u) => u,
            Err(e) => {
                return Err(e);
            },
        }
    }
    Ok(result)
}

} // verus!
