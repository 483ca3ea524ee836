//! The trusted boundary to the embedded SQL engine: thin wrappers around
//! the calls the adapter makes. Verus believes the contracts stated here;
//! each doc comment names the outside function relied on.

use vstd::prelude::*;

use crate::datasource::def::Value;
use crate::datasource::def::ValueView;
use crate::errors::Error;

verus! {

/// The state a statement step ends in: a row is ready for reading, or the
/// statement has been entirely evaluated.
pub enum StepState {
    Row,
    Done,
}

/// A backend-native value, carried opaquely between the conversion
/// functions and the bind or read call. The engine's own value type
/// cannot be declared here by name, so it is held in a private field
/// instead.
#[verifier::external_body]
pub struct NativeValue {
    inner: sqlite::Value,
}

/// The content of a backend-native value: which of the five native
/// variants is active and its payload, with a native double taken as its
/// IEEE 754 bit pattern. The native type is opaque here, so its content
/// is named rather than stated.
pub uninterp spec fn native_view(v: NativeValue) -> ValueView;

/// Relies on the engine's value type being a five-variant union mirroring
/// [`Value`], and on `num_traits::FromBytes` reconstructing a native
/// double from the little-endian bytes of its bit pattern, bit for bit:
/// the native value built here carries the same variant and payload as
/// the argument.
#[verifier::external_body]
pub(crate) fn to_native(v: &Value) -> (r: NativeValue)
    ensures
        native_view(r) == v@,
{
    let inner = match v {
        Value::Binary(b) => sqlite::Value::Binary(b.clone()),
        Value::Float(bits) => sqlite::Value::Float(
            num_traits::FromBytes::from_le_bytes(&bits.to_le_bytes()),
        ),
        Value::Integer(n) => sqlite::Value::Integer(*n),
        Value::String(s) => sqlite::Value::String(s.clone()),
        Value::Null => sqlite::Value::Null,
    };
    NativeValue { inner }
}

/// Relies on the engine's value type being a five-variant union mirroring
/// [`Value`], and on `to_bits` of a native double returning exactly its
/// IEEE 754 bit pattern: the value built here carries the same variant
/// and payload as the native argument.
#[verifier::external_body]
pub(crate) fn from_native(n: NativeValue) -> (r: Value)
    ensures
        r@ == native_view(n),
{
    match n.inner {
        sqlite::Value::Binary(b) => Value::Binary(b),
        sqlite::Value::Float(x) => Value::Float(x.to_bits()),
        sqlite::Value::Integer(i) => Value::Integer(i),
        sqlite::Value::String(s) => Value::String(s),
        sqlite::Value::Null => Value::Null,
    }
}

/// Relies on `sqlite::open`: opens a read-write connection to a new or
/// existing database at the given path, or reports why it cannot, here as
/// a backend error carrying the engine's message.
#[verifier::external_body]
pub(crate) fn open_connection(path: &str) -> (r: Result<sqlite::Connection, Error>)
    ensures
        r matches Err(e) ==> e is DB,
{
    match sqlite::open(path) {
        Ok(conn) => Ok(conn),
        Err(e) => Err(Error::DB { cause: e.to_string() }),
    }
}

/// Relies on `sqlite::Connection::execute`: runs a statement to
/// completion without processing resulting rows, if any.
#[verifier::external_body]
pub(crate) fn execute_sql(conn: &sqlite::Connection, sql: &str) -> (r: Result<(), Error>)
    ensures
        r matches Err(e) ==> e is DB,
{
    match conn.execute(sql) {
        Ok(u) => Ok(u),
        Err(e) => Err(Error::DB { cause: e.to_string() }),
    }
}

/// Relies on `sqlite::Connection::prepare`: compiles the statement text
/// into a prepared statement against this connection.
#[verifier::external_body]
pub(crate) fn prepare_stmt<'c>(conn: &'c sqlite::Connection, sql: &str) -> (r: Result<
    sqlite::Statement<'c>,
    Error,
>)
    ensures
        r matches Err(e) ==> e is DB,
{
    match conn.prepare(sql) {
        Ok(st) => Ok(st),
        Err(e) => Err(Error::DB { cause: e.to_string() }),
    }
}

/// Relies on `sqlite::Statement::bind`: binds the native value to the
/// positional placeholder with the given one-based index.
#[verifier::external_body]
pub(crate) fn bind_native(
    st: &mut sqlite::Statement<'_>,
    index: usize,
    v: NativeValue,
) -> (r: Result<(), Error>)
    ensures
        r matches Err(e) ==> e is DB,
{
    match st.bind((index, v.inner)) {
        Ok(u) => Ok(u),
        Err(e) => Err(Error::DB { cause: e.to_string() }),
    }
}

/// Relies on `sqlite::Statement::next`: advances the statement one step,
/// reporting whether a row is available or evaluation is done.
#[verifier::external_body]
pub(crate) fn step_stmt(st: &mut sqlite::Statement<'_>) -> (r: Result<StepState, Error>)
    ensures
        r matches Err(e) ==> e is DB,
{
    match st.next() {
        Ok(sqlite::State::Row) => Ok(StepState::Row),
        Ok(sqlite::State::Done) => Ok(StepState::Done),
        Err(e) => Err(Error::DB { cause: e.to_string() }),
    }
}

/// Relies on `sqlite::Statement::read` for the engine's value type: reads
/// the cell of the current row in the column with the given zero-based
/// index.
#[verifier::external_body]
pub(crate) fn read_native(st: &sqlite::Statement<'_>, index: usize) -> (r: Result<
    NativeValue,
    Error,
>)
    ensures
        r matches Err(e) ==> e is DB,
{
    match st.read::<sqlite::Value, usize>(index) {
        Ok(inner) => Ok(NativeValue { inner }),
        Err(e) => Err(Error::DB { cause: e.to_string() }),
    }
}

/// Relies on `sqlite::Statement::column_names`: the names of the result
/// columns of the prepared statement, in column order.
#[verifier::external_body]
pub(crate) fn column_names_of(st: &sqlite::Statement<'_>) -> Vec<String> {
    st.column_names().to_vec()
}

/// Relies on `sqlite::Connection::change_count`: the number of rows the
/// most recent insert, update, or delete changed.
#[verifier::external_body]
pub(crate) fn change_count_of(conn: &sqlite::Connection) -> usize {
    conn.change_count()
}

} // verus!
