//! The value model and the predicate algebra that every backend shares.

use vstd::prelude::*;

use crate::errors::Error;

verus! {

/// The storage-agnostic contract of a backend: connect, run a
/// non-returning command, run a parameterized query returning rows,
/// insert a row, update rows matching conditions. What each operation
/// promises depends on the backend; the one concrete implementation
/// states its contracts on its own methods, and this boundary exists so
/// a second backend can be added without touching callers.
pub trait DataSource: Sized {
    /// Opens exactly one connection to the backend at the given path; a
    /// refusal surfaces as a backend error.
    fn connect(path: &str) -> (r: Result<Self, Error>)
        ensures
            r matches Err(e) ==> e is DB,
    ;

    /// Executes a non-parameterized statement to completion, for side
    /// effect only; any failure surfaces as a backend error.
    fn command(&self, statement: &str) -> (r: Result<(), Error>)
        ensures
            r matches Err(e) ==> e is DB,
    ;

    /// Binds the parameters positionally, executes, and materializes
    /// every result row eagerly; any failure surfaces as a backend error.
    fn query(&self, statement: &str, params: &[Value]) -> (r: Result<Vec<Row>, Error>)
        ensures
            r matches Err(e) ==> e is DB,
    ;

    /// Inserts one row with the given column/value pairs and returns the
    /// backend-reported changed-row count; any failure surfaces as a
    /// backend error, never a partial application.
    fn insert(&self, table: &str, item: &[(String, Value)]) -> (r: Result<usize, Error>)
        ensures
            r matches Err(e) ==> e is DB,
    ;

    /// Updates the rows matching all conditions with the given SET pairs
    /// and returns the backend-reported changed-row count. An empty
    /// condition list is never applied: it fails rather than updating
    /// every row.
    fn update(
        &self,
        table: &str,
        sets: &[(String, Value)],
        conditions: &[FieldCondition],
    ) -> (r: Result<usize, Error>)
        ensures
            conditions@.len() == 0 ==> r is Err,
            r matches Err(e) ==> e is DB,
    ;
}

/// The mathematical content of a [`Value`]: the active variant together
/// with its payload, with text as a sequence of characters and binary data
/// as a sequence of bytes.
pub enum ValueView {
    Binary(Seq<u8>),
    Float(u64),
    Integer(i64),
    String(Seq<char>),
    Null,
}

/// A datum that can cross the boundary between configuration or query code
/// and the storage engine. Exactly one variant is active at a time; values
/// are owned data, never references into the store.
///
/// A floating-point number is held as the bit pattern of an IEEE 754
/// double, so that it can be carried and compared without floating-point
/// arithmetic; the backend adapter turns the bits into a native double at
/// the boundary and back, losslessly.
#[derive(Debug)]
pub enum Value {
    /// Binary data.
    Binary(Vec<u8>),
    /// A floating-point number, as the bits of an IEEE 754 double.
    Float(u64),
    /// An integer number.
    Integer(i64),
    /// A string.
    String(String),
    /// A null value.
    Null,
}

impl View for Value {
    type V = ValueView;

    open spec fn view(&self) -> ValueView {
        match self {
            Value::Binary(b) => ValueView::Binary(b@),
            Value::Float(bits) => ValueView::Float(*bits),
            Value::Integer(n) => ValueView::Integer(*n),
            Value::String(s) => ValueView::String(s@),
            Value::Null => ValueView::Null,
        }
    }
}

impl Clone for Value {
    fn clone(&self) -> (r: Self)
        ensures
            r@ == self@,
    {
        match self {
            Value::Binary(b) => Value::Binary(clone_bytes(b)),
            Value::Float(bits) => Value::Float(*bits),
            Value::Integer(n) => Value::Integer(*n),
            Value::String(s) => Value::String(s.clone()),
            Value::Null => Value::Null,
        }
    }
}

/// Clones a byte vector, keeping its contents.
fn clone_bytes(b: &Vec<u8>) -> (r: Vec<u8>)
    ensures
        r@ == b@,
{
    let r = b.clone();
    proof {
        assert(r@ =~= b@);
    }
    r
}

impl Default for Value {
    /// The default value is null, as for the backend's own value type.
    fn default() -> (r: Self)
        ensures
            r@ == ValueView::Null,
    {
        Value::Null
    }
}

impl PartialEq for Value {
    /// Two values are equal when the same variant is active and the
    /// payloads are equal.
    fn eq(&self, other: &Self) -> (r: bool)
    {
        match (self, other) {
            (Value::Binary(a), Value::Binary(b)) => eq_bytes(a, b),
            (Value::Float(a), Value::Float(b)) => *a == *b,
            (Value::Integer(a), Value::Integer(b)) => *a == *b,
            (Value::String(a), Value::String(b)) => *a == *b,
            (Value::Null, Value::Null) => true,
            _ => false,
        }
    }
}

impl vstd::std_specs::cmp::PartialEqSpecImpl for Value {
    open spec fn obeys_eq_spec() -> bool {
        true
    }

    open spec fn eq_spec(&self, other: &Self) -> bool {
        self@ == other@
    }
}

/// Compares two byte vectors for equality of their contents.
fn eq_bytes(a: &Vec<u8>, b: &Vec<u8>) -> (r: bool)
    ensures
        r == (a@ == b@),
{
    if a.len() != b.len() {
        proof {
            assert(a@ != b@);
        }
        return false;
    }
    let n = a.len();
    let mut i: usize = 0;
    while i < n
        invariant
            n == a.len() == b.len(),
            i <= n,
            forall|j: int| 0 <= j < i ==> a@[j] == b@[j],
        decreases n - i,
    {
        if a[i] != b[i] {
            return false;
        }
        i = i + 1;
    }
    proof {
        assert(a@ =~= b@);
    }
    true
}

impl From<i64> for Value {
    fn from(n: i64) -> (r: Self) {
        Value::Integer(n)
    }
}

impl From<String> for Value {
    fn from(s: String) -> (r: Self) {
        Value::String(s)
    }
}

impl<'a> From<&'a str> for Value {
    fn from(s: &'a str) -> (r: Self) {
        Value::String(s.to_owned())
    }
}

impl From<Vec<u8>> for Value {
    fn from(b: Vec<u8>) -> (r: Self) {
        Value::Binary(b)
    }
}

impl vstd::std_specs::convert::FromSpecImpl<i64> for Value {
    open spec fn obeys_from_spec() -> bool {
        true
    }

    open spec fn from_spec(n: i64) -> Self {
        Value::Integer(n)
    }
}

impl vstd::std_specs::convert::FromSpecImpl<String> for Value {
    open spec fn obeys_from_spec() -> bool {
        true
    }

    open spec fn from_spec(s: String) -> Self {
        Value::String(s)
    }
}

impl vstd::std_specs::convert::FromSpecImpl<Vec<u8>> for Value {
    open spec fn obeys_from_spec() -> bool {
        true
    }

    open spec fn from_spec(b: Vec<u8>) -> Self {
        Value::Binary(b)
    }
}

impl<'a> vstd::std_specs::convert::FromSpecImpl<&'a str> for Value {
    /// No spec-level description: an owned string cannot be built from a
    /// borrowed slice in specification code, so nothing is claimed of this
    /// conversion.
    open spec fn obeys_from_spec() -> bool {
        false
    }

    open spec fn from_spec(s: &'a str) -> Self {
        Value::Null
    }
}

/// A predicate over one field and zero, one, or two values, used to build
/// the WHERE clause of an update. The field name must match a column of
/// the target table; it is not validated against a live schema, so an
/// unknown field surfaces only as a backend execution error.
#[derive(Debug, Clone)]
pub enum FieldCondition {
    /// The field equals the value.
    Equal(String, Value),
    /// The field differs from the value.
    NotEqual(String, Value),
    /// The field exceeds the value.
    GreaterThan(String, Value),
    /// The field is below the value.
    LessThan(String, Value),
    /// The field is not null.
    IsNotNull(String),
    /// The field is null.
    IsNull(String),
    /// The field lies between the two values, inclusive on both ends.
    Between(String, Value, Value),
}

/// One result record: an association of column names with values, in the
/// column order of the result. A later column with the same name shadows
/// an earlier one, as it would in a name-keyed map filled in column order.
#[derive(Debug)]
pub struct Row {
    cols: Vec<(String, Value)>,
}

/// Looks a name up in an association sequence, later entries first.
pub open spec fn assoc_lookup(s: Seq<(Seq<char>, ValueView)>, name: Seq<char>) -> Option<ValueView>
    decreases s.len(),
{
    if s.len() == 0 {
        None
    } else if s.last().0 == name {
        Some(s.last().1)
    } else {
        assoc_lookup(s.drop_last(), name)
    }
}

impl View for Row {
    type V = Seq<(Seq<char>, ValueView)>;

    closed spec fn view(&self) -> Seq<(Seq<char>, ValueView)> {
        self.cols@.map_values(|p: (String, Value)| (p.0@, p.1@))
    }
}

impl Row {
    /// A row over the given columns, in order.
    pub fn new(cols: Vec<(String, Value)>) -> (r: Self)
        ensures
            r@.len() == cols@.len(),
            forall|i: int|
                0 <= i < cols@.len() ==> r@[i] == (cols@[i].0@, cols@[i].1@),
    {
        Row { cols }
    }

    /// The number of columns in the row.
    pub fn len(&self) -> (n: usize)
        ensures
            n == self@.len(),
    {
        self.cols.len()
    }

    /// The value of the named column, or nothing when the row has no such
    /// column. When several columns share the name, the last one wins.
    pub fn get(&self, name: &str) -> (r: Option<&Value>)
        ensures
            match r {
                Some(v) => assoc_lookup(self@, name@) == Some(v@),
                None => assoc_lookup(self@, name@) is None,
            },
    {
        let n = self.cols.len();
        let mut i: usize = n;
        proof {
            assert(self@.take(n as int) =~= self@);
        }
        while i > 0
            invariant
                i <= n,
                n == self.cols.len(),
                assoc_lookup(self@, name@) == assoc_lookup(self@.take(i as int), name@),
            decreases i,
        {
            proof {
                assert(self@.take(i as int).last() == (self.cols@[i - 1].0@, self.cols@[i - 1].1@));
                assert(self@.take(i as int).drop_last() =~= self@.take(i - 1));
            }
            if str_eq(self.cols[i - 1].0.as_str(), name) {
                return Some(&self.cols[i - 1].1);
            }
            i = i - 1;
        }
        proof {
            assert(self@.take(0) =~= Seq::<(Seq<char>, ValueView)>::empty());
        }
        None
    }
}

/// Relies on `str::eq`: two string slices are equal exactly when their
/// characters are equal.
pub assume_specification[ <str as PartialEq>::eq ](a: &str, b: &str) -> (r: bool)
    ensures
        r == (a@ == b@),
;

/// Compares two string slices by their characters.
fn str_eq(a: &str, b: &str) -> (r: bool)
    ensures
        r == (a@ == b@),
{
    a.eq(b)
}

} // verus!
