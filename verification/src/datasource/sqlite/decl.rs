//! Declarations of the embedded SQL engine's connection and statement
//! types. The types are opaque here: values of them are carried through,
//! never inspected directly.

use vstd::prelude::*;

verus! {

#[verifier::external_type_specification]
#[verifier::external_body]
pub struct ExConnection(sqlite::Connection);

#[verifier::external_type_specification]
#[verifier::external_body]
pub struct ExStatement<'l>(sqlite::Statement<'l>);

} // verus!
