use vstd::prelude::*;

verus! {

/// The storage engine's error, carried through unchanged.
#[verifier::external_type_specification]
#[verifier::external_body]
pub struct ExSqlError(rusqlite::Error);

/// A connection to the storage engine.
#[verifier::external_type_specification]
#[verifier::external_body]
pub struct ExConnection(rusqlite::Connection);

} // verus!
