//! The library's error type.
use vstd::prelude::*;

verus! {

#[verifier::external_type_specification]
#[verifier::external_body]
pub struct ExSqliteError(rusqlite::Error);

/// What can go wrong: only storage can fail.
#[derive(Debug)]
pub enum KCError {
    Database(rusqlite::Error),
}

} // verus!
