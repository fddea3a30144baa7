//! How an operation of the store can fail.

use vstd::prelude::*;

verus! {

/// The ways in which an operation of the store fails.
#[derive(Debug, Clone, Copy, PartialEq, Eq, Structural)]
pub enum StoreError {
    /// The operation names a record that the store does not hold.
    NotFound,
    /// A snapshot could not be read back.
    PersistenceFailure,
}

impl StoreError {
    /// The failure in words.
    pub fn message(&self) -> (text: String)
        ensures
            text@ == match *self {
                StoreError::NotFound => "not found"@,
                StoreError::PersistenceFailure => "persistence failure"@,
            },
    {
        match self {
            StoreError::NotFound => "not found".to_owned(),
            StoreError::PersistenceFailure => "persistence failure".to_owned(),
        }
    }
}

} // verus!
