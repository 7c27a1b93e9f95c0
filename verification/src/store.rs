//! How a failure of the record store is told apart and reported.
//!
//! The store itself is the caller's. The session is handed the outcome of
//! each call, and the functions here say what a failure means.

use vstd::prelude::*;
use vstd::string::StringExecFns;

verus! {

/// Why a call to the record store failed.
#[derive(Debug, PartialEq, Eq)]
pub enum StoreError {
    /// The passphrase does not open the existing store.
    Authentication,
    /// Any other failure to open, read or write, with the store's own words.
    Io(String),
}

/// What the program prints when the passphrase is wrong.
pub open spec fn invalid_passphrase_line() -> Seq<char> {
    "passphrase is not valid!"@
}

impl StoreError {
    /// The error for a store that could not be opened. It is an
    /// authentication error exactly when the store reported that the file is
    /// not a database it can read under this passphrase; every other failure
    /// is an I/O error that carries the store's description.
    pub fn on_open(not_a_database: bool, description: String) -> (error: StoreError)
        ensures
            not_a_database ==> error == StoreError::Authentication,
            !not_a_database ==> error == StoreError::Io(description),
    {
        if not_a_database {
            StoreError::Authentication
        } else {
            StoreError::Io(description)
        }
    }

    /// The line that reports this error: a fixed sentence for a wrong
    /// passphrase, the store's own words for anything else.
    pub open spec fn diagnostic_line(self) -> Seq<char> {
        match self {
            StoreError::Authentication => invalid_passphrase_line(),
            StoreError::Io(words) => words@,
        }
    }

    /// The one line that reports this error to the user.
    pub fn diagnostic(&self) -> (line: String)
        ensures
            line@ == self.diagnostic_line(),
    {
        match self {
            StoreError::Authentication => String::from_str("passphrase is not valid!"),
            StoreError::Io(words) => words.clone(),
        }
    }
}

impl Clone for StoreError {
    fn clone(&self) -> (copy: Self)
        ensures
            copy == *self,
    {
        match self {
            StoreError::Authentication => StoreError::Authentication,
            StoreError::Io(words) => StoreError::Io(words.clone()),
        }
    }
}

} // verus!
