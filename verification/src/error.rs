//! The ways an operation can fail.

use vstd::prelude::*;

verus! {

/// Why an operation produced no value.
#[derive(Clone, Copy, Debug, PartialEq, Eq, Structural)]
pub enum Failure {
    /// The input is malformed: a timestamp that is not in the fixed format.
    Validation,
    /// The doctor already holds an appointment at the requested time.
    Conflict,
    /// The store could not be reached, rejected a write or lacks a row that
    /// must be there.
    Persistence,
    /// No password hash could be generated.
    Hashing,
    /// No token could be signed.
    Signing,
    /// The credentials are not those of an account. Deliberately silent on
    /// whether the account exists.
    Authentication,
}

} // verus!
