//! The failure kinds that profile operations report.
//!
//! Every operation returns a result distinguishing success from one
//! specific failure; none of the verified functions panics on user input.
//! User cancellation of an interactive step is not an error and is not
//! represented here: callers model it as the absence of collected input
//! and leave the store untouched.

use vstd::prelude::*;
use vstd::string::*;

verus! {

/// One specific failure of a profile operation.
#[derive(Debug, Clone, PartialEq, Eq)]
pub enum AppError {
    /// Free-text input broke a structural rule: an empty required name, a
    /// non-numeric sort index, or activation across tool families.
    InvalidInput(String),
    /// The structured configuration block failed to parse; carries the
    /// parser's diagnostic.
    ValidationError(String),
    /// The operation targeted an identifier that is not in the store.
    NotFound,
    /// An identifier collision on insertion.
    Conflict,
    /// The backing store rejected a write; the in-memory state was rolled
    /// back.
    PersistenceError(String),
}

impl AppError {
    /// A short description of the failure, for display by callers.
    pub fn message(&self) -> String {
        match self {
            AppError::InvalidInput(m) => m.clone(),
            AppError::ValidationError(m) => m.clone(),
            AppError::NotFound => String::from_str("not found"),
            AppError::Conflict => String::from_str("conflict"),
            AppError::PersistenceError(m) => m.clone(),
        }
    }
}

} // verus!
