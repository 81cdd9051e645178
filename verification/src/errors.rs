//! Error taxonomy of the service.
//!
//! Validation failures and "not found" are recoverable conditions reported to
//! the caller; build failures are programming-contract violations at the call
//! site; infrastructure failures cover connection acquisition, statement
//! execution and commit; an invariant violation marks a keyed read that
//! matched several rows, which a backend reports as an internal failure but
//! keeps distinguishable in diagnostics.

use vstd::prelude::*;

verus! {

/// Classification of a failure, mirroring the recoverable / internal split.
#[derive(Clone, Copy, Debug, PartialEq, Eq, Structural)]
pub enum ErrorCode {
    /// Raw input failed a parser's constraint; `field` names the offender.
    ValidationError,
    /// A read by identifier matched zero rows.
    NotFound,
    /// The statement builder could not produce a valid statement.
    BuildError,
    /// Connection acquisition, execution or commit failed.
    InfraError,
    /// A read by unique identifier matched more than one row.
    InvariantViolation,
}

/// A reportable failure: a classification plus the offending field, when the
/// failure is a validation failure (empty otherwise).
#[derive(Debug, PartialEq, Eq)]
pub struct ServerError {
    pub code: ErrorCode,
    pub field: String,
}

impl ServerError {
    /// A validation failure citing the offending field.
    pub fn invalid_params(field: &str) -> (r: ServerError)
        ensures
            r.code == ErrorCode::ValidationError,
            r.field@ == field@,
    {
        ServerError { code: ErrorCode::ValidationError, field: field.to_owned() }
    }

    /// A "matched zero rows" result for a keyed read.
    pub fn not_found() -> (r: ServerError)
        ensures
            r.code == ErrorCode::NotFound,
            r.field@ == Seq::<char>::empty(),
    {
        ServerError { code: ErrorCode::NotFound, field: String::new() }
    }

    /// A builder failure: a required structural piece was missing.
    pub fn build_error() -> (r: ServerError)
        ensures
            r.code == ErrorCode::BuildError,
            r.field@ == Seq::<char>::empty(),
    {
        ServerError { code: ErrorCode::BuildError, field: String::new() }
    }

    /// An infrastructure failure (pool, execution, commit, constraint).
    pub fn infra() -> (r: ServerError)
        ensures
            r.code == ErrorCode::InfraError,
            r.field@ == Seq::<char>::empty(),
    {
        ServerError { code: ErrorCode::InfraError, field: String::new() }
    }

    /// A keyed read matched several rows: corrupted uniqueness.
    pub fn invariant_violation() -> (r: ServerError)
        ensures
            r.code == ErrorCode::InvariantViolation,
            r.field@ == Seq::<char>::empty(),
    {
        ServerError { code: ErrorCode::InvariantViolation, field: String::new() }
    }
}

} // verus!
