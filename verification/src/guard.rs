//! Invariants that a contract can be asked to check at run time.

use vstd::prelude::*;
use vstd::string::StringExecFns;

verus! {

/// The contract environment of `soroban_sdk`, passed through untouched.
#[verifier::external_type_specification]
#[verifier::external_body]
pub struct ExEnv(soroban_sdk::Env);

/// Why a guard did not hold.
#[derive(Debug)]
pub enum Error {
    /// An invariant of the contract is broken; the text says which.
    InvariantViolation(String),
    /// The check itself could not be carried out.
    Internal(String),
}

impl Error {
    /// The text that describes the error.
    pub open spec fn message_text(&self) -> Seq<char> {
        match self {
            Error::InvariantViolation(detail) => "invariant violation: "@ + detail@,
            Error::Internal(detail) => "internal error: "@ + detail@,
        }
    }

    /// Describes the error in one line.
    pub fn message(&self) -> (text: String)
        ensures
            text@ == self.message_text(),
    {
        match self {
            Error::InvariantViolation(detail) => String::from_str("invariant violation: ").concat(
                detail.as_str(),
            ),
            Error::Internal(detail) => String::from_str("internal error: ").concat(
                detail.as_str(),
            ),
        }
    }
}

/// A contract, or a part of one, that can check an invariant of its own
/// state.
pub trait SanctifiedGuard {
    /// Checks the invariant in the given environment.
    fn check_invariant(&self, env: &soroban_sdk::Env) -> Result<(), Error>;
}

} // verus!
