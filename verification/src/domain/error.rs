use vstd::prelude::*;

verus! {

/// The error taxonomy of the five user-facing operations.
#[derive(Debug, PartialEq, Eq, Structural)]
pub enum AuthAPIError {
    UserAlreadyExists,
    InvalidCredentials,
    IncorrectCredentials,
    MissingToken,
    InvalidToken,
    UnexpectedError,
}

} // verus!
