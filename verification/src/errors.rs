use vstd::prelude::*;

verus! {

/// Caller-visible outcome taxonomy of the deletion workflow.
///
/// `AccountNotFound` and `InvalidCredentials` are expected, user-facing
/// failures; `InternalError` covers store failures and integrity
/// problems such as a stored credential hash that cannot be decoded.
#[derive(Clone, Copy, Debug, PartialEq, Eq, Structural)]
pub enum ServiceError {
    AccountNotFound,
    InvalidCredentials,
    InternalError,
}

/// Failure of the credential verifier itself, as opposed to a
/// well-formed mismatch: the stored hash could not be parsed.
#[derive(Clone, Copy, Debug, PartialEq, Eq, Structural)]
pub enum VerificationError {
    MalformedHash,
}

} // verus!
