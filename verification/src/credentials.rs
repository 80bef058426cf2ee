use vstd::prelude::*;

use crate::errors::VerificationError;

verus! {

/// What `argon2_creds::Config::verify` returns for a stored hash and a
/// candidate secret: `Some(true)` on a match, `Some(false)` on a
/// well-formed mismatch, `None` where the stored hash cannot be used
/// (chiefly, where it fails to decode).  The verification re-hashes the
/// candidate with the parameters recorded in the stored hash, so the
/// outcome is a function of the two strings alone.
pub uninterp spec fn verify_outcome(stored_hash: Seq<char>, candidate: Seq<char>) -> Option<bool>;

/// Relies on `argon2_creds::Config::verify`, which decodes the stored
/// encoded hash and re-hashes the candidate under the decoded
/// parameters; its result is deterministic in the two arguments.
#[verifier::external_body]
fn argon2_verify(stored_hash: &str, candidate: &str) -> (r: Option<bool>)
    ensures
        r == verify_outcome(stored_hash@, candidate@),
{
    match argon2_creds::Config::verify(stored_hash, candidate) {
        Ok(matched) => Some(matched),
        Err(_) => None,
    }
}

/// Credential verifier: checks a candidate secret against the stored
/// hash.  A failure to decode the stored hash is reported as
/// `MalformedHash`, never conflated with a mismatch.
pub fn verify(stored_hash: &str, candidate: &str) -> (r: Result<bool, VerificationError>)
    ensures
        r == (match verify_outcome(stored_hash@, candidate@) {
            Some(matched) => Ok::<bool, VerificationError>(matched),
            None => Err::<bool, VerificationError>(VerificationError::MalformedHash),
        }),
{
    match argon2_verify(stored_hash, candidate) {
        Some(matched) => Ok(matched),
        None => Err(VerificationError::MalformedHash),
    }
}

} // verus!
