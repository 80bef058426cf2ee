use vstd::prelude::*;

use crate::credentials::{verify, verify_outcome};
use crate::errors::{ServiceError, VerificationError};
use crate::objects::OwnedDataStore;
use crate::records::RecordStore;
use crate::session::Session;

verus! {

/// What the record store reported for the point lookup of a
/// credential.  `NotFound` is an expected outcome, not a failure.
#[derive(Debug)]
pub enum FetchOutcome {
    Found { stored_hash: String },
    NotFound,
    StoreFailure,
}

/// What the record store reported for the point delete of a record.
#[derive(Clone, Copy, Debug, PartialEq, Eq, Structural)]
pub enum DeleteOutcome {
    Deleted,
    StoreFailure,
}

/// What the owned-data purger reported.  An absent namespace counts
/// as already purged; `Failed` is any other storage-level failure.
#[derive(Clone, Copy, Debug, PartialEq, Eq, Structural)]
pub enum PurgeOutcome {
    Purged,
    NamespaceAbsent,
    Failed,
}

/// An entry on the internal logging channel, kept for operator
/// remediation.
#[derive(Debug)]
pub enum LogEvent {
    PurgeFailure { identifier: String },
}

/// Policy of the credential check: a decoded comparison decides
/// between success and `InvalidCredentials`; a verifier that cannot
/// use the stored hash signals an integrity problem, `InternalError`.
pub open spec fn credential_decision(outcome: Option<bool>) -> Result<(), ServiceError> {
    match outcome {
        Some(true) => Ok(()),
        Some(false) => Err(ServiceError::InvalidCredentials),
        None => Err(ServiceError::InternalError),
    }
}

/// Caller-visible outcome of the whole deletion workflow, over the
/// record store's state: an unknown identifier is `AccountNotFound`;
/// otherwise the stored hash and the candidate secret decide.
pub open spec fn deletion_outcome(
    records: Map<Seq<char>, Seq<char>>,
    identifier: Seq<char>,
    candidate: Seq<char>,
) -> Result<(), ServiceError> {
    if !records.contains_key(identifier) {
        Err(ServiceError::AccountNotFound)
    } else {
        credential_decision(verify_outcome(records[identifier], candidate))
    }
}

/// Record store state after the workflow: the record is destroyed
/// exactly where the workflow succeeds.
pub open spec fn records_after(
    records: Map<Seq<char>, Seq<char>>,
    identifier: Seq<char>,
    candidate: Seq<char>,
) -> Map<Seq<char>, Seq<char>> {
    if deletion_outcome(records, identifier, candidate) is Ok {
        records.remove(identifier)
    } else {
        records
    }
}

/// Object store state after the workflow: the namespace is purged
/// exactly where the workflow succeeds and the namespace is present
/// and accessible.
pub open spec fn objects_after(
    records: Map<Seq<char>, Seq<char>>,
    objects: Map<Seq<char>, bool>,
    identifier: Seq<char>,
    candidate: Seq<char>,
) -> Map<Seq<char>, bool> {
    if deletion_outcome(records, identifier, candidate) is Ok && objects.contains_key(identifier)
        && objects[identifier] {
        objects.remove(identifier)
    } else {
        objects
    }
}

/// Whether the workflow writes a purge failure to the logging
/// channel: the deletion succeeded, yet the namespace was there and
/// could not be removed.
pub open spec fn purge_failure_logged(
    records: Map<Seq<char>, Seq<char>>,
    objects: Map<Seq<char>, bool>,
    identifier: Seq<char>,
    candidate: Seq<char>,
) -> bool {
    deletion_outcome(records, identifier, candidate) is Ok && objects.contains_key(identifier)
        && !objects[identifier]
}

/// Orchestrator transition out of `Start`: an absent record ends the
/// workflow as `AccountNotFound`, any other store failure as
/// `InternalError`; a found record carries its stored hash forward.
pub fn on_fetch_outcome(outcome: FetchOutcome) -> (r: Result<String, ServiceError>)
    ensures
        (outcome matches FetchOutcome::Found { stored_hash } ==> r == Ok::<
            String,
            ServiceError,
        >(stored_hash)),
        outcome is NotFound ==> r == Err::<String, ServiceError>(ServiceError::AccountNotFound),
        outcome is StoreFailure ==> r == Err::<String, ServiceError>(ServiceError::InternalError),
{
    match outcome {
        FetchOutcome::Found { stored_hash } => Ok(stored_hash),
        FetchOutcome::NotFound => Err(ServiceError::AccountNotFound),
        FetchOutcome::StoreFailure => Err(ServiceError::InternalError),
    }
}

/// Orchestrator transition out of `CredentialFetched`: verifies the
/// candidate secret against the stored hash and applies the
/// credential policy.  A malformed stored hash is never reported as
/// `InvalidCredentials`.
pub fn check_credential(stored_hash: &str, candidate: &str) -> (r: Result<(), ServiceError>)
    ensures
        r == credential_decision(verify_outcome(stored_hash@, candidate@)),
{
    match verify(stored_hash, candidate) {
        Ok(true) => Ok(()),
        Ok(false) => Err(ServiceError::InvalidCredentials),
        Err(VerificationError::MalformedHash) => Err(ServiceError::InternalError),
    }
}

/// Orchestrator transition out of `Verified`: a store failure while
/// destroying the record ends the workflow as `InternalError`, with
/// no cleanup attempted.
pub fn on_delete_outcome(outcome: DeleteOutcome) -> (r: Result<(), ServiceError>)
    ensures
        outcome is Deleted ==> r == Ok::<(), ServiceError>(()),
        outcome is StoreFailure ==> r == Err::<(), ServiceError>(ServiceError::InternalError),
{
    match outcome {
        DeleteOutcome::Deleted => Ok(()),
        DeleteOutcome::StoreFailure => Err(ServiceError::InternalError),
    }
}

/// Orchestrator transition out of `RecordDeleted`: the purge is
/// best-effort.  The result says whether a failure must be logged;
/// it never turns the deletion into a failure.
pub fn on_purge_outcome(outcome: &PurgeOutcome) -> (log_failure: bool)
    ensures
        log_failure == (outcome is Failed),
{
    match outcome {
        PurgeOutcome::Failed => true,
        PurgeOutcome::Purged => false,
        PurgeOutcome::NamespaceAbsent => false,
    }
}

/// Deletion orchestrator: verifies the caller's current credential,
/// destroys the credential record, purges the owned-data namespace
/// (best-effort, logged on failure), and revokes the session.  Every
/// lookup or verification failure short-circuits before anything is
/// changed.
pub fn delete_account(
    records: &mut RecordStore,
    objects: &mut OwnedDataStore,
    session: &mut Session,
    log: &mut Vec<LogEvent>,
    identifier: &str,
    candidate: &str,
) -> (r: Result<(), ServiceError>)
    requires
        old(records).wf(),
        old(objects).wf(),
        old(session).account_id() == identifier@,
        old(session).is_active(),
    ensures
        final(records).wf(),
        final(objects).wf(),
        r == deletion_outcome(old(records)@, identifier@, candidate@),
        final(records)@ == records_after(old(records)@, identifier@, candidate@),
        final(objects)@ == objects_after(old(records)@, old(objects)@, identifier@, candidate@),
        r is Ok ==> !final(session).is_active(),
        final(session).account_id() == old(session).account_id(),
        !(r is Ok) ==> *final(records) == *old(records) && *final(objects) == *old(objects)
            && *final(session) == *old(session) && *final(log) == *old(log),
        purge_failure_logged(old(records)@, old(objects)@, identifier@, candidate@)
            ==> final(log)@.len() == old(log)@.len() + 1 && final(log)@.drop_last() == old(log)@
            && (final(log)@.last() matches LogEvent::PurgeFailure { identifier: logged }
            && logged@ == identifier@),
        !purge_failure_logged(old(records)@, old(objects)@, identifier@, candidate@) ==> *final(log)
            == *old(log),
{
    let fetched = records.fetch_credential(identifier);
    let stored_hash = match on_fetch_outcome(fetched) {
        Ok(h) => h,
        Err(e) => {
            return Err(e);
        },
    };
    if let Err(e) = check_credential(stored_hash.as_str(), candidate) {
        return Err(e);
    }
    let removed = records.delete_record(identifier);
    assert(removed);
    let purge_result = objects.purge(identifier);
    if on_purge_outcome(&purge_result) {
        let ghost pre_log = log@;
        log.push(LogEvent::PurgeFailure { identifier: identifier.to_owned() });
        proof {
            assert(log@.drop_last() =~= pre_log);
        }
    }
    session.revoke();
    Ok(())
}

/// Law: deleting the same account twice in sequence succeeds once and
/// then finds no account, whatever secret the second attempt offers.
pub proof fn lemma_deletion_idempotent_in_absence(
    records: Map<Seq<char>, Seq<char>>,
    identifier: Seq<char>,
    first: Seq<char>,
    second: Seq<char>,
)
    requires
        deletion_outcome(records, identifier, first) is Ok,
    ensures
        deletion_outcome(records_after(records, identifier, first), identifier, second) == Err::<
            (),
            ServiceError,
        >(ServiceError::AccountNotFound),
{
}

/// Law: a stored hash the verifier cannot decode yields
/// `InternalError`, never `InvalidCredentials`.
pub proof fn lemma_malformed_hash_is_internal_error(
    records: Map<Seq<char>, Seq<char>>,
    identifier: Seq<char>,
    candidate: Seq<char>,
)
    requires
        records.contains_key(identifier),
        verify_outcome(records[identifier], candidate) is None,
    ensures
        deletion_outcome(records, identifier, candidate) == Err::<(), ServiceError>(
            ServiceError::InternalError,
        ),
{
}

/// Law: a successful deletion leaves neither a record nor a namespace
/// for the identifier, as long as the namespace was absent or
/// accessible.
pub proof fn lemma_successful_deletion_leaves_no_trace(
    records: Map<Seq<char>, Seq<char>>,
    objects: Map<Seq<char>, bool>,
    identifier: Seq<char>,
    candidate: Seq<char>,
)
    requires
        deletion_outcome(records, identifier, candidate) is Ok,
        objects.contains_key(identifier) ==> objects[identifier],
    ensures
        !records_after(records, identifier, candidate).contains_key(identifier),
        !objects_after(records, objects, identifier, candidate).contains_key(identifier),
{
}

} // verus!
