//! Account-deletion workflow for a multi-tenant storage service.
//!
//! A user who is already authenticated may permanently remove their
//! account.  Doing so requires verifying the current credential,
//! destroying the persisted credential record, purging every object the
//! account owns, and revoking the active session.  The workflow is
//! modelled here over in-memory stores so that its ordering and failure
//! policy are machine-checked; the surrounding process wires the same
//! policy to its real record store, object store and session framework.

pub mod api;
pub mod credentials;
pub mod errors;
pub mod kv;
pub mod objects;
pub mod records;
pub mod session;
pub mod workflow;
