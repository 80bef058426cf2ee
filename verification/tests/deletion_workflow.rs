use account_deletion::errors::ServiceError;
use account_deletion::objects::OwnedDataStore;
use account_deletion::records::RecordStore;
use account_deletion::session::Session;
use account_deletion::workflow::{delete_account, FetchOutcome, LogEvent};

fn hash_of(secret: &str) -> String {
    argon2_creds::Config::default().password(secret).unwrap()
}

fn seeded(
    identifier: &str,
    secret: &str,
    accessible: bool,
) -> (RecordStore, OwnedDataStore, Session) {
    let mut records = RecordStore::new();
    records.insert(identifier.to_owned(), hash_of(secret));
    let mut objects = OwnedDataStore::new();
    objects.create_namespace(identifier.to_owned(), accessible);
    let session = Session::new(identifier.to_owned());
    (records, objects, session)
}

#[test]
fn unknown_identifier_is_account_not_found() {
    let mut records = RecordStore::new();
    let mut objects = OwnedDataStore::new();
    let mut session = Session::new("carol".to_owned());
    let mut log: Vec<LogEvent> = Vec::new();

    let r = delete_account(
        &mut records,
        &mut objects,
        &mut session,
        &mut log,
        "carol",
        "some secret",
    );

    assert_eq!(r, Err(ServiceError::AccountNotFound));
    assert!(matches!(records.fetch_credential("carol"), FetchOutcome::NotFound));
    assert!(session.active());
    assert!(log.is_empty());
}

#[test]
fn correct_secret_removes_record_data_and_session() {
    let (mut records, mut objects, mut session) = seeded("alice", "correct horse", true);
    let mut log: Vec<LogEvent> = Vec::new();

    let r = delete_account(
        &mut records,
        &mut objects,
        &mut session,
        &mut log,
        "alice",
        "correct horse",
    );

    assert_eq!(r, Ok(()));
    assert!(matches!(records.fetch_credential("alice"), FetchOutcome::NotFound));
    assert_eq!(objects.namespace_status("alice"), None);
    assert!(!session.active());
    assert!(log.is_empty());
}

#[test]
fn wrong_secret_is_rejected_and_changes_nothing() {
    let (mut records, mut objects, mut session) = seeded("alice", "correct horse", true);
    let mut log: Vec<LogEvent> = Vec::new();

    let r = delete_account(
        &mut records,
        &mut objects,
        &mut session,
        &mut log,
        "alice",
        "incorrect horse",
    );

    assert_eq!(r, Err(ServiceError::InvalidCredentials));
    match records.fetch_credential("alice") {
        FetchOutcome::Found { stored_hash } => {
            // the stored hash is untouched: it still verifies the real secret
            assert_eq!(
                account_deletion::credentials::verify(&stored_hash, "correct horse"),
                Ok(true)
            );
        }
        other => panic!("record should still be there, got {:?}", other),
    }
    assert_eq!(objects.namespace_status("alice"), Some(true));
    assert!(session.active());
    assert!(log.is_empty());
}

#[test]
fn second_deletion_reports_account_not_found() {
    let (mut records, mut objects, mut session) = seeded("dave", "pass phrase", true);
    let mut log: Vec<LogEvent> = Vec::new();

    let first = delete_account(
        &mut records,
        &mut objects,
        &mut session,
        &mut log,
        "dave",
        "pass phrase",
    );
    assert_eq!(first, Ok(()));

    let mut second_session = Session::new("dave".to_owned());
    let second = delete_account(
        &mut records,
        &mut objects,
        &mut second_session,
        &mut log,
        "dave",
        "pass phrase",
    );
    assert_eq!(second, Err(ServiceError::AccountNotFound));
}

#[test]
fn purge_failure_still_succeeds_but_is_logged() {
    let (mut records, mut objects, mut session) = seeded("bob", "another secret", false);
    let mut log: Vec<LogEvent> = Vec::new();

    let r = delete_account(
        &mut records,
        &mut objects,
        &mut session,
        &mut log,
        "bob",
        "another secret",
    );

    assert_eq!(r, Ok(()));
    assert!(matches!(records.fetch_credential("bob"), FetchOutcome::NotFound));
    // the orphaned namespace is still there, for operator remediation
    assert_eq!(objects.namespace_status("bob"), Some(false));
    assert!(!session.active());
    assert_eq!(log.len(), 1);
    assert!(matches!(&log[0], LogEvent::PurgeFailure { identifier } if identifier == "bob"));
}

#[test]
fn absent_namespace_counts_as_already_purged() {
    let mut records = RecordStore::new();
    records.insert("erin".to_owned(), hash_of("a pass phrase"));
    let mut objects = OwnedDataStore::new();
    let mut session = Session::new("erin".to_owned());
    let mut log: Vec<LogEvent> = Vec::new();

    let r = delete_account(
        &mut records,
        &mut objects,
        &mut session,
        &mut log,
        "erin",
        "a pass phrase",
    );

    assert_eq!(r, Ok(()));
    assert!(log.is_empty());
    assert!(!session.active());
}

#[test]
fn malformed_stored_hash_is_internal_error() {
    let mut records = RecordStore::new();
    records.insert("frank".to_owned(), "not-an-encoded-hash".to_owned());
    let mut objects = OwnedDataStore::new();
    objects.create_namespace("frank".to_owned(), true);
    let mut session = Session::new("frank".to_owned());
    let mut log: Vec<LogEvent> = Vec::new();

    let r = delete_account(
        &mut records,
        &mut objects,
        &mut session,
        &mut log,
        "frank",
        "some secret",
    );

    assert_eq!(r, Err(ServiceError::InternalError));
    assert!(matches!(records.fetch_credential("frank"), FetchOutcome::Found { .. }));
    assert_eq!(objects.namespace_status("frank"), Some(true));
    assert!(session.active());
    assert!(log.is_empty());
}
