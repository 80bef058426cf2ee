use account_deletion::api::Account;
use account_deletion::credentials::verify;
use account_deletion::errors::{ServiceError, VerificationError};
use account_deletion::objects::OwnedDataStore;
use account_deletion::records::RecordStore;
use account_deletion::workflow::{
    check_credential, on_delete_outcome, on_fetch_outcome, on_purge_outcome, DeleteOutcome,
    FetchOutcome, PurgeOutcome,
};

fn hash_of(secret: &str) -> String {
    argon2_creds::Config::default().password(secret).unwrap()
}

#[test]
fn verifier_tells_match_from_mismatch() {
    let hash = hash_of("a strong secret");
    assert_eq!(verify(&hash, "a strong secret"), Ok(true));
    assert_eq!(verify(&hash, "a wrong secret"), Ok(false));
}

#[test]
fn verifier_reports_malformed_hash() {
    assert_eq!(
        verify("garbage", "a strong secret"),
        Err(VerificationError::MalformedHash)
    );
}

#[test]
fn credential_check_applies_the_policy() {
    let hash = hash_of("a strong secret");
    assert_eq!(check_credential(&hash, "a strong secret"), Ok(()));
    assert_eq!(
        check_credential(&hash, "a wrong secret"),
        Err(ServiceError::InvalidCredentials)
    );
    assert_eq!(
        check_credential("garbage", "a strong secret"),
        Err(ServiceError::InternalError)
    );
}

#[test]
fn fetch_policy_maps_outcomes() {
    assert_eq!(
        on_fetch_outcome(FetchOutcome::NotFound),
        Err(ServiceError::AccountNotFound)
    );
    assert_eq!(
        on_fetch_outcome(FetchOutcome::StoreFailure),
        Err(ServiceError::InternalError)
    );
    assert_eq!(
        on_fetch_outcome(FetchOutcome::Found {
            stored_hash: "stored".to_owned()
        }),
        Ok("stored".to_owned())
    );
}

#[test]
fn delete_policy_maps_outcomes() {
    assert_eq!(on_delete_outcome(DeleteOutcome::Deleted), Ok(()));
    assert_eq!(
        on_delete_outcome(DeleteOutcome::StoreFailure),
        Err(ServiceError::InternalError)
    );
}

#[test]
fn purge_policy_logs_only_failures() {
    assert!(on_purge_outcome(&PurgeOutcome::Failed));
    assert!(!on_purge_outcome(&PurgeOutcome::Purged));
    assert!(!on_purge_outcome(&PurgeOutcome::NamespaceAbsent));
}

#[test]
fn record_store_point_lookup_and_delete() {
    let mut records = RecordStore::new();
    assert!(matches!(records.fetch_credential("alice"), FetchOutcome::NotFound));
    assert!(!records.delete_record("alice"));

    records.insert("alice".to_owned(), "hash-a".to_owned());
    records.insert("bob".to_owned(), "hash-b".to_owned());
    match records.fetch_credential("alice") {
        FetchOutcome::Found { stored_hash } => assert_eq!(stored_hash, "hash-a"),
        other => panic!("expected the record, got {:?}", other),
    }

    assert!(records.delete_record("alice"));
    assert!(matches!(records.fetch_credential("alice"), FetchOutcome::NotFound));
    // the other account is untouched
    assert!(matches!(records.fetch_credential("bob"), FetchOutcome::Found { .. }));
    assert!(!records.delete_record("alice"));
}

#[test]
fn object_store_purge_outcomes() {
    let mut objects = OwnedDataStore::new();
    assert_eq!(objects.purge("alice"), PurgeOutcome::NamespaceAbsent);

    objects.create_namespace("alice".to_owned(), true);
    objects.create_namespace("bob".to_owned(), false);
    assert_eq!(objects.namespace_status("alice"), Some(true));

    assert_eq!(objects.purge("alice"), PurgeOutcome::Purged);
    assert_eq!(objects.namespace_status("alice"), None);
    assert_eq!(objects.purge("alice"), PurgeOutcome::NamespaceAbsent);

    assert_eq!(objects.purge("bob"), PurgeOutcome::Failed);
    assert_eq!(objects.namespace_status("bob"), Some(false));
}

#[test]
fn account_routes_are_stable() {
    let routes = Account::new();
    assert_eq!(routes.delete, "/api/v1/account/delete");
    assert_eq!(routes.email_exists, "/api/v1/account/email/exists");
    assert_eq!(routes.update_email, "/api/v1/account/email/update");
    assert_eq!(routes.username_exists, "/api/v1/account/username/exists");
}
