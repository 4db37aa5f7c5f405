use link_shortener::link::Link;
use link_shortener::mutator::{create, update, CreateOutcome, UpdateOutcome};
use link_shortener::resolver::{resolve, RedirectOutcome};
use link_shortener::response::{redirect, Body, HttpResponse};
use link_shortener::store::{InsertReply, LookupReply, StoreError, StoreErrorKind, UpdateReply};

fn failure(kind: StoreErrorKind) -> StoreError {
    StoreError { kind, cause: "connection refused by 10.0.0.7".to_string() }
}

fn link(id: &str, target_url: &str) -> Link {
    Link { id: id.to_string(), target_url: target_url.to_string() }
}

fn internal_error() -> HttpResponse {
    HttpResponse { status: 500, headers: vec![], body: Body::Text("internal error".to_string()) }
}

#[test]
fn missed_deadline_resolves_to_timeout() {
    let outcome = resolve(LookupReply::DeadlineExceeded);
    assert_eq!(outcome, RedirectOutcome::Timeout);
    assert_ne!(outcome, RedirectOutcome::NotFound);
    assert!(!matches!(outcome, RedirectOutcome::Found(_)));
    assert_eq!(outcome.status(), 500);
}

#[test]
fn failed_lookup_resolves_to_storage_error_with_cause() {
    let outcome = resolve(LookupReply::Failed(failure(StoreErrorKind::Other)));
    assert_eq!(outcome, RedirectOutcome::Storage(failure(StoreErrorKind::Other)));
    assert_eq!(outcome.status(), 500);
}

#[test]
fn empty_lookup_resolves_to_not_found() {
    let outcome = resolve(LookupReply::Completed(None));
    assert_eq!(outcome, RedirectOutcome::NotFound);
    assert_eq!(outcome.status(), 404);
}

#[test]
fn completed_lookup_resolves_to_target() {
    let outcome = resolve(LookupReply::Completed(Some(link("abc", "https://example.com"))));
    assert_eq!(outcome, RedirectOutcome::Found("https://example.com".to_string()));
    assert_eq!(outcome.status(), 307);
}

#[test]
fn timeout_and_failure_answer_with_opaque_500() {
    assert_eq!(redirect(LookupReply::DeadlineExceeded), internal_error());
    assert_eq!(redirect(LookupReply::Failed(failure(StoreErrorKind::Other))), internal_error());
    assert_eq!(
        redirect(LookupReply::Failed(failure(StoreErrorKind::UniqueViolation))),
        internal_error()
    );
}

#[test]
fn create_classifies_insert_replies() {
    let created = create(link("abc", "https://example.com"), InsertReply::Inserted);
    assert_eq!(created, CreateOutcome::Created(link("abc", "https://example.com")));
    assert_eq!(created.status(), 201);

    let conflict = create(
        link("abc", "https://example.com"),
        InsertReply::Failed(failure(StoreErrorKind::UniqueViolation)),
    );
    assert_eq!(conflict, CreateOutcome::Storage(failure(StoreErrorKind::UniqueViolation)));
    assert_eq!(conflict.status(), 409);

    let broken = create(
        link("abc", "https://example.com"),
        InsertReply::Failed(failure(StoreErrorKind::Other)),
    );
    assert_eq!(broken.status(), 500);
    assert_eq!(broken.into_response(), internal_error());
}

#[test]
fn update_classifies_rows_affected() {
    assert_eq!(update(UpdateReply::RowsAffected(0)), UpdateOutcome::NotFound);
    assert_eq!(update(UpdateReply::RowsAffected(1)), UpdateOutcome::Updated);
    assert_eq!(update(UpdateReply::RowsAffected(2)), UpdateOutcome::Updated);
    assert_eq!(update(UpdateReply::RowsAffected(u64::MAX)), UpdateOutcome::Updated);
    let broken = update(UpdateReply::Failed(failure(StoreErrorKind::Other)));
    assert_eq!(broken, UpdateOutcome::Storage(failure(StoreErrorKind::Other)));
    assert_eq!(UpdateOutcome::NotFound.status(), 404);
    assert_eq!(UpdateOutcome::Updated.status(), 200);
    assert_eq!(broken.status(), 500);
    assert_eq!(broken.into_response(), internal_error());
}
