use link_shortener::link::Link;
use link_shortener::memory::MemoryStore;
use link_shortener::resolver::{resolve, RedirectOutcome};
use link_shortener::store::{InsertReply, LookupReply, StoreError, StoreErrorKind, UpdateReply};

fn link(id: &str, target_url: &str) -> Link {
    Link { id: id.to_string(), target_url: target_url.to_string() }
}

fn found(target_url: &str) -> RedirectOutcome {
    RedirectOutcome::Found(target_url.to_string())
}

#[test]
fn new_store_holds_nothing() {
    let store = MemoryStore::new();
    assert_eq!(store.get("abc"), LookupReply::Completed(None));
    assert_eq!(store.get(""), LookupReply::Completed(None));
}

#[test]
fn stored_link_resolves_to_latest_target() {
    let mut store = MemoryStore::new();
    assert_eq!(store.insert(link("a", "https://one.example")), InsertReply::Inserted);
    assert_eq!(store.insert(link("b", "https://two.example")), InsertReply::Inserted);
    assert_eq!(
        store.update_target("a", "https://three.example".to_string()),
        UpdateReply::RowsAffected(1)
    );
    assert_eq!(
        store.update_target("a", "https://four.example".to_string()),
        UpdateReply::RowsAffected(1)
    );
    assert_eq!(resolve(store.get("a")), found("https://four.example"));
    assert_eq!(resolve(store.get("b")), found("https://two.example"));
    assert_eq!(store.get("a"), LookupReply::Completed(Some(link("a", "https://four.example"))));
}

#[test]
fn never_written_identifier_is_not_found() {
    let mut store = MemoryStore::new();
    assert_eq!(store.insert(link("a", "https://one.example")), InsertReply::Inserted);
    assert_eq!(resolve(store.get("b")), RedirectOutcome::NotFound);
    assert_eq!(resolve(store.get("A")), RedirectOutcome::NotFound);
    assert_eq!(resolve(store.get("aa")), RedirectOutcome::NotFound);
}

#[test]
fn create_then_resolve_finds_the_target() {
    let mut store = MemoryStore::new();
    assert_eq!(store.insert(link("abc", "https://example.com")), InsertReply::Inserted);
    assert_eq!(resolve(store.get("abc")), found("https://example.com"));
}

#[test]
fn update_then_resolve_finds_the_new_target() {
    let mut store = MemoryStore::new();
    assert_eq!(store.insert(link("abc", "https://example.com")), InsertReply::Inserted);
    assert_eq!(
        store.update_target("abc", "https://other.com".to_string()),
        UpdateReply::RowsAffected(1)
    );
    assert_eq!(resolve(store.get("abc")), found("https://other.com"));
}

#[test]
fn update_of_unwritten_identifier_changes_nothing() {
    let mut store = MemoryStore::new();
    assert_eq!(store.insert(link("abc", "https://example.com")), InsertReply::Inserted);
    assert_eq!(
        store.update_target("xyz", "https://other.com".to_string()),
        UpdateReply::RowsAffected(0)
    );
    assert_eq!(resolve(store.get("xyz")), RedirectOutcome::NotFound);
    assert_eq!(resolve(store.get("abc")), found("https://example.com"));
}

#[test]
fn taken_identifier_is_a_unique_violation() {
    let mut store = MemoryStore::new();
    assert_eq!(store.insert(link("abc", "https://example.com")), InsertReply::Inserted);
    assert_eq!(
        store.insert(link("abc", "https://other.com")),
        InsertReply::Failed(StoreError {
            kind: StoreErrorKind::UniqueViolation,
            cause: "duplicate identifier".to_string(),
        })
    );
    assert_eq!(resolve(store.get("abc")), found("https://example.com"));
}

#[test]
fn empty_identifier_is_refused() {
    let mut store = MemoryStore::new();
    assert_eq!(
        store.insert(link("", "https://example.com")),
        InsertReply::Failed(StoreError {
            kind: StoreErrorKind::Other,
            cause: "empty identifier".to_string(),
        })
    );
    assert_eq!(store.get(""), LookupReply::Completed(None));
    assert_eq!(
        store.update_target("", "https://example.com".to_string()),
        UpdateReply::RowsAffected(0)
    );
}

#[test]
fn storable_needs_both_fields() {
    assert!(link("abc", "https://example.com").is_storable());
    assert!(!link("", "https://example.com").is_storable());
    assert!(!link("abc", "").is_storable());
    assert!(!link("", "").is_storable());
    let built = Link::new("abc".to_string(), "https://example.com".to_string());
    assert_eq!(built, link("abc", "https://example.com"));
    assert_eq!(built.duplicate(), built);
}
