use link_shortener::link::Link;
use link_shortener::memory::MemoryStore;
use link_shortener::mutator::{insert_request, update_request};
use link_shortener::resolver::{lookup_request, LOOKUP_DEADLINE_MS};
use link_shortener::response::{
    create_link, health, redirect, update_link, Body, Header, HttpResponse,
    DEFAULT_CACHE_CONTROL_HEADER_VALUE,
};

fn header(name: &str, value: &str) -> Header {
    Header { name: name.to_string(), value: value.to_string() }
}

fn get(store: &MemoryStore, id: &str) -> HttpResponse {
    let request = lookup_request(id.to_string());
    assert_eq!(request.deadline_ms, LOOKUP_DEADLINE_MS);
    redirect(store.get(&request.id))
}

#[test]
fn create_redirect_update_redirect_missing() {
    let mut store = MemoryStore::new();

    let link = insert_request("abc".to_string(), "https://example.com".to_string());
    let reply = store.insert(link.duplicate());
    let created = create_link(link, reply);
    assert_eq!(created.status, 201);
    assert!(created.headers.is_empty());
    assert_eq!(
        created.body,
        Body::Json(Link { id: "abc".to_string(), target_url: "https://example.com".to_string() })
    );

    let first = get(&store, "abc");
    assert_eq!(
        first,
        HttpResponse {
            status: 307,
            headers: vec![
                header("Location", "https://example.com"),
                header(
                    "Cache-Control",
                    "public, max-age=300, s-maxage=300, stale-while-revalidate=300, stale-if-error=300",
                ),
            ],
            body: Body::Empty,
        }
    );

    let change = update_request("abc".to_string(), "https://other.com".to_string());
    let patched = update_link(store.update_target(&change.id, change.target_url));
    assert_eq!(patched, HttpResponse { status: 200, headers: vec![], body: Body::Empty });

    let second = get(&store, "abc");
    assert_eq!(second.status, 307);
    assert_eq!(second.headers[0], header("Location", "https://other.com"));
    assert_eq!(second.headers[1], header("Cache-Control", DEFAULT_CACHE_CONTROL_HEADER_VALUE));
    assert_eq!(second.body, Body::Empty);

    let missing = get(&store, "missing");
    assert_eq!(
        missing,
        HttpResponse { status: 404, headers: vec![], body: Body::Text("not found".to_string()) }
    );
}

#[test]
fn cache_control_value_is_exact() {
    assert_eq!(
        DEFAULT_CACHE_CONTROL_HEADER_VALUE,
        "public, max-age=300, s-maxage=300, stale-while-revalidate=300, stale-if-error=300"
    );
}

#[test]
fn lookup_deadline_is_300_ms() {
    assert_eq!(LOOKUP_DEADLINE_MS, 300);
    let request = lookup_request("abc".to_string());
    assert_eq!(request.id, "abc");
    assert_eq!(request.deadline_ms, 300);
}

#[test]
fn health_reports_healthy() {
    assert_eq!(
        health(),
        HttpResponse {
            status: 200,
            headers: vec![],
            body: Body::Text("Service is healthy!".to_string()),
        }
    );
}

#[test]
fn update_of_missing_link_is_404() {
    let mut store = MemoryStore::new();
    let response = update_link(store.update_target("nope", "https://example.com".to_string()));
    assert_eq!(
        response,
        HttpResponse { status: 404, headers: vec![], body: Body::Text("not found".to_string()) }
    );
    assert_eq!(get(&store, "nope").status, 404);
}

#[test]
fn create_of_taken_identifier_is_409_and_keeps_the_target() {
    let mut store = MemoryStore::new();
    let first = insert_request("abc".to_string(), "https://example.com".to_string());
    let reply = store.insert(first.duplicate());
    assert_eq!(create_link(first, reply).status, 201);

    let second = insert_request("abc".to_string(), "https://other.com".to_string());
    let reply = store.insert(second.duplicate());
    let response = create_link(second, reply);
    assert_eq!(
        response,
        HttpResponse { status: 409, headers: vec![], body: Body::Text("conflict".to_string()) }
    );
    assert_eq!(get(&store, "abc").headers[0], header("Location", "https://example.com"));
}
