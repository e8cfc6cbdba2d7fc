use wishlist_api::error::AppError;
use wishlist_api::handlers::{
    handle_delete, handle_get, handle_post, handle_put, handle_request, resume, serve, Pending,
    Step, StoreCall, StoreReply,
};
use wishlist_api::response::{ApiResponse, ResponseBody};
use wishlist_api::store::MemoryStore;
use wishlist_api::wishlist::Wishlist;

fn record(id: &str, name: &str, owner: &str, items: &[&str]) -> Wishlist {
    Wishlist {
        id: id.to_string(),
        name: name.to_string(),
        owner: owner.to_string(),
        items: items.iter().map(|s| s.to_string()).collect(),
    }
}

fn bad_json() -> serde_json::Error {
    serde_json::from_str::<serde_json::Value>("invalid json").unwrap_err()
}

fn request(store: &mut MemoryStore, method: &str, path: &str, body: &str, rec: Option<Wishlist>) -> ApiResponse {
    let parsed = match rec {
        Some(w) => Ok(w),
        None => Err(bad_json()),
    };
    let step = handle_request(method, path, body.as_bytes(), parsed, "generated-1".to_string());
    serve(store, step)
}

fn json_body(r: &ApiResponse) -> &str {
    match &r.body {
        ResponseBody::Json(s) => s.as_str(),
        other => panic!("not a JSON body: {:?}", other),
    }
}

fn record_body(r: &ApiResponse) -> &Wishlist {
    match &r.body {
        ResponseBody::Record(w) => w,
        other => panic!("not a record body: {:?}", other),
    }
}

#[test]
fn integration_test_health_check() {
    let mut store = MemoryStore::new();
    let r = request(&mut store, "GET", "/health", "", None);
    assert_eq!(r.status, 200);
    assert_eq!(json_body(&r), "{\"status\":\"OK\"}");
}

#[test]
fn health_behind_stage_prefix() {
    let mut store = MemoryStore::new();
    let r = request(&mut store, "GET", "/prod/health", "", None);
    assert_eq!(r.status, 200);
    assert_eq!(json_body(&r), "{\"status\":\"OK\"}");
}

#[test]
fn test_wishlists_endpoint() {
    let mut store = MemoryStore::new();
    let r = request(&mut store, "GET", "/wishlists", "", None);
    assert_eq!(r.status, 200);
    assert!(matches!(&r.body, ResponseBody::Records(v) if v.is_empty()));
    let r = request(&mut store, "GET", "/wishlist", "", None);
    assert_eq!(r.status, 200);
}

#[test]
fn integration_test_test_wishlist_creation() {
    let mut store = MemoryStore::new();
    let r = request(&mut store, "POST", "/wishlists", "", Some(record("test1", "Test List", "test-user", &[])));
    assert_eq!(r.status, 201);
    assert_eq!(record_body(&r).id, "test1");
}

#[test]
fn christmas_lifecycle() {
    let mut store = MemoryStore::new();
    let created = request(&mut store, "POST", "/wishlists", "", Some(record("", "Christmas", "Alice", &["Socks"])));
    assert_eq!(created.status, 201);
    let id = record_body(&created).id.clone();
    assert_eq!(id, "generated-1");
    assert_eq!(record_body(&created).items, vec!["Socks".to_string()]);

    let updated = request(
        &mut store,
        "PUT",
        "/wishlists",
        "",
        Some(record(&id, "Christmas", "Alice", &["Socks", "Book"])),
    );
    assert_eq!(updated.status, 200);
    assert_eq!(record_body(&updated).items, vec!["Socks".to_string(), "Book".to_string()]);

    let got = request(&mut store, "GET", &format!("/wishlists/{}", id), "", None);
    assert_eq!(got.status, 200);
    assert_eq!(record_body(&got).items, vec!["Socks".to_string(), "Book".to_string()]);
    assert_eq!(record_body(&got).name, "Christmas");
    assert_eq!(record_body(&got).owner, "Alice");

    let deleted = request(&mut store, "DELETE", "/wishlists", &format!("{{\"id\":\"{}\"}}", id), None);
    assert_eq!(deleted.status, 204);
    assert!(matches!(deleted.body, ResponseBody::Empty));

    let gone = request(&mut store, "GET", &format!("/wishlists/{}", id), "", None);
    assert_eq!(gone.status, 404);
    assert_eq!(json_body(&gone), "{\"error\":\"Not Found\"}");
}

#[test]
fn test_full_wishlist_lifecycle() {
    let mut store = MemoryStore::new();
    let r = request(&mut store, "POST", "/wishlists", "", Some(record("test-id-1", "Christmas Wishlist", "Christmas Owner", &["Socks", "Chocolate"])));
    assert_eq!(r.status, 201);
    let r = request(&mut store, "GET", "/wishlists/test-id-1/", "", None);
    assert_eq!(r.status, 200);
    assert_eq!(record_body(&r).name, "Christmas Wishlist");
    let r = request(&mut store, "PUT", "/wishlists", "", Some(record("test-id-1", "Updated Christmas Wishlist", "Updated Christmas Owner", &["Socks", "Chocolate", "Book"])));
    assert_eq!(r.status, 200);
    let r = request(&mut store, "GET", "/wishlists", "", None);
    match &r.body {
        ResponseBody::Records(v) => {
            assert_eq!(v.len(), 1);
            assert_eq!(v[0].owner, "Updated Christmas Owner");
            assert_eq!(v[0].items.len(), 3);
        }
        other => panic!("unexpected {:?}", other),
    }
    let r = request(&mut store, "DELETE", "/wishlists", "{\"id\":\"test-id-1\"}", None);
    assert_eq!(r.status, 204);
    let r = request(&mut store, "GET", "/wishlists/test-id-1", "", None);
    assert_eq!(r.status, 404);
    let r = request(&mut store, "GET", "/wishlists", "", None);
    assert!(matches!(&r.body, ResponseBody::Records(v) if v.is_empty()));
}

#[test]
fn test_error_handling() {
    let mut store = MemoryStore::new();
    let r = request(&mut store, "POST", "/wishlists", "invalid json", None);
    assert_eq!(r.status, 400);
    assert!(json_body(&r).starts_with("{\"error\":\"Serialization error: "));
    let r = request(&mut store, "GET", "/wishlists/nonexistent-id", "", None);
    assert_eq!(r.status, 404);
    let r = request(&mut store, "PUT", "/wishlists", "", Some(record("nonexistent-id", "Test Wishlist", "Test Owner", &[])));
    assert_eq!(r.status, 404);
    assert!(store.scan().is_empty());
}

#[test]
fn put_of_absent_id_writes_nothing() {
    let mut store = MemoryStore::new();
    store.put(record("a", "A", "o", &["x"]));
    let r = request(&mut store, "PUT", "/wishlists", "", Some(record("b", "B", "o", &[])));
    assert_eq!(r.status, 404);
    let all = store.scan();
    assert_eq!(all.len(), 1);
    assert_eq!(all[0].id, "a");
}

#[test]
fn delete_twice_is_not_found_the_second_time() {
    let mut store = MemoryStore::new();
    store.put(record("a", "A", "o", &[]));
    let first = request(&mut store, "DELETE", "/wishlists", "{\"id\":\"a\"}", None);
    assert_eq!(first.status, 204);
    let second = request(&mut store, "DELETE", "/wishlists", "{\"id\":\"a\"}", None);
    assert_eq!(second.status, 404);
    assert_eq!(json_body(&second), "{\"error\":\"Not Found\"}");
}

#[test]
fn delete_body_errors() {
    let mut store = MemoryStore::new();
    let r = request(&mut store, "DELETE", "/wishlists", "{\"name\":\"x\"}", None);
    assert_eq!(r.status, 400);
    assert_eq!(json_body(&r), "{\"error\":\"Missing ID in request\"}");
    let r = request(&mut store, "DELETE", "/wishlists", "not json", None);
    assert_eq!(r.status, 400);
    assert!(json_body(&r).starts_with("{\"error\":\"Serialization error: "));
}

#[test]
fn malformed_body_is_rejected_without_a_write() {
    let mut store = MemoryStore::new();
    let r = request(&mut store, "PUT", "/wishlists", "{", None);
    assert_eq!(r.status, 400);
    assert!(matches!(r.body, ResponseBody::Json(_)));
    assert!(store.scan().is_empty());
}

#[test]
fn unknown_routes_and_methods() {
    let mut store = MemoryStore::new();
    assert_eq!(request(&mut store, "GET", "/nothing", "", None).status, 404);
    assert_eq!(request(&mut store, "POST", "/elsewhere", "", Some(record("a", "A", "o", &[]))).status, 404);
    let r = request(&mut store, "PATCH", "/wishlists", "", None);
    assert_eq!(r.status, 405);
    assert_eq!(json_body(&r), "{\"error\":\"Method Not Allowed\"}");
    assert!(store.scan().is_empty());
}

#[test]
fn handler_steps() {
    match handle_get("/prod/wishlists/abc//") {
        Step::Call(StoreCall::Get(id), Pending::Fetching) => assert_eq!(id, "abc"),
        other => panic!("unexpected {:?}", other),
    }
    assert!(matches!(handle_get("/wishlists"), Step::Call(StoreCall::Scan, Pending::Listing)));
    match handle_post(Ok(record("given", "N", "O", &[])), "fresh".to_string()) {
        Step::Call(StoreCall::Put(w), Pending::Creating(c)) => {
            assert_eq!(w.id, "given");
            assert_eq!(c.id, "given");
        }
        other => panic!("unexpected {:?}", other),
    }
    match handle_put(Ok(record("p", "N", "O", &[]))) {
        Step::Call(StoreCall::Get(id), Pending::Checking(w)) => {
            assert_eq!(id, "p");
            assert_eq!(w.id, "p");
        }
        other => panic!("unexpected {:?}", other),
    }
    match handle_delete(b"{\"id\":\"d\",\"other\":\"z\"}") {
        Step::Call(StoreCall::Get(id), Pending::CheckingRemoval(k)) => {
            assert_eq!(id, "d");
            assert_eq!(k, "d");
        }
        other => panic!("unexpected {:?}", other),
    }
}

#[test]
fn store_failures_answer_500_without_detail() {
    let failure = StoreReply::from_read(Err(AppError::DynamoDb("table gone".to_string())));
    match resume(Pending::Fetching, failure) {
        Step::Reply(r) => {
            assert_eq!(r.status, 500);
            assert_eq!(json_body(&r), "{\"error\":\"Internal Server Error\"}");
        }
        other => panic!("unexpected {:?}", other),
    }
    let listed = StoreReply::from_scan(Ok(vec![record("a", "A", "o", &[])]));
    match resume(Pending::Listing, listed) {
        Step::Reply(r) => {
            assert_eq!(r.status, 200);
            assert!(matches!(&r.body, ResponseBody::Records(v) if v.len() == 1));
        }
        other => panic!("unexpected {:?}", other),
    }
    match resume(Pending::Removing, StoreReply::from_write(Ok(()))) {
        Step::Reply(r) => assert_eq!(r.status, 204),
        other => panic!("unexpected {:?}", other),
    }
    match resume(Pending::Creating(record("c", "C", "o", &[])), StoreReply::from_write(Err(AppError::Generic("x".to_string())))) {
        Step::Reply(r) => assert_eq!(r.status, 500),
        other => panic!("unexpected {:?}", other),
    }
}
