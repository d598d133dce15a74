//! The handlers' observable responses: exact status codes, exact JSON
//! bodies, and the `Location` header on redirects, for success and for
//! both kinds of storage failure.

use shortlink::handlers::create_url;
use shortlink::handlers::delete_url;
use shortlink::handlers::handle_create;
use shortlink::handlers::handle_delete;
use shortlink::handlers::handle_redirect;
use shortlink::handlers::not_found_handler;
use shortlink::handlers::redirect_url;
use shortlink::model::Link;
use shortlink::model::StorageError;
use shortlink::store::Store;

fn link(id: &str, url: &str) -> Link {
    Link { id: id.to_owned(), url: url.to_owned() }
}

#[test]
fn create_success_echoes_link() {
    let resp = create_url(&link("x", "https://a.test"), Ok(()));
    assert_eq!(resp.status, 200);
    assert_eq!(resp.body, "{\"id\":\"x\",\"url\":\"https://a.test\"}");
    assert!(resp.location.is_none());
}

#[test]
fn create_connection_failure_is_500() {
    let resp = create_url(&link("x", "https://a.test"), Err(StorageError::Connection));
    assert_eq!(resp.status, 500);
    assert_eq!(resp.body, "{\"error\":\"Error connecting to database\"}");
}

#[test]
fn create_operation_failure_is_500() {
    let resp = create_url(&link("x", "https://a.test"), Err(StorageError::Operation));
    assert_eq!(resp.status, 500);
    assert_eq!(resp.body, "{\"error\":\"Error shortening URL\"}");
}

#[test]
fn delete_success_body_is_fixed() {
    let resp = delete_url(Ok(()));
    assert_eq!(resp.status, 200);
    assert_eq!(resp.body, "{\"status\":\"success\",\"message\":\"Link deleted\"}");
}

#[test]
fn delete_connection_failure_is_500() {
    let resp = delete_url(Err(StorageError::Connection));
    assert_eq!(resp.status, 500);
    assert_eq!(resp.body, "{\"error\":\"Error connecting to database\"}");
}

#[test]
fn delete_operation_failure_is_500() {
    let resp = delete_url(Err(StorageError::Operation));
    assert_eq!(resp.status, 500);
    assert_eq!(resp.body, "{\"error\":\"Error deleting Link\"}");
}

#[test]
fn redirect_nonempty_url_is_302_with_location() {
    let resp = redirect_url(Ok("https://a.test".to_owned()));
    assert_eq!(resp.status, 302);
    assert_eq!(resp.location.as_deref(), Some("https://a.test"));
    assert_eq!(resp.body, "");
}

#[test]
fn redirect_sentinel_is_200_empty() {
    let resp = redirect_url(Ok(String::new()));
    assert_eq!(resp.status, 200);
    assert_eq!(resp.body, "");
    assert!(resp.location.is_none());
}

#[test]
fn redirect_connection_failure_is_500() {
    let resp = redirect_url(Err(StorageError::Connection));
    assert_eq!(resp.status, 500);
    assert_eq!(resp.body, "{\"error\":\"Error connecting to database\"}");
}

#[test]
fn redirect_operation_failure_is_500() {
    let resp = redirect_url(Err(StorageError::Operation));
    assert_eq!(resp.status, 500);
    assert_eq!(resp.body, "{\"error\":\"Error redirecting to full URL\"}");
}

#[test]
fn not_found_body_is_fixed() {
    let resp = not_found_handler();
    assert_eq!(resp.status, 404);
    assert_eq!(resp.body, "{\"error\":\"Not found\"}");
    assert!(resp.location.is_none());
}

#[test]
fn end_to_end_create_then_redirect() {
    let mut store = Store::new();
    let resp = handle_create(&mut store, &link("x", "https://a.test"));
    assert_eq!(resp.status, 200);
    assert_eq!(resp.body, "{\"id\":\"x\",\"url\":\"https://a.test\"}");
    let resp = handle_redirect(&store, "x");
    assert_eq!(resp.status, 302);
    assert_eq!(resp.location.as_deref(), Some("https://a.test"));
    assert_eq!(resp.body, "");
}

#[test]
fn end_to_end_missing_id_redirect_is_200_empty() {
    let store = Store::new();
    let resp = handle_redirect(&store, "missing");
    assert_eq!(resp.status, 200);
    assert_eq!(resp.body, "");
    assert!(resp.location.is_none());
}

#[test]
fn end_to_end_delete_then_redirect() {
    let mut store = Store::new();
    handle_create(&mut store, &link("x", "https://a.test"));
    let resp = handle_delete(&mut store, "x");
    assert_eq!(resp.status, 200);
    assert_eq!(resp.body, "{\"status\":\"success\",\"message\":\"Link deleted\"}");
    let resp = handle_redirect(&store, "x");
    assert_eq!(resp.status, 200);
    assert_eq!(resp.body, "");
}

#[test]
fn end_to_end_delete_of_absent_id_reports_success() {
    let mut store = Store::new();
    let resp = handle_delete(&mut store, "x");
    assert_eq!(resp.status, 200);
    assert_eq!(resp.body, "{\"status\":\"success\",\"message\":\"Link deleted\"}");
}
