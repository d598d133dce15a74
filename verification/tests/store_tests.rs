//! The storage contract observed through the reference store: create,
//! fetch and delete by key, with the empty string as the not-found
//! sentinel.

use shortlink::store::Store;

#[test]
fn create_then_get_returns_stored_url() {
    let mut store = Store::new();
    assert!(store.create_link("abc", "https://example.com").is_ok());
    let url = store.get_link("abc").unwrap();
    assert_eq!(url, "https://example.com");
}

#[test]
fn get_of_never_created_id_is_sentinel() {
    let store = Store::new();
    let url = store.get_link("missing").unwrap();
    assert_eq!(url, "");
}

#[test]
fn delete_then_get_is_sentinel() {
    let mut store = Store::new();
    assert!(store.create_link("x", "https://a.test").is_ok());
    assert!(store.delete_link("x").is_ok());
    let url = store.get_link("x").unwrap();
    assert_eq!(url, "");
}

#[test]
fn delete_of_absent_id_succeeds() {
    let mut store = Store::new();
    assert!(store.delete_link("never-there").is_ok());
}

#[test]
fn create_existing_id_overwrites() {
    let mut store = Store::new();
    assert!(store.create_link("x", "https://a.test").is_ok());
    assert!(store.create_link("x", "https://b.test").is_ok());
    assert_eq!(store.get_link("x").unwrap(), "https://b.test");
}

#[test]
fn entries_are_independent() {
    let mut store = Store::new();
    assert!(store.create_link("a", "https://a.test").is_ok());
    assert!(store.create_link("b", "https://b.test").is_ok());
    assert!(store.delete_link("a").is_ok());
    assert_eq!(store.get_link("a").unwrap(), "");
    assert_eq!(store.get_link("b").unwrap(), "https://b.test");
}
