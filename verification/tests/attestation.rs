use bouncer::attestation_store::{
    http_kv_get_outcome, http_kv_set_outcome, AttestationStore, MemoryStore, StoreError,
};

#[test]
fn set_then_get_within_ttl_returns_the_origin() {
    let mut store = MemoryStore::new();
    let t: u64 = 1_000;
    store.set("abc123", "https://example.com", t).unwrap();
    assert_eq!(
        store.get("abc123", t).unwrap(),
        Some("https://example.com".to_string())
    );
    assert_eq!(
        store.get("abc123", t + 299).unwrap(),
        Some("https://example.com".to_string())
    );
}

#[test]
fn attestation_expires_after_ttl() {
    let mut store = MemoryStore::new();
    let t: u64 = 1_000;
    store.set("abc123", "https://example.com", t).unwrap();
    assert_eq!(store.get("abc123", t + 300).unwrap(), None);
    assert_eq!(store.get("abc123", t + 10_000).unwrap(), None);
}

#[test]
fn absent_attestation_reads_as_none() {
    let store = MemoryStore::new();
    assert_eq!(store.get("missing", 0).unwrap(), None);
}

#[test]
fn newest_write_wins() {
    let mut store = MemoryStore::new();
    store.set("id", "https://first.example", 100).unwrap();
    store.set("id", "https://second.example", 200).unwrap();
    assert_eq!(
        store.get("id", 250).unwrap(),
        Some("https://second.example".to_string())
    );
}

#[test]
fn store_trait_methods_apply_the_window() {
    let mut store = MemoryStore::new();
    store.set_attestation("k", "https://origin.example", 500).unwrap();
    assert_eq!(
        store.get_attestation("k", 700).unwrap(),
        Some("https://origin.example".to_string())
    );
    assert_eq!(store.get_attestation("k", 800).unwrap(), None);
}

#[test]
fn http_kv_set_outcome_by_status() {
    assert!(http_kv_set_outcome(200).is_ok());
    assert!(http_kv_set_outcome(204).is_ok());
    assert!(matches!(
        http_kv_set_outcome(500),
        Err(StoreError::Status(500))
    ));
    assert!(matches!(
        http_kv_set_outcome(403),
        Err(StoreError::Status(403))
    ));
}

#[test]
fn http_kv_get_outcome_by_status() {
    assert_eq!(
        http_kv_get_outcome(200, "https://example.com".to_string()).unwrap(),
        Some("https://example.com".to_string())
    );
    assert_eq!(http_kv_get_outcome(404, String::new()).unwrap(), None);
    assert!(matches!(
        http_kv_get_outcome(502, String::new()),
        Err(StoreError::Status(502))
    ));
}
