use bucketviewer::cache::S3ConnectionManager;
use bucketviewer::config::S3Config;
use bucketviewer::errors::S3Error;

fn config(endpoint: &str) -> S3Config {
    S3Config {
        endpoint: endpoint.to_string(),
        access_key: "key".to_string(),
        secret_key: "secret".to_string(),
        region: String::new(),
        bucket: None,
    }
}

#[test]
fn get_or_create_builds_a_client_for_a_new_name() {
    let mut cache = S3ConnectionManager::new();
    let s = cache.get_or_create_connection("conn1", config("https://minio.local")).unwrap();
    assert_eq!(s.config.endpoint, "https://minio.local");
    assert_eq!(s.effective_region, "us-east-1");
    assert!(s.use_path_style);
}

#[test]
fn two_requests_for_one_name_share_a_single_client() {
    let mut cache = S3ConnectionManager::new();
    let first = cache.get_or_create_connection("conn1", config("https://minio.local")).unwrap();
    // The second request supplies a configuration that could not even be
    // built from; it is answered from the cache, so no second
    // construction happens and the original client is observed.
    let unusable = S3Config {
        endpoint: String::new(),
        access_key: String::new(),
        secret_key: String::new(),
        region: String::new(),
        bucket: None,
    };
    let second = cache.get_or_create_connection("conn1", unusable).unwrap();
    assert_eq!(second.config.endpoint, first.config.endpoint);
    assert_eq!(second.config.access_key, first.config.access_key);
    assert_eq!(second.effective_region, first.effective_region);
    assert_eq!(second.use_path_style, first.use_path_style);
}

#[test]
fn different_names_get_their_own_clients() {
    let mut cache = S3ConnectionManager::new();
    let a = cache.get_or_create_connection("a", config("https://one.local")).unwrap();
    let b = cache.get_or_create_connection("b", config("https://two.local")).unwrap();
    assert_eq!(a.config.endpoint, "https://one.local");
    assert_eq!(b.config.endpoint, "https://two.local");
}

#[test]
fn a_failed_construction_installs_nothing() {
    let mut cache = S3ConnectionManager::new();
    let bad = S3Config {
        endpoint: "https://minio.local".to_string(),
        access_key: String::new(),
        secret_key: "secret".to_string(),
        region: String::new(),
        bucket: None,
    };
    let r = cache.get_or_create_connection("conn1", bad);
    assert!(matches!(r, Err(S3Error::ConfigurationError(_))));
    // The name is still free: a later valid request constructs fresh.
    let s = cache.get_or_create_connection("conn1", config("https://minio.local")).unwrap();
    assert_eq!(s.config.endpoint, "https://minio.local");
}

#[test]
fn remove_evicts_the_entry_and_is_a_no_op_when_absent() {
    let mut cache = S3ConnectionManager::new();
    cache.get_or_create_connection("conn1", config("https://one.local")).unwrap();
    cache.remove_connection("conn1");
    // Absent now: removing again is a no-op, and the name is free.
    cache.remove_connection("conn1");
    let rebuilt = cache.get_or_create_connection("conn1", config("https://two.local")).unwrap();
    assert_eq!(rebuilt.config.endpoint, "https://two.local");
}

#[test]
fn clear_evicts_every_entry() {
    let mut cache = S3ConnectionManager::new();
    cache.get_or_create_connection("a", config("https://one.local")).unwrap();
    cache.get_or_create_connection("b", config("https://two.local")).unwrap();
    cache.clear_connections();
    let a = cache.get_or_create_connection("a", config("https://three.local")).unwrap();
    assert_eq!(a.config.endpoint, "https://three.local");
}

#[test]
fn default_cache_is_empty() {
    let mut cache = S3ConnectionManager::default();
    let s = cache.get_or_create_connection("x", config("https://one.local")).unwrap();
    assert_eq!(s.config.endpoint, "https://one.local");
}
