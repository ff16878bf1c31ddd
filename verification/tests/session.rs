use base64::engine::general_purpose::URL_SAFE_NO_PAD;
use base64::Engine;
use unifly_api::session::{jwt_expiry, simple_hash, SessionCache};

#[test]
fn jwt_expiry_parses_valid_token() {
    let header = URL_SAFE_NO_PAD.encode(r#"{"alg":"HS256"}"#);
    let payload = URL_SAFE_NO_PAD.encode(r#"{"exp":1700000000}"#);
    let token = format!("TOKEN={header}.{payload}.sig");
    assert_eq!(jwt_expiry(&token), Some(1_700_000_000));
}

#[test]
fn jwt_expiry_returns_none_for_garbage() {
    assert_eq!(jwt_expiry("not-a-jwt"), None);
    assert_eq!(jwt_expiry("TOKEN=a.b"), None);
}

#[test]
fn simple_hash_is_deterministic() {
    let a = simple_hash("https://192.168.1.1");
    let b = simple_hash("https://192.168.1.1");
    assert_eq!(a, b);
    assert_ne!(a, simple_hash("https://10.0.0.1"));
}

#[test]
fn cache_path_ends_with_the_file_name() {
    let cache = SessionCache::in_dir(Some("cache-root".to_string()), "default", "https://10.0.0.1").expect("cache");
    assert!(cache.file_name.starts_with("default_") && cache.file_name.ends_with(".json"));
    let path = cache.path();
    assert!(path.ends_with(&cache.file_name));
    assert!(path.starts_with("cache-root"));
}
