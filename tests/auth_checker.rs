use maelstrom::auth_checker::{
    authenticate, extract_token, get_token_from_header, get_token_from_query,
    confirm_live_device, AuthChecker,
};
use maelstrom::claims::Claims;
use maelstrom::config::{Config, RawConfig};
use maelstrom::error::ErrorCode;
use maelstrom::handlers::{logout, logout_all};
use maelstrom::ids::UserId;
use maelstrom::mock_store::MockStore;
use maelstrom::store::{Error as StorageError, ErrorCode as StorageCode, Store};
use maelstrom::token::now_secs;

fn key_pem() -> String {
    let rng = ring::rand::SystemRandom::new();
    let doc = ring::signature::EcdsaKeyPair::generate_pkcs8(
        &ring::signature::ECDSA_P256_SHA256_FIXED_SIGNING,
        &rng,
    )
    .unwrap();
    pem::encode(&pem::Pem { tag: "PRIVATE KEY".to_string(), contents: doc.as_ref().to_vec() })
}

fn test_config() -> Config {
    RawConfig {
        server_addr: "127.0.0.1:8080".to_string(),
        hostname: "ruma.io:8080".to_string(),
        base_url: "http://ruma.io:8080".to_string(),
        database_url: "postgres://localhost".to_string(),
        auth_key_file: "key.pem".to_string(),
        auth_token_expiration: 3600,
        session_expiration: 600,
    }
    .into_config(key_pem().as_bytes())
    .unwrap()
}

fn token_for(config: &Config) -> String {
    Claims::auth(config, &UserId::new("ruma.io:8080").unwrap(), &"some_id".to_owned())
        .as_jwt(&config.jwt_config)
        .unwrap()
}

#[test]
fn test_header_auth_succeeds() {
    let config = test_config();
    let store = MockStore::new().with_check_device_id_exists_resp(Ok(true));
    let token = token_for(&config);
    let header = format!("Bearer {}", token);
    let r = AuthChecker::mock_store().check(&store, Some(&header), "", &config.jwt_config, now_secs());
    assert!(r.is_ok());
}

#[test]
fn test_query_string_auth_succeeds() {
    let config = test_config();
    let store = MockStore::new().with_check_device_id_exists_resp(Ok(true));
    let token = token_for(&config);
    let query = format!("access_token={}", token);
    let r = AuthChecker::mock_store().check(&store, None, &query, &config.jwt_config, now_secs());
    assert!(r.is_ok());
    assert_eq!(r.unwrap().device_id, "some_id");
}

#[test]
fn test_query_string_auth_fails_empty_db() {
    let config = test_config();
    let store = MockStore::new().with_check_device_id_exists_resp(Ok(false));
    let token = token_for(&config);
    let query = format!("access_token={}", token);
    let r = AuthChecker::mock_store().check(&store, None, &query, &config.jwt_config, now_secs());
    assert!(r.is_err());
}

#[test]
fn test_no_auth_fails() {
    let config = test_config();
    let store = MockStore::new().with_check_device_id_exists_resp(Ok(true));
    let r = AuthChecker::mock_store().check(&store, None, "", &config.jwt_config, now_secs());
    let e = r.unwrap_err();
    assert_eq!((e.status, e.errcode), (401, ErrorCode::UNKNOWN_TOKEN));
    assert_eq!(e.error, "Unrecognised access token.");
}

#[test]
fn test_incorrect_token_fails() {
    let config = test_config();
    let store = MockStore::new().with_check_device_id_exists_resp(Ok(true));
    let r = AuthChecker::mock_store().check(&store, None, "access_token=token", &config.jwt_config, now_secs());
    assert!(r.is_err());
}

#[test]
fn expired_token_fails() {
    let config = test_config();
    let store = MockStore::new().with_check_device_id_exists_resp(Ok(true));
    let user = UserId::parse("@alice:ruma.io:8080").unwrap();
    let old = Claims::auth_at(&config, &user, "some_id", 1000, 1).as_jwt(&config.jwt_config).unwrap();
    let header = format!("Bearer {}", old);
    let r = AuthChecker::mock_store().check(&store, Some(&header), "", &config.jwt_config, now_secs());
    assert!(r.is_err());
}

#[test]
fn session_token_is_not_a_bearer_token() {
    let config = test_config();
    let user = UserId::parse("@alice:ruma.io:8080").unwrap();
    let s = Claims::session(&config, &user, "some_id", &vec![]).as_jwt(&config.jwt_config).unwrap();
    assert!(authenticate(Some(&format!("Bearer {}", s)), "", &config.jwt_config, now_secs()).is_err());
}

#[test]
fn storage_failure_fails_closed() {
    let config = test_config();
    let token = authenticate(Some(&format!("Bearer {}", token_for(&config))), "", &config.jwt_config, now_secs()).unwrap();
    let down = Err(StorageError { code: StorageCode::ConnectionFailed });
    assert!(confirm_live_device(token.clone(), down).is_err());
    assert!(confirm_live_device(token.clone(), Ok(false)).is_err());
    assert_eq!(confirm_live_device(token.clone(), Ok(true)).unwrap(), token);
}

#[test]
fn header_token_extraction() {
    assert_eq!(get_token_from_header("Bearer abc"), Some("abc".to_string()));
    assert_eq!(get_token_from_header("xBearer a Bearer b"), Some("a ".to_string()));
    assert_eq!(get_token_from_header("Basic abc"), None);
    assert_eq!(get_token_from_header("Bearer "), Some("".to_string()));
}

#[test]
fn query_token_extraction() {
    assert_eq!(get_token_from_query("a=1&access_token=xyz&access_token=q"), Some("xyz".to_string()));
    assert_eq!(get_token_from_query("access_token=a%20b"), Some("a b".to_string()));
    assert_eq!(get_token_from_query("a=1"), None);
    assert_eq!(get_token_from_query(""), None);
}

#[test]
fn header_takes_precedence_over_query() {
    assert_eq!(extract_token(Some("Bearer h"), "access_token=q"), Some("h".to_string()));
    assert_eq!(extract_token(Some("Basic h"), "access_token=q"), Some("q".to_string()));
    assert_eq!(extract_token(None, "access_token=q"), Some("q".to_string()));
}

#[test]
fn test_logout_succeeds() {
    let store = MockStore::new().with_remove_device_id_resp(Ok(()));
    let config = test_config();
    let token = authenticate(Some(&format!("Bearer {}", token_for(&config))), "", &config.jwt_config, now_secs()).unwrap();
    assert!(logout(&store, &token).is_ok());
    assert!(logout(&MockStore::new(), &token).is_err());
}

#[test]
fn test_logout_all_succeeds() {
    let store = MockStore::new().with_remove_all_device_ids_resp(Ok(()));
    let config = test_config();
    let token = authenticate(Some(&format!("Bearer {}", token_for(&config))), "", &config.jwt_config, now_secs()).unwrap();
    assert!(logout_all(&store, &token).is_ok());
    let e = logout_all(&MockStore::new(), &token).unwrap_err();
    assert_eq!((e.status, e.errcode), (500, ErrorCode::UNKNOWN));
}

#[test]
fn mock_store_answers() {
    let store = MockStore::new().with_username_exists_resp(Ok(true));
    assert_eq!(store.check_username_exists("alice").unwrap(), true);
    assert!(store.check_device_id_exists("d").is_err());
    assert_eq!(store.get_type(), "MockStore");
}
