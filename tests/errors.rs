use maelstrom::auth::Error as AuthError;
use maelstrom::claims::Claims;
use maelstrom::config::{ConfigError, JwtConfig, KeyError, RawConfig};
use maelstrom::error::{ErrorCode, MatrixError};
use maelstrom::ids::UserId;
use maelstrom::store::{BackendFailure, Error, ErrorCode as StoreCode};
use maelstrom::token::SignError;

#[test]
fn store_error_messages() {
    let e = Error { code: StoreCode::RecordNotFound };
    assert_eq!(e.message(), "The data store could not find any records.");
    let u = Error { code: StoreCode::Unknown("detail".to_string()) };
    assert_eq!(u.message(), "An unknown error has occurred.");
    let a = AuthError::Storage(Error { code: StoreCode::ConnectionFailed });
    assert_eq!(a.message(), "Storage Error: Connection failed.");
}

#[test]
fn backend_failures_are_classified() {
    assert!(matches!(Error::from_backend(BackendFailure::PoolTimedOut).code, StoreCode::ConnectionFailed));
    assert!(matches!(Error::from_backend(BackendFailure::RowNotFound).code, StoreCode::RecordNotFound));
    assert!(matches!(Error::from_backend(BackendFailure::ColumnNotFound).code, StoreCode::InvalidSyntax));
    assert!(matches!(Error::from_backend(BackendFailure::Other).code, StoreCode::Unknown(_)));
}

#[test]
fn matrix_errors() {
    let e = MatrixError::new(403, ErrorCode::FORBIDDEN, "no");
    assert_eq!((e.status, e.errcode, e.error.as_str()), (403, ErrorCode::FORBIDDEN, "no"));
    assert_eq!(e.errcode.wire_name(), "M_FORBIDDEN");
    let u = MatrixError::unknown("boom".to_string());
    assert_eq!((u.status, u.errcode), (500, ErrorCode::UNKNOWN));
    assert_eq!(ErrorCode::UNKNOWN_TOKEN.wire_name(), "M_UNKNOWN_TOKEN");
}

#[test]
fn config_with_bad_key_is_refused() {
    let raw = RawConfig {
        server_addr: "127.0.0.1:8080".to_string(),
        hostname: "ruma.io:8080".to_string(),
        base_url: "http://ruma.io:8080".to_string(),
        database_url: "postgres://localhost".to_string(),
        auth_key_file: "key.pem".to_string(),
        auth_token_expiration: 3600,
        session_expiration: 600,
    };
    assert!(matches!(raw.into_config(b"garbage"), Err(ConfigError::Key(KeyError::NotPem))));
}

#[test]
fn signing_with_bad_key_fails() {
    let jwt = JwtConfig { auth_key: vec![1, 2, 3], auth_key_pub: vec![], issuer: "x".to_string() };
    let c = Claims {
        kind: maelstrom::auth::TokenKind::Auth,
        iss: "x".to_string(),
        iat: 0,
        exp: 0,
        jti: Some(0),
        sub: UserId::parse("@a:b.org").unwrap(),
        device_id: "d".to_string(),
        complete: None,
    };
    assert_eq!(c.as_jwt(&jwt), Err(SignError));
}
