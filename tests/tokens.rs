use maelstrom::auth::{InteractiveLoginFlow, LoginFlow, LoginType, TokenKind};
use maelstrom::claims::Claims;
use maelstrom::config::{parse_keypair, Config, KeyError, RawConfig};
use maelstrom::ids::UserId;
use maelstrom::token::{decode_claims, now_secs, seconds_since_epoch, AuthToken, SessionToken, TOKEN_LEEWAY};

fn key_pem() -> String {
    let rng = ring::rand::SystemRandom::new();
    let doc = ring::signature::EcdsaKeyPair::generate_pkcs8(
        &ring::signature::ECDSA_P256_SHA256_FIXED_SIGNING,
        &rng,
    )
    .unwrap();
    pem::encode(&pem::Pem { tag: "PRIVATE KEY".to_string(), contents: doc.as_ref().to_vec() })
}

fn config_with(pem_text: &str) -> Config {
    RawConfig {
        server_addr: "127.0.0.1:8080".to_string(),
        hostname: "ruma.io:8080".to_string(),
        base_url: "http://ruma.io:8080".to_string(),
        database_url: "postgres://localhost".to_string(),
        auth_key_file: "key.pem".to_string(),
        auth_token_expiration: 3600,
        session_expiration: 600,
    }
    .into_config(pem_text.as_bytes())
    .unwrap()
}

#[test]
fn keypair_from_pem() {
    let (private_key, public_key) = parse_keypair(key_pem().as_bytes()).unwrap();
    assert!(!private_key.is_empty());
    assert_eq!(public_key.len(), 65);
    assert_eq!(public_key[0], 4);
}

#[test]
fn keypair_errors() {
    assert_eq!(parse_keypair(b"not pem").unwrap_err(), KeyError::NotPem);
    let bogus = pem::encode(&pem::Pem { tag: "PRIVATE KEY".to_string(), contents: vec![1, 2, 3] });
    assert_eq!(parse_keypair(bogus.as_bytes()).unwrap_err(), KeyError::NotP256Key);
}

#[test]
fn config_flows() {
    let config = config_with(&key_pem());
    assert_eq!(config.auth_flows.len(), 2);
    assert!(config.auth_flows.contains(&LoginFlow { login_type: LoginType::Password }));
    assert!(config.auth_flows.contains(&LoginFlow { login_type: LoginType::Token }));
    assert_eq!(config.interactive_auth_flows.len(), 1);
    assert!(config
        .interactive_auth_flows
        .contains(&InteractiveLoginFlow { stages: vec![LoginType::Password] }));
    assert_eq!(config.jwt_config.issuer, "ruma.io:8080");
}

#[test]
fn auth_claims_fields() {
    let config = config_with(&key_pem());
    let user = UserId::parse("@alice:ruma.io:8080").unwrap();
    let c = Claims::auth_at(&config, &user, "DEV", 1000, 7);
    assert_eq!(c.kind, TokenKind::Auth);
    assert_eq!(c.iss, "ruma.io:8080");
    assert_eq!(c.iat, 1000);
    assert_eq!(c.exp, 4600);
    assert_eq!(c.jti, Some(7));
    assert_eq!(c.complete, None);
    let late = Claims::auth_at(&config, &user, "DEV", u64::MAX - 1, 7);
    assert_eq!(late.exp, u64::MAX);
}

#[test]
fn session_claims_use_session_lifetime() {
    let config = config_with(&key_pem());
    let user = UserId::parse("@alice:ruma.io:8080").unwrap();
    let c = Claims::session_at(&config, &user, "DEV", &vec![LoginType::Password], 1000);
    assert_eq!(c.kind, TokenKind::Session);
    assert_eq!(c.exp, 1600);
    assert_eq!(c.jti, None);
    assert_eq!(c.complete, Some(vec![LoginType::Password]));
}

#[test]
fn auth_token_round_trip() {
    let config = config_with(&key_pem());
    let user = UserId::parse("@alice:ruma.io:8080").unwrap();
    let claims = Claims::auth(&config, &user, "some_id");
    let token = claims.as_jwt(&config.jwt_config).unwrap();
    let decoded = decode_claims(&token, &config.jwt_config, now_secs()).unwrap();
    assert_eq!(decoded, claims);
    let auth = AuthToken::decode(&token, &config.jwt_config, now_secs()).unwrap();
    assert_eq!(auth.sub, user);
    assert_eq!(auth.device_id, "some_id");
    assert_eq!(Some(auth.jti), claims.jti);
}

#[test]
fn session_token_round_trip() {
    let config = config_with(&key_pem());
    let user = UserId::parse("@alice:ruma.io:8080").unwrap();
    let claims = Claims::session(&config, &user, "dev", &vec![LoginType::Token]);
    let token = claims.as_jwt(&config.jwt_config).unwrap();
    let s = SessionToken::decode(&token, &config.jwt_config, now_secs()).unwrap();
    assert_eq!(s.sub, user);
    assert_eq!(s.device_id, "dev");
    assert_eq!(s.complete, vec![LoginType::Token]);
}

#[test]
fn token_kinds_are_not_interchangeable() {
    let config = config_with(&key_pem());
    let user = UserId::parse("@alice:ruma.io:8080").unwrap();
    let auth = Claims::auth(&config, &user, "d").as_jwt(&config.jwt_config).unwrap();
    let session = Claims::session(&config, &user, "d", &vec![]).as_jwt(&config.jwt_config).unwrap();
    assert!(SessionToken::decode(&auth, &config.jwt_config, now_secs()).is_err());
    assert!(AuthToken::decode(&session, &config.jwt_config, now_secs()).is_err());
}

#[test]
fn expired_token_is_rejected() {
    let config = config_with(&key_pem());
    let user = UserId::parse("@alice:ruma.io:8080").unwrap();
    let claims = Claims::auth_at(&config, &user, "d", 1000, 1);
    let token = claims.as_jwt(&config.jwt_config).unwrap();
    assert!(AuthToken::decode(&token, &config.jwt_config, 4600 + TOKEN_LEEWAY).is_ok());
    assert!(AuthToken::decode(&token, &config.jwt_config, 4600 + TOKEN_LEEWAY + 1).is_err());
    assert!(AuthToken::decode(&token, &config.jwt_config, now_secs()).is_err());
}

#[test]
fn token_signed_with_other_key_is_rejected() {
    let config = config_with(&key_pem());
    let other = config_with(&key_pem());
    let user = UserId::parse("@alice:ruma.io:8080").unwrap();
    let token = Claims::auth(&other, &user, "d").as_jwt(&other.jwt_config).unwrap();
    assert!(AuthToken::decode(&token, &config.jwt_config, now_secs()).is_err());
    assert!(AuthToken::decode(&token, &other.jwt_config, now_secs()).is_ok());
}

#[test]
fn token_from_other_issuer_is_rejected() {
    let pem_text = key_pem();
    let config = config_with(&pem_text);
    let mut claims = Claims::auth(&config, &UserId::parse("@a:b.org").unwrap(), "d");
    claims.iss = "elsewhere.org".to_string();
    let token = claims.as_jwt(&config.jwt_config).unwrap();
    assert!(decode_claims(&token, &config.jwt_config, now_secs()).is_err());
}

#[test]
fn tampered_token_is_rejected() {
    let config = config_with(&key_pem());
    let token = Claims::auth(&config, &UserId::parse("@a:b.org").unwrap(), "d")
        .as_jwt(&config.jwt_config)
        .unwrap();
    let mut parts: Vec<String> = token.split('.').map(|p| p.to_string()).collect();
    let forged = Claims::auth(&config, &UserId::parse("@mallory:b.org").unwrap(), "d").to_text();
    parts[1] = base64_url(forged.as_bytes());
    let forged_token = parts.join(".");
    assert!(AuthToken::decode(&forged_token, &config.jwt_config, now_secs()).is_err());
    assert!(AuthToken::decode("token", &config.jwt_config, now_secs()).is_err());
}

fn base64_url(bytes: &[u8]) -> String {
    const ALPHABET: &[u8] = b"ABCDEFGHIJKLMNOPQRSTUVWXYZabcdefghijklmnopqrstuvwxyz0123456789-_";
    let mut out = String::new();
    for chunk in bytes.chunks(3) {
        let b = [chunk[0], *chunk.get(1).unwrap_or(&0), *chunk.get(2).unwrap_or(&0)];
        let n = ((b[0] as u32) << 16) | ((b[1] as u32) << 8) | b[2] as u32;
        let count = chunk.len() + 1;
        for i in 0..count {
            out.push(ALPHABET[((n >> (18 - 6 * i)) & 63) as usize] as char);
        }
    }
    out
}

#[test]
fn clock_before_epoch_reads_zero() {
    let before = std::time::UNIX_EPOCH.duration_since(std::time::UNIX_EPOCH + std::time::Duration::from_secs(5));
    assert_eq!(seconds_since_epoch(before), 0);
    assert_eq!(seconds_since_epoch(Ok(std::time::Duration::from_secs(42))), 42);
}
