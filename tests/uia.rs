use maelstrom::auth::{password_accepted, Challenge, InteractiveLoginFlow, LoginType, PWHash};
use maelstrom::config::{Config, RawConfig};
use maelstrom::error::ErrorCode;
use maelstrom::handlers::{account_of, login, whoami};
use maelstrom::auth::{LoginRequest, UserIdentifier};
use maelstrom::auth_checker::AuthChecker;
use maelstrom::ids::UserId;
use maelstrom::mock_store::MockStore;
use maelstrom::store::{Error as StorageError, ErrorCode as StorageCode};
use maelstrom::token::{now_secs, SessionToken, SignError};
use maelstrom::uia::{respond, InteractiveAuth, UiaError};

fn key_pem() -> String {
    let rng = ring::rand::SystemRandom::new();
    let doc = ring::signature::EcdsaKeyPair::generate_pkcs8(
        &ring::signature::ECDSA_P256_SHA256_FIXED_SIGNING,
        &rng,
    )
    .unwrap();
    pem::encode(&pem::Pem { tag: "PRIVATE KEY".to_string(), contents: doc.as_ref().to_vec() })
}

fn test_config() -> Config {
    RawConfig {
        server_addr: "127.0.0.1:8080".to_string(),
        hostname: "ruma.io:8080".to_string(),
        base_url: "http://ruma.io:8080".to_string(),
        database_url: "postgres://localhost".to_string(),
        auth_key_file: "key.pem".to_string(),
        auth_token_expiration: 3600,
        session_expiration: 600,
    }
    .into_config(key_pem().as_bytes())
    .unwrap()
}

fn session(stages: Vec<LoginType>) -> SessionToken {
    SessionToken {
        sub: UserId::parse("@alice:ruma.io:8080").unwrap(),
        device_id: "dev".to_string(),
        complete: stages,
    }
}

fn hash_of(pw: &str, salt: &[u8]) -> PWHash {
    let mut out = vec![0u8; 32];
    ring::pbkdf2::derive(
        ring::pbkdf2::PBKDF2_HMAC_SHA256,
        std::num::NonZeroU32::new(1000).unwrap(),
        salt,
        pw.as_bytes(),
        &mut out,
    );
    PWHash::Pbkdf2Sha256 { iterations: 1000, salt: salt.to_vec(), hash: out }
}

fn store_with_password(pw: &str) -> MockStore {
    MockStore::new().with_fetch_password_hash_resp(Ok(hash_of(pw, b"salt")))
}

#[test]
fn complete_only_on_exact_flow() {
    let config = test_config();
    assert!(!session(vec![]).is_complete(&config));
    assert!(session(vec![LoginType::Password]).is_complete(&config));
    assert!(!session(vec![LoginType::Password, LoginType::Token]).is_complete(&config));
    assert!(!session(vec![LoginType::Token]).is_complete(&config));
}

#[test]
fn password_hash_matches_only_its_password() {
    let h = hash_of("secret", b"salt");
    assert!(h.matches("secret"));
    assert!(!h.matches("Secret"));
    assert!(!hash_of("secret", b"pepper").matches("Secret"));
    let PWHash::Pbkdf2Sha256 { iterations, salt, hash } = h;
    let short = PWHash::Pbkdf2Sha256 { iterations, salt, hash: hash[..16].to_vec() };
    assert!(short.matches("secret"));
    let zero = PWHash::Pbkdf2Sha256 { iterations: 0, salt: vec![], hash: vec![1] };
    assert!(!zero.matches("secret"));
}

#[test]
fn challenge_passes_with_right_password() {
    let store = store_with_password("secret");
    let user = UserId::parse("@alice:ruma.io:8080").unwrap();
    let right = Challenge::Password { password: "secret".to_string() };
    let wrong = Challenge::Password { password: "guess".to_string() };
    assert_eq!(right.passes(&store, &user, "dev").unwrap(), Some(LoginType::Password));
    assert_eq!(wrong.passes(&store, &user, "dev").unwrap(), None);
}

#[test]
fn challenge_by_one_time_token() {
    let user = UserId::parse("@alice:ruma.io:8080").unwrap();
    let c = Challenge::Token { token: "123456".to_string() };
    let yes = MockStore::new().with_check_otp_exists_resp(Ok(true));
    let no = MockStore::new().with_check_otp_exists_resp(Ok(false));
    let down = MockStore::new()
        .with_check_otp_exists_resp(Err(StorageError { code: StorageCode::ConnectionFailed }));
    assert_eq!(c.passes(&yes, &user, "dev").unwrap(), Some(LoginType::Token));
    assert_eq!(c.passes(&no, &user, "dev").unwrap(), None);
    assert!(c.passes(&down, &user, "dev").is_err());
}

#[test]
fn satisfied_stage_is_not_repeated() {
    let store = store_with_password("secret");
    let challenge = Challenge::Password { password: "secret".to_string() };
    let mut s = session(vec![LoginType::Password]);
    assert_eq!(s.update(&store, &challenge).unwrap(), true);
    assert_eq!(s.complete, vec![LoginType::Password]);
    let mut fresh = session(vec![]);
    assert_eq!(fresh.update(&store, &challenge).unwrap(), true);
    assert_eq!(fresh.complete, vec![LoginType::Password]);
}

#[test]
fn failed_challenge_keeps_progress() {
    let store = store_with_password("secret");
    let mut s = session(vec![LoginType::Token]);
    let r = s.update(&store, &Challenge::Password { password: "nope".to_string() });
    assert_eq!(r.unwrap(), false);
    assert_eq!(s.complete, vec![LoginType::Token]);
}

#[test]
fn storage_failure_is_server_error() {
    let config = test_config();
    let store = MockStore::new()
        .with_fetch_password_hash_resp(Err(StorageError { code: StorageCode::ConnectionFailed }));
    let round = InteractiveAuth {
        challenge: Challenge::Password { password: "secret".to_string() },
        session: session(vec![]),
    };
    match round.handle(&store, &config) {
        Err(UiaError::Unknown(m)) => {
            assert_eq!(m.status, 500);
            assert_eq!(m.errcode, ErrorCode::UNKNOWN);
        }
        _ => panic!("expected a server error"),
    }
}

#[test]
fn register_login_and_call() {
    let config = test_config();
    let store = store_with_password("secret")
        .with_fetch_user_id_resp(Ok(Some(UserId::parse("@alice:ruma.io:8080").unwrap())))
        .with_set_device_resp(Ok(()))
        .with_check_device_id_exists_resp(Ok(true));
    // Registration starts with an empty session and is told what is missing.
    let first = InteractiveAuth {
        challenge: Challenge::Password { password: "wrong".to_string() },
        session: session(vec![]),
    };
    let token = match first.handle(&store, &config) {
        Err(UiaError::Incomplete(resp)) => {
            assert_eq!(resp.completed, Vec::<LoginType>::new());
            assert_eq!(resp.errcode, Some(ErrorCode::FORBIDDEN));
            assert_eq!(resp.error.as_deref(), Some("Authentication challenge failed."));
            resp.session
        }
        _ => panic!("expected more stages"),
    };
    let s = SessionToken::decode(&token, &config.jwt_config, now_secs()).unwrap();
    assert_eq!(s.complete, Vec::<LoginType>::new());
    // The right password completes it.
    let second = InteractiveAuth { challenge: Challenge::Password { password: "secret".to_string() }, session: s };
    assert!(second.handle(&store, &config).is_ok());
    // The user logs in and calls an authenticated endpoint.
    let req = LoginRequest {
        challenge: Challenge::Password { password: "secret".to_string() },
        identifier: UserIdentifier::UserId { user: UserId::parse("@alice:ruma.io:8080").unwrap() },
        device_id: None,
        initial_device_display_name: None,
    };
    let resp = login(&store, &req, &config).unwrap();
    assert_eq!(resp.user_id.as_str(), "@alice:ruma.io:8080");
    assert_eq!(resp.well_known.homeserver.base_url, "http://ruma.io:8080");
    let header = format!("Bearer {}", resp.access_token);
    let checked = AuthChecker::mock_store()
        .check(&store, Some(&header), "", &config.jwt_config, now_secs())
        .unwrap();
    assert_eq!(whoami(&checked).user_id.as_str(), "@alice:ruma.io:8080");
    assert_eq!(checked.device_id, resp.device_id);
}

#[test]
fn incomplete_round_reissues_session() {
    let config = test_config();
    let store = store_with_password("secret");
    let mut two_stage = config;
    let mut flows = linear_map::set::LinearSet::new();
    flows.insert(InteractiveLoginFlow { stages: vec![LoginType::Password, LoginType::Token] });
    two_stage.interactive_auth_flows = flows;
    let round = InteractiveAuth {
        challenge: Challenge::Password { password: "secret".to_string() },
        session: session(vec![]),
    };
    match round.handle(&store, &two_stage) {
        Err(UiaError::Incomplete(resp)) => {
            assert_eq!(resp.completed, vec![LoginType::Password]);
            assert_eq!(resp.errcode, None);
            assert_eq!(resp.error, None);
            let s = SessionToken::decode(&resp.session, &two_stage.jwt_config, now_secs()).unwrap();
            assert_eq!(s.complete, vec![LoginType::Password]);
        }
        _ => panic!("expected more stages"),
    }
}

#[test]
fn login_refusals() {
    let config = test_config();
    let req = LoginRequest {
        challenge: Challenge::Password { password: "guess".to_string() },
        identifier: UserIdentifier::UserId { user: UserId::parse("@alice:ruma.io:8080").unwrap() },
        device_id: Some("DEV".to_string()),
        initial_device_display_name: Some("phone".to_string()),
    };
    let unknown_user = MockStore::new().with_fetch_user_id_resp(Ok(None));
    let e = login(&unknown_user, &req, &config).unwrap_err();
    assert_eq!((e.status, e.errcode), (403, ErrorCode::FORBIDDEN));
    let wrong_password = store_with_password("secret")
        .with_fetch_user_id_resp(Ok(Some(UserId::parse("@alice:ruma.io:8080").unwrap())));
    let f = login(&wrong_password, &req, &config).unwrap_err();
    assert_eq!((f.status, f.errcode), (403, ErrorCode::FORBIDDEN));
    assert_eq!(e.error, f.error);
    let down = MockStore::new()
        .with_fetch_user_id_resp(Err(StorageError { code: StorageCode::ConnectionFailed }));
    let g = login(&down, &req, &config).unwrap_err();
    assert_eq!((g.status, g.errcode), (500, ErrorCode::UNKNOWN));
}

#[test]
fn password_step_decides() {
    let down = Err(StorageError { code: StorageCode::AuthFailed });
    assert!(password_accepted(down, "x").is_err());
    assert_eq!(password_accepted(Ok(hash_of("pw", b"s")), "pw").unwrap(), true);
    assert_eq!(password_accepted(Ok(hash_of("pw", b"s")), "no").unwrap(), false);
}

#[test]
fn incomplete_answer_depends_on_signing() {
    let s = session(vec![LoginType::Token]);
    match respond(&s, false, Ok("tok".to_string())) {
        UiaError::Incomplete(resp) => {
            assert_eq!(resp.completed, vec![LoginType::Token]);
            assert_eq!(resp.session, "tok");
            assert_eq!(resp.errcode, Some(ErrorCode::FORBIDDEN));
        }
        _ => panic!("expected more stages"),
    }
    match respond(&s, true, Err(SignError)) {
        UiaError::Unknown(m) => {
            assert_eq!((m.status, m.errcode), (500, ErrorCode::UNKNOWN));
            assert_eq!(m.error, "An unknown error has occurred.");
        }
        _ => panic!("expected a server error"),
    }
}

#[test]
fn unknown_account_is_refused_like_a_wrong_password() {
    let e = account_of(Ok(None)).unwrap_err();
    assert_eq!((e.status, e.errcode, e.error.as_str()), (403, ErrorCode::FORBIDDEN, "Authentication challenge failed."));
    let f = account_of(Err(StorageError { code: StorageCode::ConnectionFailed })).unwrap_err();
    assert_eq!((f.status, f.error.as_str()), (500, "An unknown error has occurred."));
    let u = UserId::parse("@bob:ruma.io:8080").unwrap();
    assert_eq!(account_of(Ok(Some(u.clone()))).unwrap(), u);
}
