use maelstrom::auth::{LoginType, TokenKind};
use maelstrom::claims::Claims;
use maelstrom::ids::UserId;

fn sample(device_id: &str, jti: Option<u32>, complete: Option<Vec<LoginType>>) -> Claims {
    Claims {
        kind: if complete.is_some() { TokenKind::Session } else { TokenKind::Auth },
        iss: "example.org".to_string(),
        iat: 1,
        exp: 18446744073709551615,
        jti,
        sub: UserId::parse("@a:example.org").unwrap(),
        device_id: device_id.to_string(),
        complete,
    }
}

#[test]
fn auth_claims_text_is_exact() {
    let c = sample("D", Some(3), None);
    assert_eq!(
        c.to_text(),
        "{\"kind\":\"auth\",\"iss\":\"example.org\",\"iat\":1,\"exp\":18446744073709551615,\"jti\":3,\"sub\":\"@a:example.org\",\"device_id\":\"D\"}"
    );
}

#[test]
fn session_claims_text_is_exact() {
    let c = sample("D", None, Some(vec![LoginType::Password, LoginType::Token]));
    assert_eq!(
        c.to_text(),
        "{\"kind\":\"session\",\"iss\":\"example.org\",\"iat\":1,\"exp\":18446744073709551615,\"sub\":\"@a:example.org\",\"device_id\":\"D\",\"complete\":[\"m.login.password\",\"m.login.token\"]}"
    );
}

#[test]
fn empty_stage_list_text() {
    let c = sample("D", None, Some(vec![]));
    assert!(c.to_text().ends_with("\"complete\":[]}"));
}

#[test]
fn strings_are_escaped() {
    let c = sample("a\"b\\c\n", Some(0), None);
    assert!(c.to_text().contains("\"device_id\":\"a\\\"b\\\\c\\u000a\""));
}

#[test]
fn claims_read_back() {
    for c in [
        sample("D", Some(3), None),
        sample("a\"b\\c\n\u{1f}é", Some(4294967295), None),
        sample("", None, Some(vec![])),
        sample("x", None, Some(vec![LoginType::Token, LoginType::Password, LoginType::Token])),
    ] {
        assert_eq!(Claims::parse(&c.to_text()), Some(c.clone()));
    }
}

#[test]
fn malformed_claims_are_refused() {
    let good = sample("D", Some(3), None).to_text();
    assert_eq!(Claims::parse(""), None);
    assert_eq!(Claims::parse(&good[..good.len() - 1]), None);
    assert_eq!(Claims::parse(&format!("{} ", good)), None);
    assert_eq!(Claims::parse(&good.replace("\"jti\":3", "\"jti\":4294967296")), None);
    assert_eq!(Claims::parse(&good.replace("@a:example.org", "a")), None);
    assert_eq!(Claims::parse(&good.replace("\"iat\":1", "\"iat\":18446744073709551616")), None);
}
