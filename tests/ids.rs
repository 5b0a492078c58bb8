use maelstrom::ids::UserId;

#[test]
fn user_id_is_normalised() {
    let u = UserId::parse("@CARL:example.com").unwrap();
    assert_eq!(u.as_str(), "@carl:example.com");
}

#[test]
fn user_id_default_port_is_dropped() {
    let u = UserId::parse("@carl:example.com:443").unwrap();
    assert_eq!(u.as_str(), "@carl:example.com");
    let v = UserId::parse("@carl:example.com:8080").unwrap();
    assert_eq!(v.as_str(), "@carl:example.com:8080");
}

#[test]
fn user_id_without_sigil_is_rejected() {
    assert!(UserId::parse("carl:example.com").is_err());
    assert!(UserId::parse("@carl").is_err());
}

#[test]
fn user_id_takes_default_server() {
    let u = UserId::parse_with_default_server("@alice", "example.org").unwrap();
    assert_eq!(u.as_str(), "@alice:example.org");
    let v = UserId::parse_with_default_server("@alice:other.org", "example.org").unwrap();
    assert_eq!(v.as_str(), "@alice:other.org");
}

#[test]
fn random_user_id_is_on_server() {
    let u = UserId::new("ruma.io:8080").unwrap();
    assert!(u.as_str().starts_with('@'));
    assert!(u.as_str().ends_with(":ruma.io:8080"));
}
