use maelstrom::ids::is_username_valid;
use maelstrom::registration::Kind;

#[test]
fn test_check_username_valid_good() {
    let good_username = "good_user";
    assert!(is_username_valid(good_username, "localhost"));
}

#[test]
fn test_check_username_valid_bad() {
    let bad_username = "b@dn!ame$";
    assert_ne!(true, is_username_valid(bad_username, "localhost"));
}

#[test]
fn test_check_username_valid_empty() {
    let bad_username = "";
    assert_ne!(true, is_username_valid(bad_username, "localhost"));
}

#[test]
fn historical_username_is_not_valid() {
    assert!(!is_username_valid("a%b[irc]", "localhost"));
}

#[test]
fn test_kind_from_str_guest() {
    assert_eq!(Kind::from_str("GUEST"), Kind::Guest);
    assert_eq!(Kind::from_str("Guest"), Kind::Guest);
    assert_eq!(Kind::from_str("guest"), Kind::Guest);
}

#[test]
fn test_kind_from_str_user() {
    assert_eq!(Kind::from_str("USER"), Kind::User);
    assert_eq!(Kind::from_str("User"), Kind::User);
    assert_eq!(Kind::from_str("user"), Kind::User);
}

#[test]
fn test_kind_from_str_defaults_to_user() {
    assert_eq!(Kind::from_str(""), Kind::User);
    assert_eq!(Kind::from_str(" "), Kind::User);
    assert_eq!(Kind::from_str("bleh"), Kind::User);
}

#[test]
fn kind_from_lowercase_form() {
    assert_eq!(Kind::from_lowercase("guest"), Kind::Guest);
    assert_eq!(Kind::from_lowercase("GUEST"), Kind::User);
    assert_eq!(Kind::from_lowercase("user"), Kind::User);
}
