use chat_splitter::Role;
use chat_splitter::parse_role;

#[test]
fn labels_round_trip() {
    for role in [Role::System, Role::User, Role::Assistant, Role::Function] {
        assert_eq!(parse_role(role.label()), Some(role));
    }
}

#[test]
fn known_labels_parse() {
    assert_eq!(parse_role("system"), Some(Role::System));
    assert_eq!(parse_role("user"), Some(Role::User));
    assert_eq!(parse_role("assistant"), Some(Role::Assistant));
    assert_eq!(parse_role("function"), Some(Role::Function));
}

#[test]
fn unknown_labels_are_rejected() {
    assert_eq!(parse_role("tool"), None);
    assert_eq!(parse_role(""), None);
    assert_eq!(parse_role("User"), None);
}
