use gpui_net_shell::components::button::validate_id;
use gpui_net_shell::components::common::nonempty_id;

#[test]
fn identity_rejects_an_empty_id() {
    assert_eq!(
        validate_id("Button", ""),
        Err("Button id must not be empty".into())
    );
    assert_eq!(validate_id("Button", "save"), Ok("save".into()));
}

#[test]
fn editor_identity_requires_text() {
    assert!(nonempty_id("", "Editor").is_err());
    assert_eq!(nonempty_id("code", "Editor").unwrap(), "code");
}

#[test]
fn id_rejects_empty_and_whitespace_only_values() {
    assert!(nonempty_id("", "Radio").is_err());
    assert!(nonempty_id(" \t ", "Radio").is_err());
    assert_eq!(nonempty_id("choice-a", "Radio").unwrap(), "choice-a");
}
