use gpui_net_shell::calls::MethodCall;
use gpui_net_shell::components::breadcrumb::breadcrumb_input;
use gpui_net_shell::components::editor::{editor_children, editor_settings_of, EditorSetting};
use gpui_net_shell::components::paint::{paint_arguments, paint_input};
use gpui_net_shell::components::separator::separator_input;
use gpui_net_shell::components::skeleton::skeleton_input;
use gpui_net_shell::components::status_bar::status_bar_input;
use gpui_net_shell::components::{catalog, paint};
use gpui_net_shell::registry::ComponentRegistry;
use gpui_net_shell::rules::{ComponentPayload, SeparatorKind, TextParser};

#[test]
fn separator_rejects_an_incompatible_payload() {
    assert_eq!(
        separator_input(&ComponentPayload::Unit).err().unwrap(),
        "Separator received an incompatible payload"
    );
    assert_eq!(
        separator_input(&ComponentPayload::Separator(SeparatorKind::Vertical)),
        Ok(SeparatorKind::Vertical)
    );
}

#[test]
fn skeleton_rejects_an_incompatible_payload() {
    assert_eq!(
        skeleton_input(&ComponentPayload::Flag(false)).err().unwrap(),
        "Skeleton received an incompatible payload"
    );
    assert_eq!(skeleton_input(&ComponentPayload::Unit), Ok(()));
}

#[test]
fn status_bar_rejects_an_incompatible_payload() {
    assert_eq!(
        status_bar_input(&ComponentPayload::Flag(false)).err().unwrap(),
        "StatusBar received an incompatible payload"
    );
    assert_eq!(status_bar_input(&ComponentPayload::Unit), Ok(()));
}

#[test]
fn breadcrumb_rejects_an_incompatible_payload() {
    assert_eq!(
        breadcrumb_input(&ComponentPayload::Unit).err().unwrap(),
        "Breadcrumb received an incompatible payload"
    );
    assert_eq!(
        breadcrumb_input(&ComponentPayload::Lines(vec!["Home".into(), "Docs".into()])),
        Ok(vec!["Home".to_string(), "Docs".to_string()])
    );
}

#[test]
fn an_editor_refuses_children() {
    assert_eq!(editor_children(0), Ok(()));
    assert_eq!(editor_children(2), Err("Editor does not accept children".to_string()));
}

#[test]
fn editor_settings_apply_in_call_order() {
    let calls = vec![
        MethodCall::new("readonly", ComponentPayload::Flag(true)),
        MethodCall::new("value", ComponentPayload::Text("fn main() {}".into())),
        MethodCall::new("aria_label", ComponentPayload::Text("Source".into())),
        MethodCall::new("bordered", ComponentPayload::Flag(false)),
        MethodCall::new("appearance", ComponentPayload::Flag(true)),
        MethodCall::new("readonly", ComponentPayload::Flag(false)),
        MethodCall::new("on_focus", ComponentPayload::Callback(3)),
    ];
    let settings = editor_settings_of(&calls);
    assert_eq!(settings.len(), 5);
    assert!(matches!(settings[0], EditorSetting::Readonly(true)));
    assert!(matches!(&settings[1], EditorSetting::AriaLabel(label) if label == "Source"));
    assert!(matches!(settings[2], EditorSetting::Bordered(false)));
    assert!(matches!(settings[3], EditorSetting::Appearance(true)));
    assert!(matches!(settings[4], EditorSetting::Readonly(false)));
}

#[test]
fn paint_arguments_must_match_the_arity() {
    let recorded = vec!["0".to_string(), "0".to_string(), "10".to_string()];
    assert_eq!(
        paint_arguments(&recorded, 4),
        Err("paint primitive expects 4 arguments, got 3".to_string())
    );
    assert_eq!(paint_arguments(&recorded, 3), Ok(recorded.clone()));
    assert_eq!(
        paint_input(&ComponentPayload::Unit, 4),
        Err("paint primitive received an incompatible payload".to_string())
    );
    assert_eq!(
        paint_input(&ComponentPayload::Lines(recorded.clone()), 7),
        Err("paint primitive expects 7 arguments, got 3".to_string())
    );
    assert_eq!(paint_input(&ComponentPayload::Lines(recorded.clone()), 3), Ok(recorded));
}

#[test]
fn each_parsing_rule_names_its_parser() {
    let frozen = catalog();
    let badge = frozen.find("Badge").unwrap();
    assert_eq!(badge.method("color").unwrap().parser(), Some(TextParser::Color));
    assert_eq!(badge.method("count").unwrap().parser(), None);
    let kbd = frozen.find("Kbd").unwrap();
    assert_eq!(kbd.constructors[0].parser(), Some(TextParser::Keystroke));
    let mut registry = ComponentRegistry::new();
    paint::register(&mut registry);
    let primitives = registry.freeze();
    let line = primitives.find("PaintLine").unwrap();
    assert_eq!(line.method("dash").unwrap().parser(), Some(TextParser::DashPattern));
    assert_eq!(line.method("color").unwrap().parser(), Some(TextParser::Color));
}
