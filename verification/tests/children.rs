use gpui_net_shell::calls::{texts, MethodCall};
use gpui_net_shell::children::{accept_only, split_children};
use gpui_net_shell::components::command::selection_path;
use gpui_net_shell::rules::ComponentPayload;

fn owned(names: &[&str]) -> Vec<String> {
    names.iter().map(|name| name.to_string()).collect()
}

#[test]
fn a_parent_refuses_the_first_child_it_does_not_accept() {
    let message = "RadioGroup accepts only Radio children; received ";
    assert_eq!(accept_only(&owned(&["Radio", "Radio"]), &vec!["Radio"], message), Ok(()));
    assert_eq!(accept_only(&owned(&[]), &vec!["Radio"], message), Ok(()));
    assert_eq!(
        accept_only(&owned(&["Radio", "Button", "Div"]), &vec!["Radio"], message),
        Err("RadioGroup accepts only Radio children; received Button".to_string())
    );
}

#[test]
fn context_menu_entries_split_from_the_target() {
    let (entries, target) = split_children(
        &owned(&["Div", "ContextMenuItem", "Text", "ContextMenuSeparator", "ContextMenuItem"]),
        &vec!["ContextMenuItem", "ContextMenuSeparator"],
    );
    assert_eq!(entries, vec![1, 3, 4]);
    assert_eq!(target, vec![0, 2]);
}

#[test]
fn command_selections_and_keywords() {
    assert_eq!(selection_path(0, 12), "0,12");
    assert_eq!(selection_path(3, 0), "3,0");
    let calls = vec![
        MethodCall::new("keyword", ComponentPayload::Text("open".into())),
        MethodCall::new("checked", ComponentPayload::Flag(true)),
        MethodCall::new("keyword", ComponentPayload::Text("file".into())),
    ];
    assert_eq!(texts(&calls, "keyword"), vec!["open".to_string(), "file".to_string()]);
}
