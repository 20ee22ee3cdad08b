use gpui_net_shell::calls::{first_payload, last_payload, menu_items, MethodCall};
use gpui_net_shell::components::combobox::{combobox_label, options_state, popup_items};
use gpui_net_shell::components::data_table::data_table_config;
use gpui_net_shell::components::description_list::{list_config, ListConfig};
use gpui_net_shell::components::div::stateful_id;
use gpui_net_shell::components::separator::{draws_dashes_as_quads, separator_axis, SeparatorAxis};
use gpui_net_shell::components::dropdown_button::dropdown_menu_config;
use gpui_net_shell::components::editor::editor_config;
use gpui_net_shell::components::input::input_config;
use gpui_net_shell::components::list::{parse_list_rows, render_row};
use gpui_net_shell::components::motion::{motion_config, parse_easing, presence_config, Easing};
use gpui_net_shell::components::number_input::number_input_config;
use gpui_net_shell::components::otp_input::{otp_input_config, DEFAULT_LENGTH};
use gpui_net_shell::components::rating::rating_settings;
use gpui_net_shell::components::resizable::resizable_config;
use gpui_net_shell::components::scroll::{resolve_ops, ScrollAxis, ScrollbarMode};
use gpui_net_shell::components::slider::slider_config;
use gpui_net_shell::components::status_bar::status_bar_sides;
use gpui_net_shell::components::tabs::tab_click_token;
use gpui_net_shell::rules::{ComponentPayload, SeparatorKind};

fn call(method: &str, payload: ComponentPayload) -> MethodCall {
    MethodCall::new(method, payload)
}

fn lines(items: &[&str]) -> ComponentPayload {
    ComponentPayload::Lines(items.iter().map(|s| s.to_string()).collect())
}

#[test]
fn a_later_call_wins_and_a_first_call_stays() {
    let calls = vec![
        call("render_row", ComponentPayload::Callback(1)),
        call("label", ComponentPayload::Text("a".into())),
        call("render_row", ComponentPayload::Callback(2)),
        call("label", ComponentPayload::Text("b".into())),
    ];
    assert_eq!(last_payload(&calls, "label"), Some(&ComponentPayload::Text("b".into())));
    assert_eq!(first_payload(&calls, "render_row"), Some(&ComponentPayload::Callback(1)));
    assert_eq!(last_payload(&calls, "render_row"), Some(&ComponentPayload::Callback(2)));
    assert_eq!(last_payload(&calls, "missing"), None);
    assert_eq!(render_row(&calls), Some(1));
}

#[test]
fn later_value_and_max_operations_win_in_call_order() {
    let calls = vec![
        call("value", ComponentPayload::Count(4)),
        call("max", ComponentPayload::Count(3)),
        call("value", ComponentPayload::Count(2)),
    ];
    assert_eq!(rating_settings(&calls), (2, 3));
}

#[test]
fn rating_values_stay_within_the_maximum() {
    assert_eq!(rating_settings(&vec![]), (0, 5));
    assert_eq!(rating_settings(&vec![call("value", ComponentPayload::Count(9))]), (5, 5));
    let calls = vec![
        call("value", ComponentPayload::Count(4)),
        call("max", ComponentPayload::Count(2)),
        call("max", ComponentPayload::Count(8)),
        call("color", ComponentPayload::Text("red".into())),
    ];
    assert_eq!(rating_settings(&calls), (2, 8));
}

#[test]
fn repeated_configuration_is_last_call_wins() {
    let calls = vec![
        call("scroll_axis", ComponentPayload::Choice(1)),
        call("mode", ComponentPayload::Choice(1)),
        call("viewport_from_layout", ComponentPayload::Flag(true)),
        call("scroll_axis", ComponentPayload::Choice(0)),
        call("mode", ComponentPayload::Choice(2)),
        call("viewport_from_layout", ComponentPayload::Flag(false)),
    ];
    let settings = resolve_ops(&calls);
    assert_eq!(settings.axis, Some(ScrollAxis::Vertical));
    assert_eq!(settings.mode, Some(ScrollbarMode::Always));
    assert!(!settings.viewport_from_layout);
    assert_eq!(settings.by, None);
}

#[test]
fn a_scroll_by_nudge_is_carried() {
    let calls = vec![call("scroll_by", ComponentPayload::Number((-180.0f64).to_bits()))];
    let settings = resolve_ops(&calls);
    assert_eq!(settings.by, Some((-180.0f64).to_bits()));
}

#[test]
fn rows_parse_id_label_and_disabled() {
    let rows = parse_list_rows(&vec![
        vec!["a".into(), "Alpha".into()],
        vec!["b".into(), "Beta".into(), "true".into()],
    ]);
    assert_eq!(rows[0].id, "a");
    assert_eq!(rows[0].label, "Alpha");
    assert!(!rows[0].disabled);
    assert!(rows[1].disabled);
}

#[test]
fn rows_without_an_id_are_numbered() {
    let rows = parse_list_rows(&vec![
        vec![],
        vec!["".into(), "Second".into(), "1".into()],
        vec!["x".into(), "X".into(), "yes".into(), "extra".into()],
    ]);
    assert_eq!(rows[0].id, "row-0");
    assert_eq!(rows[0].label, "row-0");
    assert_eq!(rows[1].id, "row-1");
    assert_eq!(rows[1].label, "Second");
    assert!(rows[1].disabled);
    assert!(!rows[2].disabled);
    assert_eq!(rows[2].fields.len(), 4);
}

#[test]
fn combobox_options_pair_with_tokens() {
    let calls = vec![
        call("options", lines(&["One", "Two", "Three"])),
        call("tokens", ComponentPayload::Tokens(vec![7, 8])),
        call("selected", ComponentPayload::Count(1)),
    ];
    let state = options_state(&calls);
    assert_eq!(combobox_label(&state), "Two");
    let items = popup_items(&state);
    assert_eq!(items.len(), 3);
    assert_eq!(items[0].label, "One");
    assert_eq!(items[0].token, 7);
    assert_eq!(items[2].token, 0);
    assert_eq!(tab_click_token(&state.tokens, 1), Some(8));
    assert_eq!(tab_click_token(&state.tokens, 2), None);
    assert_eq!(tab_click_token(&vec![0], 0), None);

    let empty = options_state(&vec![call("selected", ComponentPayload::Count(4))]);
    assert_eq!(combobox_label(&empty), "Select");
    assert!(popup_items(&empty).is_empty());
}

#[test]
fn retained_fields_take_their_defaults() {
    let slider = slider_config(&vec![], true);
    assert_eq!(slider.value, 0);
    assert_eq!(slider.min, None);
    assert!(!slider.vertical);
    assert!(slider.disabled);

    let calls = vec![
        call("value", ComponentPayload::Number(4.0f64.to_bits())),
        call("vertical", ComponentPayload::Unit),
        call("disabled", ComponentPayload::Flag(false)),
        call("on_change", ComponentPayload::Callback(3)),
        call("max", ComponentPayload::Number(9.0f64.to_bits())),
    ];
    let slider = slider_config(&calls, true);
    assert_eq!(slider.value, 4.0f64.to_bits());
    assert_eq!(slider.max, Some(9.0f64.to_bits()));
    assert!(slider.vertical);
    assert!(!slider.reverse);
    assert!(!slider.disabled);
    assert_eq!(slider.on_change, Some(3));

    let input = input_config(
        &vec![
            call("placeholder", ComponentPayload::Text("Name".into())),
            call("size", ComponentPayload::Text("small".into())),
            call("on_blur", ComponentPayload::Callback(5)),
        ],
        false,
    );
    assert_eq!(input.placeholder, "Name");
    assert_eq!(input.value, "");
    assert_eq!(input.size, Some("small".to_string()));
    assert_eq!(input.on_blur, Some(5));
    assert_eq!(input.on_focus, None);

    let number = number_input_config(&vec![call("value", ComponentPayload::Text("12".into()))], false);
    assert_eq!(number.value, "12");
    assert!(!number.disabled);

    let otp = otp_input_config(&vec![], false);
    assert_eq!(otp.length, DEFAULT_LENGTH);
    assert_eq!(otp.length, 6);
    let otp = otp_input_config(&vec![call("length", ComponentPayload::Count(4))], false);
    assert_eq!(otp.length, 4);

    let editor = editor_config(&vec![call("language", ComponentPayload::Text("rust".into()))]);
    assert_eq!(editor.value, "");
    assert_eq!(editor.language, Some("rust".to_string()));
}

#[test]
fn motion_and_presence_defaults() {
    let motion = motion_config(&vec![]);
    assert_eq!(motion.duration_ms, 200.0f64.to_bits());
    assert_eq!(motion.easing, Easing::EaseOut);
    assert_eq!(motion.opacity, None);

    let presence = presence_config(&vec![]);
    assert!(!presence.present);
    assert_eq!(presence.easing, Easing::EaseInOut);
    assert_eq!(presence.fade, (0.0f64.to_bits(), 1.0f64.to_bits()));
    assert_eq!(presence.slide, (8.0f64.to_bits(), 0.0f64.to_bits()));

    let presence = presence_config(&vec![
        call("present", ComponentPayload::Flag(true)),
        call("easing", ComponentPayload::Text("linear".into())),
        call("fade_to", ComponentPayload::Number(0.5f64.to_bits())),
    ]);
    assert!(presence.present);
    assert_eq!(presence.easing, Easing::Linear);
    assert_eq!(presence.fade, (0.0f64.to_bits(), 0.5f64.to_bits()));

    assert_eq!(parse_easing("ease_in"), Easing::EaseIn);
    assert_eq!(parse_easing("bounce"), Easing::EaseOut);
}

#[test]
fn description_lists_start_from_the_default_layout() {
    let default = ListConfig::default();
    assert!(!default.vertical);
    assert!(default.bordered);
    assert_eq!(default.columns, 3);
    assert_eq!(default.size, 2);
    let config = list_config(&vec![
        call("vertical", ComponentPayload::Unit),
        call("columns", ComponentPayload::Count(2)),
        call("bordered", ComponentPayload::Flag(false)),
        call("columns", ComponentPayload::Count(5)),
    ]);
    assert!(config.vertical);
    assert!(!config.bordered);
    assert_eq!(config.columns, 5);
    assert_eq!(config.size, 2);
}

#[test]
fn menu_items_and_edge_content_keep_call_order() {
    let calls = vec![
        call("menu_item", ComponentPayload::Item("Copy".into(), 1)),
        call("menu_anchor", ComponentPayload::Choice(2)),
        call("outline", ComponentPayload::Unit),
        call("menu_item", ComponentPayload::Item("Paste".into(), 2)),
    ];
    let menu = dropdown_menu_config(&calls);
    assert_eq!(menu.anchor, 2);
    assert_eq!(menu.items.len(), 2);
    assert_eq!(menu.items[0].label, "Copy");
    assert_eq!(menu.items[1].callback, 2);
    assert_eq!(dropdown_menu_config(&vec![]).anchor, 0);
    assert_eq!(menu_items(&calls, "item").len(), 0);

    let sides = status_bar_sides(&vec![
        call("right_content", ComponentPayload::Element(3)),
        call("left_content", ComponentPayload::Element(1)),
        call("right_content", ComponentPayload::Element(4)),
    ]);
    assert_eq!(sides.left, vec![1]);
    assert_eq!(sides.right, vec![3, 4]);
}

#[test]
fn tables_and_panels_read_their_last_settings() {
    let table = data_table_config(&vec![
        call("render_cell", ComponentPayload::Callback(5)),
        call("columns", lines(&["a", "b"])),
        call("render_cell", ComponentPayload::Callback(6)),
        call("columns", lines(&["c"])),
    ]);
    assert_eq!(table.columns, vec!["c".to_string()]);
    assert_eq!(table.render_cell, Some(5));

    let panels = resizable_config(&vec![
        call("sizes", lines(&["100", "*"])),
        call("axis", ComponentPayload::Flag(true)),
    ]);
    assert!(panels.vertical);
    assert_eq!(panels.sizes, vec!["100".to_string(), "*".to_string()]);
}

#[test]
fn a_div_with_id_keyed_handlers_needs_a_stable_id() {
    let message = "a Div click, aux-click, or hover handler needs a stable element id".to_string();
    assert_eq!(stateful_id(&vec![]), Err(message.clone()));
    assert_eq!(
        stateful_id(&vec![call("element_id", ComponentPayload::Text("".into()))]),
        Err(message)
    );
    assert_eq!(
        stateful_id(&vec![
            call("element_id", ComponentPayload::Text("row".into())),
            call("element_id", ComponentPayload::Text("other".into())),
        ]),
        Ok("row".to_string())
    );
}

#[test]
fn only_unlabelled_dashed_separators_draw_quads() {
    assert!(draws_dashes_as_quads(SeparatorKind::VerticalDashed, &vec![]));
    assert!(!draws_dashes_as_quads(SeparatorKind::Vertical, &vec![]));
    assert!(!draws_dashes_as_quads(
        SeparatorKind::HorizontalDashed,
        &vec![call("label", ComponentPayload::Text("or".into()))]
    ));
    assert_eq!(separator_axis(SeparatorKind::HorizontalDashed), SeparatorAxis::Horizontal);
    assert_eq!(separator_axis(SeparatorKind::Vertical), SeparatorAxis::Vertical);
}
