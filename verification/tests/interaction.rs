use gpui_net_shell::components::canvas::{
    region_hover_step, region_pointer_step, PointerEvent, RegionAction, RegionTokens,
};
use gpui_net_shell::components::{catalog, paint};
use gpui_net_shell::registry::ComponentRegistry;
use gpui_net_shell::components::command::command_children;
use gpui_net_shell::paint_path::{
    operand_at, operand_count, parse_path_words, split_length, split_words, LengthUnit, Operand,
    PathCommand, PathEnding,
};
use gpui_net_shell::rules::{ComponentArgument, ComponentPayload};

fn tokens() -> RegionTokens {
    RegionTokens {
        press: Some(1),
        release: Some(2),
        click: Some(3),
        hover_enter: Some(4),
        hover_exit: Some(5),
        on_move: Some(6),
        scroll: Some(7),
    }
}

fn none() -> RegionTokens {
    RegionTokens {
        press: None,
        release: None,
        click: None,
        hover_enter: None,
        hover_exit: None,
        on_move: None,
        scroll: None,
    }
}

#[test]
fn a_press_and_release_over_a_region_clicks_it() {
    let (armed, actions) = region_pointer_step(None, PointerEvent::Down, true, 9, tokens());
    assert_eq!(armed, Some(9));
    assert_eq!(actions, vec![RegionAction::Invoke(1)]);
    let (armed, actions) = region_pointer_step(armed, PointerEvent::Up, true, 9, tokens());
    assert_eq!(armed, None);
    assert_eq!(
        actions,
        vec![RegionAction::Invoke(2), RegionAction::Click(3), RegionAction::Invalidate]
    );
}

#[test]
fn a_release_outside_the_region_disarms_without_a_click() {
    let (armed, actions) = region_pointer_step(Some(9), PointerEvent::Up, false, 9, tokens());
    assert_eq!(armed, None);
    assert!(actions.is_empty());
}

#[test]
fn a_release_on_a_region_another_region_armed_changes_nothing() {
    let (armed, actions) = region_pointer_step(Some(4), PointerEvent::Up, true, 9, tokens());
    assert_eq!(armed, Some(4));
    assert!(actions.is_empty());
    let (armed, actions) = region_pointer_step(None, PointerEvent::Up, true, 9, tokens());
    assert_eq!(armed, None);
    assert!(actions.is_empty());
}

#[test]
fn a_press_outside_the_region_keeps_what_was_armed() {
    let (armed, actions) = region_pointer_step(Some(4), PointerEvent::Down, false, 9, tokens());
    assert_eq!(armed, Some(4));
    assert!(actions.is_empty());
}

#[test]
fn a_region_without_callbacks_still_arms_and_asks_for_a_render() {
    let (armed, actions) = region_pointer_step(None, PointerEvent::Down, true, 2, none());
    assert_eq!(armed, Some(2));
    assert!(actions.is_empty());
    let (armed, actions) = region_pointer_step(armed, PointerEvent::Up, true, 2, none());
    assert_eq!(armed, None);
    assert_eq!(actions, vec![RegionAction::Invalidate]);
}

#[test]
fn scrolling_over_a_region_reports_the_delta() {
    let (armed, actions) = region_pointer_step(Some(4), PointerEvent::Scroll, true, 9, tokens());
    assert_eq!(armed, Some(4));
    assert_eq!(actions, vec![RegionAction::InvokeWithDelta(7)]);
    let (_, actions) = region_pointer_step(None, PointerEvent::Scroll, false, 9, tokens());
    assert!(actions.is_empty());
}

#[test]
fn entering_moving_and_leaving_a_region() {
    let (hovered, actions) = region_hover_step(false, true, tokens());
    assert!(hovered);
    assert_eq!(actions, vec![RegionAction::Invoke(4), RegionAction::InvokeAtPointer(6)]);
    let (hovered, actions) = region_hover_step(hovered, true, tokens());
    assert!(hovered);
    assert_eq!(actions, vec![RegionAction::InvokeAtPointer(6)]);
    let (hovered, actions) = region_hover_step(hovered, false, tokens());
    assert!(!hovered);
    assert_eq!(actions, vec![RegionAction::Invoke(5)]);
}

#[test]
fn a_region_without_hover_callbacks_does_not_follow_the_pointer() {
    let (hovered, actions) = region_hover_step(false, true, none());
    assert!(!hovered);
    assert!(actions.is_empty());
}

#[test]
fn command_accepts_items_groups_and_separators_only() {
    let names = vec![
        "CommandItem".to_string(),
        "CommandGroup".to_string(),
        "CommandSeparator".to_string(),
    ];
    assert_eq!(command_children(&names), Ok(()));
    let names = vec!["CommandItem".to_string(), "Div".to_string(), "Text".to_string()];
    assert_eq!(
        command_children(&names),
        Err("Command accepts only CommandItem, CommandGroup, or CommandSeparator children; \
             received Div"
            .to_string())
    );
}

#[test]
fn catalog_names_are_distinct() {
    let frozen = catalog();
    let names: Vec<&str> = frozen.descriptors().iter().map(|d| d.name()).collect();
    for (i, a) in names.iter().enumerate() {
        for b in &names[i + 1..] {
            assert_ne!(a, b);
        }
    }
}

fn s(text: &str) -> ComponentArgument {
    ComponentArgument::String(text.to_string())
}

#[test]
fn a_color_is_recorded_only_once_the_parser_accepts_it() {
    let frozen = catalog();
    let color = frozen.find("Badge").unwrap().method("color").unwrap();
    let arguments = vec![s("red")];
    assert_eq!(color.text_to_parse(&arguments), Some("red".to_string()));
    assert_eq!(
        color.record_parsed(&arguments, &Ok(())),
        Ok(ComponentPayload::Text("red".into()))
    );
    assert_eq!(
        color.record_parsed(&vec![s("reddish")], &Err("unknown color `reddish`".into())),
        Err("invalid Badge color: unknown color `reddish`".into())
    );
    let wrong = vec![ComponentArgument::Boolean(true)];
    assert_eq!(color.text_to_parse(&wrong), None);
    assert_eq!(
        color.record_parsed(&wrong, &Ok(())),
        Err("Badge.color expects a color string".into())
    );
    let rating = frozen.find("Rating").unwrap().method("color").unwrap();
    assert_eq!(
        rating.record_parsed(&vec![s("x")], &Err("bad".into())),
        Err("invalid Rating color: bad".into())
    );
    let separator = frozen.find("Separator").unwrap().method("color").unwrap();
    assert_eq!(
        separator.record_parsed(&vec![s("x")], &Err("bad".into())),
        Err("invalid Separator color: bad".into())
    );
}

#[test]
fn a_paint_color_refusal_names_the_method() {
    let mut registry = ComponentRegistry::new();
    paint::register(&mut registry);
    let frozen = registry.freeze();
    let fill = frozen.find("PaintRect").unwrap().method("fill").unwrap();
    let arguments = vec![ComponentArgument::Enum("red".into())];
    assert_eq!(fill.text_to_parse(&arguments), Some("red".to_string()));
    assert_eq!(
        fill.record_parsed(&arguments, &Ok(())),
        Ok(ComponentPayload::Text("red".into()))
    );
    assert_eq!(
        fill.record_parsed(&arguments, &Err("no such color".into())),
        Err("fill: expected a color".into())
    );
    assert_eq!(
        fill.record_parsed(&vec![s("a"), s("b")], &Ok(())),
        Err("fill(color) expects one color".into())
    );
    let dash = frozen.find("PaintLine").unwrap().method("dash").unwrap();
    assert_eq!(
        dash.record_parsed(&vec![s("4")], &Err("one number".into())),
        Err("dash: expected `on off`".into())
    );
    assert_eq!(
        dash.record_parsed(&vec![ComponentArgument::Boolean(true)], &Ok(())),
        Err("dash: expected a pattern".into())
    );
}

#[test]
fn a_keystroke_is_recorded_only_once_the_parser_accepts_it() {
    let frozen = catalog();
    let kbd = &frozen.find("Kbd").unwrap().constructors[0];
    let arguments = vec![s("cmd-k")];
    assert_eq!(kbd.text_to_parse(&arguments), Some("cmd-k".to_string()));
    assert_eq!(
        kbd.payload_parsed(&arguments, &Ok(())),
        Ok(ComponentPayload::Text("cmd-k".into()))
    );
    assert_eq!(
        kbd.payload_parsed(&vec![s("cmd--")], &Err("bad key".into())),
        Err("invalid Kbd keystroke: bad key".into())
    );
    assert_eq!(
        kbd.payload_parsed(&vec![], &Ok(())),
        Err("Kbd expects one keystroke string".into())
    );
}

#[test]
fn words_are_split_on_any_whitespace() {
    assert_eq!(split_words("  M 1\t2\nL  3 4 "), vec!["M", "1", "2", "L", "3", "4"]);
    assert!(split_words(" \t ").is_empty());
}

#[test]
fn a_path_reads_as_commands_with_their_operands() {
    let (segments, ending) = parse_path_words("M 0 0 L 10 20 Q 1 2 3 4 Z");
    assert!(matches!(ending, PathEnding::Complete));
    let commands: Vec<PathCommand> = segments.iter().map(|s| s.command).collect();
    assert_eq!(
        commands,
        vec![PathCommand::Move, PathCommand::Line, PathCommand::Quad, PathCommand::Close]
    );
    assert_eq!(segments[1].operands, vec!["10", "20"]);
    assert_eq!(segments[2].operands, vec!["1", "2", "3", "4"]);
    assert!(segments[3].operands.is_empty());
    let (segments, ending) = parse_path_words("A 5 5f 0 1 0 50% 10");
    assert!(matches!(ending, PathEnding::Complete));
    assert_eq!(segments[0].command, PathCommand::Arc);
    assert_eq!(segments[0].operands.len(), operand_count(PathCommand::Arc));
}

#[test]
fn a_path_that_runs_out_keeps_the_operands_it_had() {
    let (segments, ending) = parse_path_words("M 1 2 L 3");
    assert_eq!(segments.len(), 1);
    match ending {
        PathEnding::EndedEarly { command, operands } => {
            assert_eq!(command, PathCommand::Line);
            assert_eq!(operands, vec!["3"]);
        }
        _ => panic!("expected the path to end early"),
    }
}

#[test]
fn an_unknown_command_ends_the_path() {
    let (segments, ending) = parse_path_words("M 1 2 X 3 4");
    assert_eq!(segments.len(), 1);
    match ending {
        PathEnding::Unknown(word) => assert_eq!(word, "X"),
        _ => panic!("expected an unknown command"),
    }
}

#[test]
fn arc_operands_are_radii_numbers_and_a_point() {
    let kinds: Vec<Operand> = (0..7).map(|i| operand_at(PathCommand::Arc, i)).collect();
    assert_eq!(
        kinds,
        vec![
            Operand::RadiusX,
            Operand::RadiusY,
            Operand::Number,
            Operand::Number,
            Operand::Number,
            Operand::X,
            Operand::Y
        ]
    );
    assert_eq!(operand_at(PathCommand::Cubic, 5), Operand::Y);
}

#[test]
fn lengths_split_into_a_unit_and_a_number() {
    assert_eq!(split_length("0.5f"), (LengthUnit::Fraction, "0.5".to_string()));
    assert_eq!(split_length("0.5F"), (LengthUnit::Fraction, "0.5".to_string()));
    assert_eq!(split_length("50%"), (LengthUnit::Percent, "50".to_string()));
    assert_eq!(split_length("12"), (LengthUnit::Pixels, "12".to_string()));
    assert_eq!(split_length(""), (LengthUnit::Pixels, "".to_string()));
}
