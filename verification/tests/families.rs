use gpui_net_shell::components::{
    chat, command, context_menu, entity_host, menu, native_menu, paint, radio_group, settings,
    sidebar, table,
};
use gpui_net_shell::registry::{ComponentRegistry, FrozenComponentRegistry};
use gpui_net_shell::rules::{ComponentArgument, ComponentPayload};

fn names(frozen: &FrozenComponentRegistry) -> Vec<&'static str> {
    frozen
        .descriptors()
        .iter()
        .map(|descriptor| descriptor.name())
        .collect::<Vec<_>>()
}

fn registered(register: fn(&mut ComponentRegistry)) -> FrozenComponentRegistry {
    let mut registry = ComponentRegistry::new();
    register(&mut registry);
    registry.freeze()
}

#[test]
fn the_chat_family_registers_six_components() {
    let frozen = registered(chat::register);
    assert_eq!(
        names(&frozen),
        [
            "Attachment",
            "Bubble",
            "Marker",
            "Message",
            "ShimmerText",
            "MessageScroller"
        ]
    );
}

#[test]
fn the_context_menu_family_registers_three_components() {
    let frozen = registered(context_menu::register);
    assert_eq!(
        names(&frozen),
        ["ContextMenuItem", "ContextMenuSeparator", "ContextMenu"]
    );
}

#[test]
fn the_native_menu_family_registers_three_components() {
    let frozen = registered(command::register);
    let palette = frozen.find("Command").unwrap();
    let max_height = palette.method("max_height").unwrap();
    assert_eq!(
        max_height.record(&vec![ComponentArgument::Number(1e300f64.to_bits())]),
        Ok(ComponentPayload::Number(1e300f64.to_bits()))
    );
    assert_eq!(
        max_height.record(&vec![ComponentArgument::Number(f64::INFINITY.to_bits())]),
        Err("Command.max_height expects positive finite pixels".into())
    );

    let frozen = registered(native_menu::register);
    assert_eq!(
        names(&frozen),
        ["NativeMenuItem", "NativeMenuSeparator", "NativeMenuTrigger"]
    );
}

#[test]
fn the_radio_group_registers_both_orientations() {
    let frozen = registered(radio_group::register);
    let descriptor = frozen
        .descriptors()
        .iter()
        .find(|descriptor| descriptor.name() == "RadioGroup")
        .expect("RadioGroup is registered");
    let exports = descriptor
        .constructors
        .iter()
        .map(|constructor| constructor.export)
        .collect::<Vec<_>>();
    assert_eq!(exports, ["RadioGroup", "HorizontalRadioGroup"]);
}

#[test]
fn the_entity_host_registers() {
    let frozen = registered(entity_host::register);
    assert!(frozen
        .descriptors()
        .iter()
        .any(|descriptor| descriptor.name() == "EntityHost"));
}

#[test]
fn the_other_families_register_in_order() {
    assert_eq!(
        names(&registered(command::register)),
        ["CommandItem", "CommandGroup", "CommandSeparator", "Command"]
    );
    assert_eq!(
        names(&registered(sidebar::register)),
        [
            "SidebarMenuItem",
            "SidebarMenu",
            "SidebarHeader",
            "SidebarFooter",
            "Sidebar",
            "SidebarToggleButton"
        ]
    );
    assert_eq!(
        names(&registered(settings::register)),
        ["SettingItem", "SettingGroup", "SettingPage", "Settings"]
    );
    assert_eq!(
        names(&registered(table::register)),
        [
            "TableHeader",
            "TableBody",
            "TableFooter",
            "TableRow",
            "TableHead",
            "TableCell",
            "TableCaption",
            "Table"
        ]
    );
    assert_eq!(
        names(&registered(menu::register)),
        ["MenuItem", "MenuSeparator", "Menu", "MenuBar"]
    );
    assert_eq!(
        names(&registered(paint::register)),
        ["PaintRect", "PaintLine", "PaintPath", "PaintGradient", "PaintShadow", "HitRegion"]
    );
}

#[test]
fn family_rules_record_or_refuse() {
    let frozen = registered(radio_group::register);
    let group = frozen.find("RadioGroup").unwrap();
    assert_eq!(
        group.constructors[1].payload(&vec![ComponentArgument::String("g".into())]),
        Ok(ComponentPayload::Oriented("g".into(), false))
    );
    assert_eq!(
        group.constructors[0].payload(&vec![ComponentArgument::String(" ".into())]),
        Err("RadioGroup(id) expects a non-empty string id".into())
    );
    let selected = group.method("selected_index").unwrap();
    assert_eq!(
        selected.record(&vec![ComponentArgument::Number((u64::MAX as f64).to_bits())]),
        Ok(ComponentPayload::Count(u64::MAX))
    );
    assert!(selected
        .record(&vec![ComponentArgument::Number(1e20f64.to_bits())])
        .is_err());

    let frozen = registered(chat::register);
    let marker = frozen.find("Marker").unwrap();
    assert_eq!(
        marker
            .method("variant")
            .unwrap()
            .record(&vec![ComponentArgument::Enum("bold".into())]),
        Err("unsupported Marker.variant value `bold`".into())
    );
    let shimmer = frozen.find("ShimmerText").unwrap();
    assert_eq!(
        shimmer
            .method("duration_ms")
            .unwrap()
            .record(&vec![ComponentArgument::Number(1500.7f64.to_bits())]),
        Ok(ComponentPayload::Count(1500))
    );
    assert!(shimmer
        .method("duration_ms")
        .unwrap()
        .record(&vec![ComponentArgument::Number((-1.0f64).to_bits())])
        .is_err());

    let frozen = registered(settings::register);
    let settings = frozen.find("Settings").unwrap();
    assert_eq!(
        settings
            .method("sidebar_width")
            .unwrap()
            .record(&vec![ComponentArgument::Number(0.0f64.to_bits())]),
        Err("sidebar_width expects a positive finite pixel value".into())
    );
    assert_eq!(
        settings
            .method("size")
            .unwrap()
            .record(&vec![ComponentArgument::Enum("huge".into())]),
        Err("unsupported size".into())
    );

    let frozen = registered(table::register);
    let cell = frozen.find("TableCell").unwrap();
    assert_eq!(
        cell.method("col_span")
            .unwrap()
            .record(&vec![ComponentArgument::Number(2.0f64.to_bits())]),
        Ok(ComponentPayload::Count(2))
    );
    assert!(frozen.find("TableRow").unwrap().method("col_span").is_none());

    let frozen = registered(sidebar::register);
    let item = frozen.find("SidebarMenuItem").unwrap();
    assert_eq!(
        item.constructors[0].payload(&vec![ComponentArgument::String(" ".into())]),
        Ok(ComponentPayload::Text(" ".into()))
    );
    assert_eq!(
        item.constructors[0].payload(&vec![ComponentArgument::String("".into())]),
        Err("SidebarMenuItem(label) expects a non-empty string".into())
    );

    let frozen = registered(command::register);
    let palette = frozen.find("Command").unwrap();
    let max_height = palette.method("max_height").unwrap();
    assert_eq!(
        max_height.record(&vec![ComponentArgument::Number(1e300f64.to_bits())]),
        Ok(ComponentPayload::Number(1e300f64.to_bits()))
    );
    assert_eq!(
        max_height.record(&vec![ComponentArgument::Number(f64::INFINITY.to_bits())]),
        Err("Command.max_height expects positive finite pixels".into())
    );

    let frozen = registered(native_menu::register);
    let trigger = frozen.find("NativeMenuTrigger").unwrap();
    assert_eq!(
        trigger
            .method("on_effect_error")
            .unwrap()
            .record(&vec![ComponentArgument::Callback(3)]),
        Ok(ComponentPayload::Unit)
    );
}
