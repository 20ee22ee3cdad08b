use gpui_net_shell::components::{canvas, catalog, motion};
use gpui_net_shell::registry::ComponentRegistry;

#[test]
fn the_catalog_registers_components_in_stable_id_order() {
    let frozen = catalog();
    assert_eq!(
        frozen
            .descriptors()
            .iter()
            .map(|descriptor| descriptor.name())
            .collect::<Vec<_>>(),
        [
            "Div",
            "Text",
            "Button",
            "Label",
            "Badge",
            "Progress",
            "Combobox",
            "Radio",
            "Tabs",
            "Scroll",
            "Scrollbar",
            "Resizable",
            "Popover",
            "Spinner",
            "Separator",
            "Skeleton",
            "Tag",
            "Link",
            "Kbd",
            "Avatar",
            "Icon",
            "Collapsible",
            "Pagination",
            "Rating",
            "Clipboard",
            "Breadcrumb",
            "GroupBox",
            "StatusBar",
            "Alert",
            "Tooltip",
            "HoverCard",
            "DropdownMenu",
            "DropdownButton",
            "Tab",
            "TabBar",
            "List",
            "Select",
            "DataTable",
            "AccordionItem",
            "Accordion",
            "StepperItem",
            "Stepper",
            "DescriptionItem",
            "DescriptionList",
            "Field",
            "Form",
            "Input",
            "NumberInput",
            "Textarea",
            "OtpInput",
            "Slider",
        ]
    );
}

#[test]
fn the_canvas_registers() {
    let mut registry = ComponentRegistry::new();
    canvas::register(&mut registry);
    let frozen = registry.freeze();
    assert!(frozen
        .descriptors()
        .iter()
        .any(|descriptor| descriptor.name() == "Canvas"));
}

#[test]
fn motion_and_presence_register() {
    let mut registry = ComponentRegistry::new();
    motion::register(&mut registry);
    let frozen = registry.freeze();
    assert!(frozen
        .descriptors()
        .iter()
        .any(|descriptor| descriptor.name() == "Motion"));
    assert!(frozen
        .descriptors()
        .iter()
        .any(|descriptor| descriptor.name() == "Presence"));
}

#[test]
fn input_declares_focus_and_blur_events() {
    let frozen = catalog();
    let descriptor = frozen
        .descriptors()
        .iter()
        .find(|descriptor| descriptor.name() == "Input")
        .expect("Input is registered");
    assert!(descriptor.method("on_focus").is_some());
    assert!(descriptor.method("on_blur").is_some());
}
