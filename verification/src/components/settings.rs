//! The `Settings` surface and the `SettingPage`, `SettingGroup` and `SettingItem` parts it accepts.

use vstd::prelude::*;
use crate::registry::{
    constructor_table, kinds, lemma_kinds_push, method_table, ArgumentDescriptor, ArgumentSchema,
    ComponentDescriptor, ComponentKind, ComponentRegistry, ConstructorDescriptor, ConstructorRow,
    MethodDescriptor, MethodRow,
};
use crate::rules::{ChoiceList, ConstructorRule, MethodRule};

verus! {

/// The constructors of `SettingItem`: export name, argument slots and rule.
#[verifier::opaque]
pub open spec fn setting_item_constructors() -> Seq<ConstructorRow> {
    seq![
        (
            "SettingItem"@,
            seq![("title"@, ArgumentSchema::String)],
            ConstructorRule::NonBlankOnly { error: "SettingItem expects a non-empty title" },
        ),
    ]
}

/// The methods of `SettingItem`: name, argument slots, rule and documentation.
#[verifier::opaque]
pub open spec fn setting_item_methods() -> Seq<MethodRow> {
    seq![
        (
            "description"@,
            seq![("text"@, ArgumentSchema::String)],
            MethodRule::Text {
                error: "SettingItem.description expects text",
                arity: "SettingItem.description expects text",
            },
            "Sets the supporting description."@,
        ),
        (
            "layout"@,
            seq![("axis"@, ArgumentSchema::Enum(ChoiceList::Axis))],
            MethodRule::Choice {
                list: ChoiceList::Axis,
                any_text: false,
                unsupported: "layout expects horizontal or vertical",
                echo: false,
                error: "layout expects horizontal or vertical",
                arity: "layout expects horizontal or vertical",
            },
            "Lays the label and field out along the given axis."@,
        ),
        (
            "keywords"@,
            seq![("keywords"@, ArgumentSchema::String)],
            MethodRule::Columns { error: "keywords expects a newline-separated string" },
            "Adds search keywords that match this item."@,
        ),
        (
            "disabled"@,
            seq![("disabled"@, ArgumentSchema::Boolean)],
            MethodRule::Flag {
                error: "SettingItem.disabled expects a boolean",
                arity: "SettingItem.disabled expects a boolean",
            },
            "Disables the item's field."@,
        ),
    ]
}

/// Whether `d` is the `SettingItem` descriptor: its constructors, methods and documentation.
pub open spec fn is_setting_item_descriptor(d: ComponentDescriptor) -> bool {
    &&& d.kind == ComponentKind::SettingItem
    &&& d.documentation@ == "A typed setting item requiring a lazy content(element); style applies to the field."@
    &&& constructor_table(d.constructors@) == setting_item_constructors()
    &&& method_table(d.methods@) == setting_item_methods()
}

fn setting_item_descriptor() -> (d: ComponentDescriptor)
    ensures
        is_setting_item_descriptor(d),
{
    let d = ComponentDescriptor::new(ComponentKind::SettingItem)
        .with_constructors(
            vec![
                ConstructorDescriptor::new(
                    "SettingItem",
                    vec![ArgumentDescriptor::new("title", ArgumentSchema::String)],
                    ConstructorRule::NonBlankOnly {
                        error: "SettingItem expects a non-empty title",
                    },
                ),
            ],
        )
        .with_methods(
            vec![
                MethodDescriptor::new(
                    "description",
                    vec![ArgumentDescriptor::new("text", ArgumentSchema::String)],
                    MethodRule::Text {
                        error: "SettingItem.description expects text",
                        arity: "SettingItem.description expects text",
                    },
                ).with_documentation("Sets the supporting description."),
                MethodDescriptor::new(
                    "layout",
                    vec![ArgumentDescriptor::new("axis", ArgumentSchema::Enum(ChoiceList::Axis))],
                    MethodRule::Choice {
                        list: ChoiceList::Axis,
                        any_text: false,
                        unsupported: "layout expects horizontal or vertical",
                        echo: false,
                        error: "layout expects horizontal or vertical",
                        arity: "layout expects horizontal or vertical",
                    },
                ).with_documentation("Lays the label and field out along the given axis."),
                MethodDescriptor::new(
                    "keywords",
                    vec![ArgumentDescriptor::new("keywords", ArgumentSchema::String)],
                    MethodRule::Columns { error: "keywords expects a newline-separated string" },
                ).with_documentation("Adds search keywords that match this item."),
                MethodDescriptor::new(
                    "disabled",
                    vec![ArgumentDescriptor::new("disabled", ArgumentSchema::Boolean)],
                    MethodRule::Flag {
                        error: "SettingItem.disabled expects a boolean",
                        arity: "SettingItem.disabled expects a boolean",
                    },
                ).with_documentation("Disables the item's field."),
            ],
        )
        .with_documentation(
            "A typed setting item requiring a lazy content(element); style applies to the field.",
        );
    proof {
        reveal(setting_item_constructors);
        assert(constructor_table(d.constructors@) =~~= setting_item_constructors());
        reveal(setting_item_methods);
        assert(method_table(d.methods@) =~~= setting_item_methods());
    }
    d
}

/// The constructors of `SettingGroup`: export name, argument slots and rule.
#[verifier::opaque]
pub open spec fn setting_group_constructors() -> Seq<ConstructorRow> {
    seq![("SettingGroup"@, seq![], ConstructorRule::Unit)]
}

/// The methods of `SettingGroup`: name, argument slots, rule and documentation.
#[verifier::opaque]
pub open spec fn setting_group_methods() -> Seq<MethodRow> {
    seq![
        (
            "title"@,
            seq![("text"@, ArgumentSchema::String)],
            MethodRule::NonBlankText { error: "title expects non-empty text" },
            "Sets the supporting text."@,
        ),
        (
            "description"@,
            seq![("text"@, ArgumentSchema::String)],
            MethodRule::NonBlankText { error: "description expects non-empty text" },
            "Sets the supporting text."@,
        ),
    ]
}

/// Whether `d` is the `SettingGroup` descriptor: its constructors, methods and documentation.
pub open spec fn is_setting_group_descriptor(d: ComponentDescriptor) -> bool {
    &&& d.kind == ComponentKind::SettingGroup
    &&& d.documentation@ == "A styled setting group accepting only SettingItem children."@
    &&& constructor_table(d.constructors@) == setting_group_constructors()
    &&& method_table(d.methods@) == setting_group_methods()
}

fn setting_group_descriptor() -> (d: ComponentDescriptor)
    ensures
        is_setting_group_descriptor(d),
{
    let d = ComponentDescriptor::new(ComponentKind::SettingGroup)
        .with_constructors(
            vec![ConstructorDescriptor::new("SettingGroup", Vec::new(), ConstructorRule::Unit)],
        )
        .with_methods(
            vec![
                MethodDescriptor::new(
                    "title",
                    vec![ArgumentDescriptor::new("text", ArgumentSchema::String)],
                    MethodRule::NonBlankText { error: "title expects non-empty text" },
                ).with_documentation("Sets the supporting text."),
                MethodDescriptor::new(
                    "description",
                    vec![ArgumentDescriptor::new("text", ArgumentSchema::String)],
                    MethodRule::NonBlankText { error: "description expects non-empty text" },
                ).with_documentation("Sets the supporting text."),
            ],
        )
        .with_documentation("A styled setting group accepting only SettingItem children.");
    proof {
        reveal(setting_group_constructors);
        assert(constructor_table(d.constructors@) =~~= setting_group_constructors());
        reveal(setting_group_methods);
        assert(method_table(d.methods@) =~~= setting_group_methods());
    }
    d
}

/// The constructors of `SettingPage`: export name, argument slots and rule.
#[verifier::opaque]
pub open spec fn setting_page_constructors() -> Seq<ConstructorRow> {
    seq![
        (
            "SettingPage"@,
            seq![("title"@, ArgumentSchema::String)],
            ConstructorRule::NonBlankOnly { error: "SettingPage expects a non-empty title" },
        ),
    ]
}

/// The methods of `SettingPage`: name, argument slots, rule and documentation.
#[verifier::opaque]
pub open spec fn setting_page_methods() -> Seq<MethodRow> {
    seq![
        (
            "description"@,
            seq![("text"@, ArgumentSchema::String)],
            MethodRule::NonBlankText { error: "description expects non-empty text" },
            "Sets the supporting text."@,
        ),
        (
            "default_open"@,
            seq![("default_open"@, ArgumentSchema::Boolean)],
            MethodRule::Flag {
                error: "default_open expects one boolean",
                arity: "default_open expects one boolean",
            },
            "Controls native behavior."@,
        ),
        (
            "resettable"@,
            seq![("resettable"@, ArgumentSchema::Boolean)],
            MethodRule::Flag {
                error: "resettable expects one boolean",
                arity: "resettable expects one boolean",
            },
            "Controls native behavior."@,
        ),
    ]
}

/// Whether `d` is the `SettingPage` descriptor: its constructors, methods and documentation.
pub open spec fn is_setting_page_descriptor(d: ComponentDescriptor) -> bool {
    &&& d.kind == ComponentKind::SettingPage
    &&& d.documentation@ == "A typed setting page accepting SettingGroup children and a lazy title suffix."@
    &&& constructor_table(d.constructors@) == setting_page_constructors()
    &&& method_table(d.methods@) == setting_page_methods()
}

fn setting_page_descriptor() -> (d: ComponentDescriptor)
    ensures
        is_setting_page_descriptor(d),
{
    let d = ComponentDescriptor::new(ComponentKind::SettingPage)
        .with_constructors(
            vec![
                ConstructorDescriptor::new(
                    "SettingPage",
                    vec![ArgumentDescriptor::new("title", ArgumentSchema::String)],
                    ConstructorRule::NonBlankOnly {
                        error: "SettingPage expects a non-empty title",
                    },
                ),
            ],
        )
        .with_methods(
            vec![
                MethodDescriptor::new(
                    "description",
                    vec![ArgumentDescriptor::new("text", ArgumentSchema::String)],
                    MethodRule::NonBlankText { error: "description expects non-empty text" },
                ).with_documentation("Sets the supporting text."),
                MethodDescriptor::new(
                    "default_open",
                    vec![ArgumentDescriptor::new("default_open", ArgumentSchema::Boolean)],
                    MethodRule::Flag {
                        error: "default_open expects one boolean",
                        arity: "default_open expects one boolean",
                    },
                ).with_documentation("Controls native behavior."),
                MethodDescriptor::new(
                    "resettable",
                    vec![ArgumentDescriptor::new("resettable", ArgumentSchema::Boolean)],
                    MethodRule::Flag {
                        error: "resettable expects one boolean",
                        arity: "resettable expects one boolean",
                    },
                ).with_documentation("Controls native behavior."),
            ],
        )
        .with_documentation(
            "A typed setting page accepting SettingGroup children and a lazy title suffix.",
        );
    proof {
        reveal(setting_page_constructors);
        assert(constructor_table(d.constructors@) =~~= setting_page_constructors());
        reveal(setting_page_methods);
        assert(method_table(d.methods@) =~~= setting_page_methods());
    }
    d
}

/// The constructors of `Settings`: export name, argument slots and rule.
#[verifier::opaque]
pub open spec fn settings_constructors() -> Seq<ConstructorRow> {
    seq![
        (
            "Settings"@,
            seq![("id"@, ArgumentSchema::String)],
            ConstructorRule::NonBlankOnly { error: "Settings expects a non-empty id" },
        ),
    ]
}

/// The methods of `Settings`: name, argument slots, rule and documentation.
#[verifier::opaque]
pub open spec fn settings_methods() -> Seq<MethodRow> {
    seq![
        (
            "size"@,
            seq![("size"@, ArgumentSchema::Enum(ChoiceList::Size))],
            MethodRule::Choice {
                list: ChoiceList::Size,
                any_text: false,
                unsupported: "unsupported size",
                echo: false,
                error: "size expects a semantic size",
                arity: "size expects a semantic size",
            },
            "Sets the settings surface's semantic size."@,
        ),
        (
            "sidebar_width"@,
            seq![("pixels"@, ArgumentSchema::Number)],
            MethodRule::PositiveF32 {
                invalid: "sidebar_width expects a positive finite pixel value",
                not_number: "sidebar_width expects a number",
            },
            "Sets the sidebar's width in pixels."@,
        ),
        (
            "default_selected_page"@,
            seq![("index"@, ArgumentSchema::Number)],
            MethodRule::Index { error: "default_selected_page expects a nonnegative integer" },
            "Selects the page shown when the surface first opens."@,
        ),
    ]
}

/// Whether `d` is the `Settings` descriptor: its constructors, methods and documentation.
pub open spec fn is_settings_descriptor(d: ComponentDescriptor) -> bool {
    &&& d.kind == ComponentKind::Settings
    &&& d.documentation@ == "A settings container accepting only SettingPage children; style is rejected."@
    &&& constructor_table(d.constructors@) == settings_constructors()
    &&& method_table(d.methods@) == settings_methods()
}

fn settings_descriptor() -> (d: ComponentDescriptor)
    ensures
        is_settings_descriptor(d),
{
    let d = ComponentDescriptor::new(ComponentKind::Settings)
        .with_constructors(
            vec![
                ConstructorDescriptor::new(
                    "Settings",
                    vec![ArgumentDescriptor::new("id", ArgumentSchema::String)],
                    ConstructorRule::NonBlankOnly { error: "Settings expects a non-empty id" },
                ),
            ],
        )
        .with_methods(
            vec![
                MethodDescriptor::new(
                    "size",
                    vec![ArgumentDescriptor::new("size", ArgumentSchema::Enum(ChoiceList::Size))],
                    MethodRule::Choice {
                        list: ChoiceList::Size,
                        any_text: false,
                        unsupported: "unsupported size",
                        echo: false,
                        error: "size expects a semantic size",
                        arity: "size expects a semantic size",
                    },
                ).with_documentation("Sets the settings surface's semantic size."),
                MethodDescriptor::new(
                    "sidebar_width",
                    vec![ArgumentDescriptor::new("pixels", ArgumentSchema::Number)],
                    MethodRule::PositiveF32 {
                        invalid: "sidebar_width expects a positive finite pixel value",
                        not_number: "sidebar_width expects a number",
                    },
                ).with_documentation("Sets the sidebar's width in pixels."),
                MethodDescriptor::new(
                    "default_selected_page",
                    vec![ArgumentDescriptor::new("index", ArgumentSchema::Number)],
                    MethodRule::Index {
                        error: "default_selected_page expects a nonnegative integer",
                    },
                ).with_documentation("Selects the page shown when the surface first opens."),
            ],
        )
        .with_documentation(
            "A settings container accepting only SettingPage children; style is rejected.",
        );
    proof {
        reveal(settings_constructors);
        assert(constructor_table(d.constructors@) =~~= settings_constructors());
        reveal(settings_methods);
        assert(method_table(d.methods@) =~~= settings_methods());
    }
    d
}

/// Registers `SettingItem`, `SettingGroup`, `SettingPage`, `Settings` after the components already
/// registered, in this order.
pub fn register(registry: &mut ComponentRegistry)
    requires
        !kinds(old(registry)@).contains(ComponentKind::SettingItem),
        !kinds(old(registry)@).contains(ComponentKind::SettingGroup),
        !kinds(old(registry)@).contains(ComponentKind::SettingPage),
        !kinds(old(registry)@).contains(ComponentKind::Settings),
    ensures
        final(registry)@.len() == old(registry)@.len() + 4,
        final(registry)@.take(old(registry)@.len() as int) == old(registry)@,
        is_setting_item_descriptor(final(registry)@[old(registry)@.len() as int]),
        is_setting_group_descriptor(final(registry)@[old(registry)@.len() as int + 1]),
        is_setting_page_descriptor(final(registry)@[old(registry)@.len() as int + 2]),
        is_settings_descriptor(final(registry)@[old(registry)@.len() as int + 3]),
{
    let ghost start = registry@;
    let ghost before_setting_item = registry@;
    let setting_item = setting_item_descriptor();
    let ghost added_setting_item = setting_item;
    let setting_item_registered = registry.register(setting_item);
    proof {
        assert(setting_item_registered is Ok);
        lemma_kinds_push(before_setting_item, added_setting_item);
    }
    let ghost before_setting_group = registry@;
    let setting_group = setting_group_descriptor();
    let ghost added_setting_group = setting_group;
    let setting_group_registered = registry.register(setting_group);
    proof {
        assert(setting_group_registered is Ok);
        lemma_kinds_push(before_setting_group, added_setting_group);
    }
    let ghost before_setting_page = registry@;
    let setting_page = setting_page_descriptor();
    let ghost added_setting_page = setting_page;
    let setting_page_registered = registry.register(setting_page);
    proof {
        assert(setting_page_registered is Ok);
        lemma_kinds_push(before_setting_page, added_setting_page);
    }
    let settings = settings_descriptor();
    let settings_registered = registry.register(settings);
    proof {
        assert(settings_registered is Ok);
    }
    proof {
        assert(registry@.take(start.len() as int) =~= start);
    }
}

} // verus!
