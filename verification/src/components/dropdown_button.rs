//! The `DropdownButton` component: its descriptor and its registration.

use vstd::prelude::*;
use crate::registry::{
    constructor_table, kinds, method_table, ArgumentDescriptor, ArgumentSchema, ComponentDescriptor,
    ComponentKind, ComponentRegistry, ConstructorDescriptor, ConstructorRow, MethodDescriptor,
    MethodRow,
};
use crate::rules::{ChoiceList, ConstructorRule, MethodRule};
use crate::calls::{calls_view, choice, items_of, last_choice, menu_items, MenuItem, MethodCall};

verus! {

/// The popup menu of a `DropdownButton`.
pub struct DropdownMenuConfig {
    /// The index of the anchor among `top_right`, `bottom_right`,
    /// `bottom_left`, `top_left`.
    pub anchor: u64,
    pub items: Vec<MenuItem>,
}

/// The menu the calls leave: the last `menu_anchor` call wins (top right
/// without one), and every `menu_item` call adds an item, in call order.
pub fn dropdown_menu_config(calls: &Vec<MethodCall>) -> (config: DropdownMenuConfig)
    ensures
        config.anchor == (match last_choice(calls_view(calls@), "menu_anchor"@) {
            Some(i) => i,
            None => 0,
        }),
        config.items@.len() == items_of(calls_view(calls@), "menu_item"@).len(),
        forall|i: int|
            0 <= i < config.items@.len() ==> (
            #[trigger] config.items@[i].label@,
            config.items@[i].callback,
        ) == items_of(calls_view(calls@), "menu_item"@)[i],
{
    let anchor = match choice(calls, "menu_anchor") {
        Some(i) => i,
        None => 0,
    };
    DropdownMenuConfig { anchor, items: menu_items(calls, "menu_item") }
}

/// The constructors of `DropdownButton`: export name, argument slots and rule.
#[verifier::opaque]
pub open spec fn dropdown_button_constructors() -> Seq<ConstructorRow> {
    seq![
        (
            "DropdownButton"@,
            seq![("id"@, ArgumentSchema::String), ("label"@, ArgumentSchema::String)],
            ConstructorRule::Pair {
                label_required: false,
                blank: "DropdownButton id must not be empty",
                error: "DropdownButton(id, label) expects two strings",
            },
        ),
    ]
}

/// The methods of `DropdownButton`: name, argument slots, rule and documentation.
#[verifier::opaque]
pub open spec fn dropdown_button_methods() -> Seq<MethodRow> {
    seq![
        ("outline"@, seq![], MethodRule::Unit, "Uses the outlined button treatment."@),
        (
            "size"@,
            seq![("size"@, ArgumentSchema::Enum(ChoiceList::Size))],
            MethodRule::Choice {
                list: ChoiceList::Size,
                any_text: false,
                unsupported: "unsupported DropdownButton size `",
                echo: true,
                error: "DropdownButton.size(size) expects a size literal",
                arity: "DropdownButton.size(size) expects a size literal",
            },
            "Sets the size of both halves."@,
        ),
        (
            "variant"@,
            seq![("variant"@, ArgumentSchema::Enum(ChoiceList::ButtonVariant))],
            MethodRule::Choice {
                list: ChoiceList::ButtonVariant,
                any_text: false,
                unsupported: "unsupported DropdownButton variant `",
                echo: true,
                error: "DropdownButton.variant(variant) expects a variant literal",
                arity: "DropdownButton.variant(variant) expects a variant literal",
            },
            "Sets the semantic variant of both halves."@,
        ),
        (
            "menu_anchor"@,
            seq![("anchor"@, ArgumentSchema::Enum(ChoiceList::MenuAnchor))],
            MethodRule::Choice {
                list: ChoiceList::MenuAnchor,
                any_text: false,
                unsupported: "unsupported DropdownButton anchor `",
                echo: true,
                error: "DropdownButton.menu_anchor(anchor) expects an anchor literal",
                arity: "DropdownButton.menu_anchor(anchor) expects an anchor literal",
            },
            "Sets the popup menu anchor."@,
        ),
        (
            "menu_item"@,
            seq![("label"@, ArgumentSchema::String), ("callback"@, ArgumentSchema::Callback)],
            MethodRule::Item {
                require_label: false,
                blank: "DropdownButton.menu_item(label, callback) expects a string and callback",
                error: "DropdownButton.menu_item(label, callback) expects a string and callback",
            },
            "Appends a clickable popup-menu item in call order."@,
        ),
    ]
}

/// Whether `d` is the `DropdownButton` descriptor: its constructors, methods and documentation.
pub open spec fn is_dropdown_button_descriptor(d: ComponentDescriptor) -> bool {
    &&& d.kind == ComponentKind::DropdownButton
    &&& d.documentation@ == "A real split DropdownButton with a labeled action half and optional callback menu items. It accepts no children."@
    &&& constructor_table(d.constructors@) == dropdown_button_constructors()
    &&& method_table(d.methods@) == dropdown_button_methods()
}

fn dropdown_button_descriptor() -> (d: ComponentDescriptor)
    ensures
        is_dropdown_button_descriptor(d),
{
    let d = ComponentDescriptor::new(ComponentKind::DropdownButton)
        .with_constructors(
            vec![
                ConstructorDescriptor::new(
                    "DropdownButton",
                    vec![
                        ArgumentDescriptor::new("id", ArgumentSchema::String),
                        ArgumentDescriptor::new("label", ArgumentSchema::String),
                    ],
                    ConstructorRule::Pair {
                        label_required: false,
                        blank: "DropdownButton id must not be empty",
                        error: "DropdownButton(id, label) expects two strings",
                    },
                ),
            ],
        )
        .with_methods(
            vec![
                MethodDescriptor::new(
                    "outline",
                    Vec::new(),
                    MethodRule::Unit,
                ).with_documentation("Uses the outlined button treatment."),
                MethodDescriptor::new(
                    "size",
                    vec![ArgumentDescriptor::new("size", ArgumentSchema::Enum(ChoiceList::Size))],
                    MethodRule::Choice {
                        list: ChoiceList::Size,
                        any_text: false,
                        unsupported: "unsupported DropdownButton size `",
                        echo: true,
                        error: "DropdownButton.size(size) expects a size literal",
                        arity: "DropdownButton.size(size) expects a size literal",
                    },
                ).with_documentation("Sets the size of both halves."),
                MethodDescriptor::new(
                    "variant",
                    vec![
                        ArgumentDescriptor::new(
                            "variant",
                            ArgumentSchema::Enum(ChoiceList::ButtonVariant),
                        ),
                    ],
                    MethodRule::Choice {
                        list: ChoiceList::ButtonVariant,
                        any_text: false,
                        unsupported: "unsupported DropdownButton variant `",
                        echo: true,
                        error: "DropdownButton.variant(variant) expects a variant literal",
                        arity: "DropdownButton.variant(variant) expects a variant literal",
                    },
                ).with_documentation("Sets the semantic variant of both halves."),
                MethodDescriptor::new(
                    "menu_anchor",
                    vec![
                        ArgumentDescriptor::new(
                            "anchor",
                            ArgumentSchema::Enum(ChoiceList::MenuAnchor),
                        ),
                    ],
                    MethodRule::Choice {
                        list: ChoiceList::MenuAnchor,
                        any_text: false,
                        unsupported: "unsupported DropdownButton anchor `",
                        echo: true,
                        error: "DropdownButton.menu_anchor(anchor) expects an anchor literal",
                        arity: "DropdownButton.menu_anchor(anchor) expects an anchor literal",
                    },
                ).with_documentation("Sets the popup menu anchor."),
                MethodDescriptor::new(
                    "menu_item",
                    vec![
                        ArgumentDescriptor::new("label", ArgumentSchema::String),
                        ArgumentDescriptor::new("callback", ArgumentSchema::Callback),
                    ],
                    MethodRule::Item {
                        require_label: false,
                        blank: "DropdownButton.menu_item(label, callback) expects a string and callback",
                        error: "DropdownButton.menu_item(label, callback) expects a string and callback",
                    },
                ).with_documentation("Appends a clickable popup-menu item in call order."),
            ],
        )
        .with_documentation(
            "A real split DropdownButton with a labeled action half and optional callback menu items. It accepts no children.",
        );
    proof {
        reveal(dropdown_button_constructors);
        assert(constructor_table(d.constructors@) =~~= dropdown_button_constructors());
        reveal(dropdown_button_methods);
        assert(method_table(d.methods@) =~~= dropdown_button_methods());
    }
    d
}

/// Registers `DropdownButton` after the components already registered.
pub fn register(registry: &mut ComponentRegistry)
    requires
        !kinds(old(registry)@).contains(ComponentKind::DropdownButton),
    ensures
        final(registry)@.len() == old(registry)@.len() + 1,
        final(registry)@.take(old(registry)@.len() as int) == old(registry)@,
        is_dropdown_button_descriptor(final(registry)@[old(registry)@.len() as int]),
{
    let ghost start = registry@;
    let dropdown_button = dropdown_button_descriptor();
    let dropdown_button_registered = registry.register(dropdown_button);
    proof {
        assert(dropdown_button_registered is Ok);
    }
    proof {
        assert(registry@.take(start.len() as int) =~= start);
    }
}

} // verus!
