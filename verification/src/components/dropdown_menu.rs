//! The `DropdownMenu` component: its descriptor and its registration.

use vstd::prelude::*;
use crate::registry::{
    constructor_table, kinds, method_table, ArgumentDescriptor, ArgumentSchema, ComponentDescriptor,
    ComponentKind, ComponentRegistry, ConstructorDescriptor, ConstructorRow, MethodDescriptor,
    MethodRow,
};
use crate::rules::{ConstructorRule, MethodRule};

verus! {

/// The constructors of `DropdownMenu`: export name, argument slots and rule.
#[verifier::opaque]
pub open spec fn dropdown_menu_constructors() -> Seq<ConstructorRow> {
    seq![
        (
            "DropdownMenu"@,
            seq![("id"@, ArgumentSchema::String), ("label"@, ArgumentSchema::String)],
            ConstructorRule::Pair {
                label_required: true,
                blank: "DropdownMenu id and label must not be empty",
                error: "DropdownMenu(id, label) expects two strings",
            },
        ),
    ]
}

/// The methods of `DropdownMenu`: name, argument slots, rule and documentation.
#[verifier::opaque]
pub open spec fn dropdown_menu_methods() -> Seq<MethodRow> {
    seq![
        (
            "item"@,
            seq![("label"@, ArgumentSchema::String), ("callback"@, ArgumentSchema::Callback)],
            MethodRule::Item {
                require_label: true,
                blank: "DropdownMenu.item label must not be empty",
                error: "DropdownMenu.item(label, callback) expects a string and callback",
            },
            "Appends a command item in call order."@,
        ),
    ]
}

/// Whether `d` is the `DropdownMenu` descriptor: its constructors, methods and documentation.
pub open spec fn is_dropdown_menu_descriptor(d: ComponentDescriptor) -> bool {
    &&& d.kind == ComponentKind::DropdownMenu
    &&& d.documentation@ == "A button-triggered native popup menu containing closed command items."@
    &&& constructor_table(d.constructors@) == dropdown_menu_constructors()
    &&& method_table(d.methods@) == dropdown_menu_methods()
}

fn dropdown_menu_descriptor() -> (d: ComponentDescriptor)
    ensures
        is_dropdown_menu_descriptor(d),
{
    let d = ComponentDescriptor::new(ComponentKind::DropdownMenu)
        .with_constructors(
            vec![
                ConstructorDescriptor::new(
                    "DropdownMenu",
                    vec![
                        ArgumentDescriptor::new("id", ArgumentSchema::String),
                        ArgumentDescriptor::new("label", ArgumentSchema::String),
                    ],
                    ConstructorRule::Pair {
                        label_required: true,
                        blank: "DropdownMenu id and label must not be empty",
                        error: "DropdownMenu(id, label) expects two strings",
                    },
                ),
            ],
        )
        .with_methods(
            vec![
                MethodDescriptor::new(
                    "item",
                    vec![
                        ArgumentDescriptor::new("label", ArgumentSchema::String),
                        ArgumentDescriptor::new("callback", ArgumentSchema::Callback),
                    ],
                    MethodRule::Item {
                        require_label: true,
                        blank: "DropdownMenu.item label must not be empty",
                        error: "DropdownMenu.item(label, callback) expects a string and callback",
                    },
                ).with_documentation("Appends a command item in call order."),
            ],
        )
        .with_documentation("A button-triggered native popup menu containing closed command items.");
    proof {
        reveal(dropdown_menu_constructors);
        assert(constructor_table(d.constructors@) =~~= dropdown_menu_constructors());
        reveal(dropdown_menu_methods);
        assert(method_table(d.methods@) =~~= dropdown_menu_methods());
    }
    d
}

/// Registers `DropdownMenu` after the components already registered.
pub fn register(registry: &mut ComponentRegistry)
    requires
        !kinds(old(registry)@).contains(ComponentKind::DropdownMenu),
    ensures
        final(registry)@.len() == old(registry)@.len() + 1,
        final(registry)@.take(old(registry)@.len() as int) == old(registry)@,
        is_dropdown_menu_descriptor(final(registry)@[old(registry)@.len() as int]),
{
    let ghost start = registry@;
    let dropdown_menu = dropdown_menu_descriptor();
    let dropdown_menu_registered = registry.register(dropdown_menu);
    proof {
        assert(dropdown_menu_registered is Ok);
    }
    proof {
        assert(registry@.take(start.len() as int) =~= start);
    }
}

} // verus!
