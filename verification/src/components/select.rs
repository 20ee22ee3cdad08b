//! The `Select` component: its descriptor and its registration.

use vstd::prelude::*;
use crate::registry::{
    constructor_table, kinds, method_table, ArgumentDescriptor, ArgumentSchema, ComponentDescriptor,
    ComponentKind, ComponentRegistry, ConstructorDescriptor, ConstructorRow, MethodDescriptor,
    MethodRow,
};
use crate::rules::{ConstructorRule, MethodRule};

verus! {

/// The constructors of `Select`: export name, argument slots and rule.
#[verifier::opaque]
pub open spec fn select_constructors() -> Seq<ConstructorRow> {
    seq![
        (
            "Select"@,
            seq![
                ("id"@, ArgumentSchema::String),
                ("rows"@, ArgumentSchema::Callback),
                ("on_select"@, ArgumentSchema::Callback),
            ],
            ConstructorRule::Selection {
                error: "Select expects id, rows callback, and selection callback",
                rows: "Select rows token must be a number",
                select: "Select on_select token must be a number",
            },
        ),
    ]
}

/// The methods of `Select`: name, argument slots, rule and documentation.
#[verifier::opaque]
pub open spec fn select_methods() -> Seq<MethodRow> {
    seq![
        (
            "placeholder"@,
            seq![("placeholder"@, ArgumentSchema::String)],
            MethodRule::FirstText { error: "Select.placeholder received an invalid value" },
            "Sets the text shown while nothing is selected."@,
        ),
        (
            "menu_width"@,
            seq![("menu_width"@, ArgumentSchema::Number)],
            MethodRule::FirstPositiveF32 { error: "Select.menu_width received an invalid value" },
            "Sets the popup menu width in pixels."@,
        ),
        (
            "disabled"@,
            seq![("disabled"@, ArgumentSchema::Boolean)],
            MethodRule::FirstFlag { error: "Select.disabled received an invalid value" },
            "Disables the select."@,
        ),
        (
            "render_row"@,
            seq![("callback"@, ArgumentSchema::Callback)],
            MethodRule::Callback { error: "Select.render_row(callback) expects a callback" },
            "Renders each option with managed code, receiving the row's fields."@,
        ),
    ]
}

/// Whether `d` is the `Select` descriptor: its constructors, methods and documentation.
pub open spec fn is_select_descriptor(d: ComponentDescriptor) -> bool {
    &&& d.kind == ComponentKind::Select
    &&& d.documentation@ == "Native retained single-value Select backed by `id\\tlabel[\\tdisabled]` rows."@
    &&& constructor_table(d.constructors@) == select_constructors()
    &&& method_table(d.methods@) == select_methods()
}

fn select_descriptor() -> (d: ComponentDescriptor)
    ensures
        is_select_descriptor(d),
{
    let d = ComponentDescriptor::new(ComponentKind::Select)
        .with_constructors(
            vec![
                ConstructorDescriptor::new(
                    "Select",
                    vec![
                        ArgumentDescriptor::new("id", ArgumentSchema::String),
                        ArgumentDescriptor::new("rows", ArgumentSchema::Callback),
                        ArgumentDescriptor::new("on_select", ArgumentSchema::Callback),
                    ],
                    ConstructorRule::Selection {
                        error: "Select expects id, rows callback, and selection callback",
                        rows: "Select rows token must be a number",
                        select: "Select on_select token must be a number",
                    },
                ),
            ],
        )
        .with_methods(
            vec![
                MethodDescriptor::new(
                    "placeholder",
                    vec![ArgumentDescriptor::new("placeholder", ArgumentSchema::String)],
                    MethodRule::FirstText { error: "Select.placeholder received an invalid value" },
                ).with_documentation("Sets the text shown while nothing is selected."),
                MethodDescriptor::new(
                    "menu_width",
                    vec![ArgumentDescriptor::new("menu_width", ArgumentSchema::Number)],
                    MethodRule::FirstPositiveF32 {
                        error: "Select.menu_width received an invalid value",
                    },
                ).with_documentation("Sets the popup menu width in pixels."),
                MethodDescriptor::new(
                    "disabled",
                    vec![ArgumentDescriptor::new("disabled", ArgumentSchema::Boolean)],
                    MethodRule::FirstFlag { error: "Select.disabled received an invalid value" },
                ).with_documentation("Disables the select."),
                MethodDescriptor::new(
                    "render_row",
                    vec![ArgumentDescriptor::new("callback", ArgumentSchema::Callback)],
                    MethodRule::Callback {
                        error: "Select.render_row(callback) expects a callback",
                    },
                ).with_documentation(
                    "Renders each option with managed code, receiving the row's fields.",
                ),
            ],
        )
        .with_documentation(
            "Native retained single-value Select backed by `id\\tlabel[\\tdisabled]` rows.",
        );
    proof {
        reveal(select_constructors);
        assert(constructor_table(d.constructors@) =~~= select_constructors());
        reveal(select_methods);
        assert(method_table(d.methods@) =~~= select_methods());
    }
    d
}

/// Registers `Select` after the components already registered.
pub fn register(registry: &mut ComponentRegistry)
    requires
        !kinds(old(registry)@).contains(ComponentKind::Select),
    ensures
        final(registry)@.len() == old(registry)@.len() + 1,
        final(registry)@.take(old(registry)@.len() as int) == old(registry)@,
        is_select_descriptor(final(registry)@[old(registry)@.len() as int]),
{
    let ghost start = registry@;
    let select = select_descriptor();
    let select_registered = registry.register(select);
    proof {
        assert(select_registered is Ok);
    }
    proof {
        assert(registry@.take(start.len() as int) =~= start);
    }
}

} // verus!
