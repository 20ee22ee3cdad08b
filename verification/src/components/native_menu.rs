//! The `NativeMenuTrigger` and the `NativeMenuItem` and `NativeMenuSeparator` entries of its OS
//! menu.

use vstd::prelude::*;
use crate::registry::{
    constructor_table, kinds, lemma_kinds_push, method_table, ArgumentDescriptor, ArgumentSchema,
    ComponentDescriptor, ComponentKind, ComponentRegistry, ConstructorDescriptor, ConstructorRow,
    MethodDescriptor, MethodRow,
};
use crate::rules::{ConstructorRule, MethodRule};

verus! {

/// The constructors of `NativeMenuItem`: export name, argument slots and rule.
#[verifier::opaque]
pub open spec fn native_menu_item_constructors() -> Seq<ConstructorRow> {
    seq![
        (
            "NativeMenuItem"@,
            seq![("label"@, ArgumentSchema::String)],
            ConstructorRule::NonBlankOnly { error: "NativeMenuItem expects a non-empty label" },
        ),
    ]
}

/// The methods of `NativeMenuItem`: name, argument slots, rule and documentation.
#[verifier::opaque]
pub open spec fn native_menu_item_methods() -> Seq<MethodRow> {
    seq![
        (
            "checked"@,
            seq![("checked"@, ArgumentSchema::Boolean)],
            MethodRule::Flag {
                error: "NativeMenuItem.checked expects a boolean",
                arity: "NativeMenuItem.checked expects a boolean",
            },
            "Sets the native menu item checked state."@,
        ),
        (
            "on_select"@,
            seq![("callback"@, ArgumentSchema::Callback)],
            MethodRule::Callback { error: "NativeMenuItem.on_select expects a callback" },
            "Runs when the native menu item is selected."@,
        ),
    ]
}

/// Whether `d` is the `NativeMenuItem` descriptor: its constructors, methods and documentation.
pub open spec fn is_native_menu_item_descriptor(d: ComponentDescriptor) -> bool {
    &&& d.kind == ComponentKind::NativeMenuItem
    &&& d.documentation@ == "Typed native-menu item data with last-call-wins checked."@
    &&& constructor_table(d.constructors@) == native_menu_item_constructors()
    &&& method_table(d.methods@) == native_menu_item_methods()
}

fn native_menu_item_descriptor() -> (d: ComponentDescriptor)
    ensures
        is_native_menu_item_descriptor(d),
{
    let d = ComponentDescriptor::new(ComponentKind::NativeMenuItem)
        .with_constructors(
            vec![
                ConstructorDescriptor::new(
                    "NativeMenuItem",
                    vec![ArgumentDescriptor::new("label", ArgumentSchema::String)],
                    ConstructorRule::NonBlankOnly {
                        error: "NativeMenuItem expects a non-empty label",
                    },
                ),
            ],
        )
        .with_methods(
            vec![
                MethodDescriptor::new(
                    "checked",
                    vec![ArgumentDescriptor::new("checked", ArgumentSchema::Boolean)],
                    MethodRule::Flag {
                        error: "NativeMenuItem.checked expects a boolean",
                        arity: "NativeMenuItem.checked expects a boolean",
                    },
                ).with_documentation("Sets the native menu item checked state."),
                MethodDescriptor::new(
                    "on_select",
                    vec![ArgumentDescriptor::new("callback", ArgumentSchema::Callback)],
                    MethodRule::Callback { error: "NativeMenuItem.on_select expects a callback" },
                ).with_documentation("Runs when the native menu item is selected."),
            ],
        )
        .with_documentation("Typed native-menu item data with last-call-wins checked.");
    proof {
        reveal(native_menu_item_constructors);
        assert(constructor_table(d.constructors@) =~~= native_menu_item_constructors());
        reveal(native_menu_item_methods);
        assert(method_table(d.methods@) =~~= native_menu_item_methods());
    }
    d
}

/// The constructors of `NativeMenuSeparator`: export name, argument slots and rule.
#[verifier::opaque]
pub open spec fn native_menu_separator_constructors() -> Seq<ConstructorRow> {
    seq![("NativeMenuSeparator"@, seq![], ConstructorRule::Unit)]
}

/// Whether `d` is the `NativeMenuSeparator` descriptor: its constructors, methods and
/// documentation.
pub open spec fn is_native_menu_separator_descriptor(d: ComponentDescriptor) -> bool {
    &&& d.kind == ComponentKind::NativeMenuSeparator
    &&& d.documentation@ == "Typed native-menu separator data."@
    &&& constructor_table(d.constructors@) == native_menu_separator_constructors()
    &&& d.methods@.len() == 0
}

fn native_menu_separator_descriptor() -> (d: ComponentDescriptor)
    ensures
        is_native_menu_separator_descriptor(d),
{
    let d = ComponentDescriptor::new(ComponentKind::NativeMenuSeparator)
        .with_constructors(
            vec![
                ConstructorDescriptor::new(
                    "NativeMenuSeparator",
                    Vec::new(),
                    ConstructorRule::Unit,
                ),
            ],
        )
        .with_documentation("Typed native-menu separator data.");
    proof {
        reveal(native_menu_separator_constructors);
        assert(constructor_table(d.constructors@) =~~= native_menu_separator_constructors());
    }
    d
}

/// The constructors of `NativeMenuTrigger`: export name, argument slots and rule.
#[verifier::opaque]
pub open spec fn native_menu_trigger_constructors() -> Seq<ConstructorRow> {
    seq![
        (
            "NativeMenuTrigger"@,
            seq![("id"@, ArgumentSchema::String), ("label"@, ArgumentSchema::String)],
            ConstructorRule::Pair {
                label_required: true,
                blank: "NativeMenuTrigger expects a non-empty id and label",
                error: "NativeMenuTrigger expects a non-empty id and label",
            },
        ),
    ]
}

/// The methods of `NativeMenuTrigger`: name, argument slots, rule and documentation.
#[verifier::opaque]
pub open spec fn native_menu_trigger_methods() -> Seq<MethodRow> {
    seq![
        (
            "on_effect_error"@,
            seq![("callback"@, ArgumentSchema::Callback)],
            MethodRule::AcceptCallback {
                error: "NativeMenuTrigger.on_effect_error expects a callback",
            },
            "Accepted for parity; native menu display is synchronous."@,
        ),
    ]
}

/// Whether `d` is the `NativeMenuTrigger` descriptor: its constructors, methods and documentation.
pub open spec fn is_native_menu_trigger_descriptor(d: ComponentDescriptor) -> bool {
    &&& d.kind == ComponentKind::NativeMenuTrigger
    &&& d.documentation@ == "A real button that shows an OS native menu. Typed NativeMenuItem children report selection through their managed callbacks."@
    &&& constructor_table(d.constructors@) == native_menu_trigger_constructors()
    &&& method_table(d.methods@) == native_menu_trigger_methods()
}

fn native_menu_trigger_descriptor() -> (d: ComponentDescriptor)
    ensures
        is_native_menu_trigger_descriptor(d),
{
    let d = ComponentDescriptor::new(ComponentKind::NativeMenuTrigger)
        .with_constructors(
            vec![
                ConstructorDescriptor::new(
                    "NativeMenuTrigger",
                    vec![
                        ArgumentDescriptor::new("id", ArgumentSchema::String),
                        ArgumentDescriptor::new("label", ArgumentSchema::String),
                    ],
                    ConstructorRule::Pair {
                        label_required: true,
                        blank: "NativeMenuTrigger expects a non-empty id and label",
                        error: "NativeMenuTrigger expects a non-empty id and label",
                    },
                ),
            ],
        )
        .with_methods(
            vec![
                MethodDescriptor::new(
                    "on_effect_error",
                    vec![ArgumentDescriptor::new("callback", ArgumentSchema::Callback)],
                    MethodRule::AcceptCallback {
                        error: "NativeMenuTrigger.on_effect_error expects a callback",
                    },
                ).with_documentation("Accepted for parity; native menu display is synchronous."),
            ],
        )
        .with_documentation(
            "A real button that shows an OS native menu. Typed NativeMenuItem children report selection through their managed callbacks.",
        );
    proof {
        reveal(native_menu_trigger_constructors);
        assert(constructor_table(d.constructors@) =~~= native_menu_trigger_constructors());
        reveal(native_menu_trigger_methods);
        assert(method_table(d.methods@) =~~= native_menu_trigger_methods());
    }
    d
}

/// Registers `NativeMenuItem`, `NativeMenuSeparator`, `NativeMenuTrigger` after the components
/// already registered, in this order.
pub fn register(registry: &mut ComponentRegistry)
    requires
        !kinds(old(registry)@).contains(ComponentKind::NativeMenuItem),
        !kinds(old(registry)@).contains(ComponentKind::NativeMenuSeparator),
        !kinds(old(registry)@).contains(ComponentKind::NativeMenuTrigger),
    ensures
        final(registry)@.len() == old(registry)@.len() + 3,
        final(registry)@.take(old(registry)@.len() as int) == old(registry)@,
        is_native_menu_item_descriptor(final(registry)@[old(registry)@.len() as int]),
        is_native_menu_separator_descriptor(final(registry)@[old(registry)@.len() as int + 1]),
        is_native_menu_trigger_descriptor(final(registry)@[old(registry)@.len() as int + 2]),
{
    let ghost start = registry@;
    let ghost before_native_menu_item = registry@;
    let native_menu_item = native_menu_item_descriptor();
    let ghost added_native_menu_item = native_menu_item;
    let native_menu_item_registered = registry.register(native_menu_item);
    proof {
        assert(native_menu_item_registered is Ok);
        lemma_kinds_push(before_native_menu_item, added_native_menu_item);
    }
    let ghost before_native_menu_separator = registry@;
    let native_menu_separator = native_menu_separator_descriptor();
    let ghost added_native_menu_separator = native_menu_separator;
    let native_menu_separator_registered = registry.register(native_menu_separator);
    proof {
        assert(native_menu_separator_registered is Ok);
        lemma_kinds_push(before_native_menu_separator, added_native_menu_separator);
    }
    let native_menu_trigger = native_menu_trigger_descriptor();
    let native_menu_trigger_registered = registry.register(native_menu_trigger);
    proof {
        assert(native_menu_trigger_registered is Ok);
    }
    proof {
        assert(registry@.take(start.len() as int) =~= start);
    }
}

} // verus!
