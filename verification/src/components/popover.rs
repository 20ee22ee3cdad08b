//! The `Popover` component: its descriptor and its registration.

use vstd::prelude::*;
use crate::registry::{
    constructor_table, kinds, method_table, ArgumentDescriptor, ArgumentSchema, ComponentDescriptor,
    ComponentKind, ComponentRegistry, ConstructorDescriptor, ConstructorRow, MethodDescriptor,
    MethodRow,
};
use crate::rules::{ChoiceList, ConstructorRule, MethodRule};

verus! {

/// The constructors of `Popover`: export name, argument slots and rule.
#[verifier::opaque]
pub open spec fn popover_constructors() -> Seq<ConstructorRow> {
    seq![
        (
            "Popover"@,
            seq![("id"@, ArgumentSchema::String), ("label"@, ArgumentSchema::String)],
            ConstructorRule::Pair {
                label_required: true,
                blank: "Popover id and label must not be empty",
                error: "Popover(id, label) expects two strings",
            },
        ),
    ]
}

/// The methods of `Popover`: name, argument slots, rule and documentation.
#[verifier::opaque]
pub open spec fn popover_methods() -> Seq<MethodRow> {
    seq![
        (
            "card_anchor"@,
            seq![("anchor"@, ArgumentSchema::Enum(ChoiceList::PopoverAnchor))],
            MethodRule::Choice {
                list: ChoiceList::PopoverAnchor,
                any_text: false,
                unsupported: "unsupported Popover anchor `",
                echo: true,
                error: "Popover.card_anchor(anchor) expects an anchor literal",
                arity: "Popover.card_anchor(anchor) expects an anchor literal",
            },
            "Positions the popover relative to its trigger."@,
        ),
        (
            "default_open"@,
            seq![("value"@, ArgumentSchema::Boolean)],
            MethodRule::Flag {
                error: "Popover.default_open(value) expects a boolean",
                arity: "Popover.default_open(value) expects a boolean",
            },
            "Sets the initial uncontrolled open state."@,
        ),
        (
            "open"@,
            seq![("value"@, ArgumentSchema::Boolean)],
            MethodRule::Flag {
                error: "Popover.open(value) expects a boolean",
                arity: "Popover.open(value) expects a boolean",
            },
            "Controls whether the popover is open."@,
        ),
        (
            "appearance"@,
            seq![("value"@, ArgumentSchema::Boolean)],
            MethodRule::Flag {
                error: "Popover.appearance(value) expects a boolean",
                arity: "Popover.appearance(value) expects a boolean",
            },
            "Controls the native popover surface styling."@,
        ),
        (
            "overlay_closable"@,
            seq![("value"@, ArgumentSchema::Boolean)],
            MethodRule::Flag {
                error: "Popover.overlay_closable(value) expects a boolean",
                arity: "Popover.overlay_closable(value) expects a boolean",
            },
            "Controls whether pressing outside dismisses the popover."@,
        ),
        (
            "on_open_change"@,
            seq![("callback"@, ArgumentSchema::Callback)],
            MethodRule::Callback { error: "Popover.on_open_change(callback) expects a callback" },
            "Runs when pointer interaction changes the open state."@,
        ),
    ]
}

/// Whether `d` is the `Popover` descriptor: its constructors, methods and documentation.
pub open spec fn is_popover_descriptor(d: ComponentDescriptor) -> bool {
    &&& d.kind == ComponentKind::Popover
    &&& d.documentation@ == "A button-triggered popover with content(element)."@
    &&& constructor_table(d.constructors@) == popover_constructors()
    &&& method_table(d.methods@) == popover_methods()
}

fn popover_descriptor() -> (d: ComponentDescriptor)
    ensures
        is_popover_descriptor(d),
{
    let d = ComponentDescriptor::new(ComponentKind::Popover)
        .with_constructors(
            vec![
                ConstructorDescriptor::new(
                    "Popover",
                    vec![
                        ArgumentDescriptor::new("id", ArgumentSchema::String),
                        ArgumentDescriptor::new("label", ArgumentSchema::String),
                    ],
                    ConstructorRule::Pair {
                        label_required: true,
                        blank: "Popover id and label must not be empty",
                        error: "Popover(id, label) expects two strings",
                    },
                ),
            ],
        )
        .with_methods(
            vec![
                MethodDescriptor::new(
                    "card_anchor",
                    vec![
                        ArgumentDescriptor::new(
                            "anchor",
                            ArgumentSchema::Enum(ChoiceList::PopoverAnchor),
                        ),
                    ],
                    MethodRule::Choice {
                        list: ChoiceList::PopoverAnchor,
                        any_text: false,
                        unsupported: "unsupported Popover anchor `",
                        echo: true,
                        error: "Popover.card_anchor(anchor) expects an anchor literal",
                        arity: "Popover.card_anchor(anchor) expects an anchor literal",
                    },
                ).with_documentation("Positions the popover relative to its trigger."),
                MethodDescriptor::new(
                    "default_open",
                    vec![ArgumentDescriptor::new("value", ArgumentSchema::Boolean)],
                    MethodRule::Flag {
                        error: "Popover.default_open(value) expects a boolean",
                        arity: "Popover.default_open(value) expects a boolean",
                    },
                ).with_documentation("Sets the initial uncontrolled open state."),
                MethodDescriptor::new(
                    "open",
                    vec![ArgumentDescriptor::new("value", ArgumentSchema::Boolean)],
                    MethodRule::Flag {
                        error: "Popover.open(value) expects a boolean",
                        arity: "Popover.open(value) expects a boolean",
                    },
                ).with_documentation("Controls whether the popover is open."),
                MethodDescriptor::new(
                    "appearance",
                    vec![ArgumentDescriptor::new("value", ArgumentSchema::Boolean)],
                    MethodRule::Flag {
                        error: "Popover.appearance(value) expects a boolean",
                        arity: "Popover.appearance(value) expects a boolean",
                    },
                ).with_documentation("Controls the native popover surface styling."),
                MethodDescriptor::new(
                    "overlay_closable",
                    vec![ArgumentDescriptor::new("value", ArgumentSchema::Boolean)],
                    MethodRule::Flag {
                        error: "Popover.overlay_closable(value) expects a boolean",
                        arity: "Popover.overlay_closable(value) expects a boolean",
                    },
                ).with_documentation("Controls whether pressing outside dismisses the popover."),
                MethodDescriptor::new(
                    "on_open_change",
                    vec![ArgumentDescriptor::new("callback", ArgumentSchema::Callback)],
                    MethodRule::Callback {
                        error: "Popover.on_open_change(callback) expects a callback",
                    },
                ).with_documentation("Runs when pointer interaction changes the open state."),
            ],
        )
        .with_documentation("A button-triggered popover with content(element).");
    proof {
        reveal(popover_constructors);
        assert(constructor_table(d.constructors@) =~~= popover_constructors());
        reveal(popover_methods);
        assert(method_table(d.methods@) =~~= popover_methods());
    }
    d
}

/// Registers `Popover` after the components already registered.
pub fn register(registry: &mut ComponentRegistry)
    requires
        !kinds(old(registry)@).contains(ComponentKind::Popover),
    ensures
        final(registry)@.len() == old(registry)@.len() + 1,
        final(registry)@.take(old(registry)@.len() as int) == old(registry)@,
        is_popover_descriptor(final(registry)@[old(registry)@.len() as int]),
{
    let ghost start = registry@;
    let popover = popover_descriptor();
    let popover_registered = registry.register(popover);
    proof {
        assert(popover_registered is Ok);
    }
    proof {
        assert(registry@.take(start.len() as int) =~= start);
    }
}

} // verus!
