//! The `ContextMenu` and the `ContextMenuItem` and `ContextMenuSeparator` entries it consumes.

use vstd::prelude::*;
use crate::registry::{
    constructor_table, kinds, lemma_kinds_push, method_table, ArgumentDescriptor, ArgumentSchema,
    ComponentDescriptor, ComponentKind, ComponentRegistry, ConstructorDescriptor, ConstructorRow,
    MethodDescriptor, MethodRow,
};
use crate::rules::{ConstructorRule, MethodRule};

verus! {

/// The constructors of `ContextMenuItem`: export name, argument slots and rule.
#[verifier::opaque]
pub open spec fn context_menu_item_constructors() -> Seq<ConstructorRow> {
    seq![
        (
            "ContextMenuItem"@,
            seq![("label"@, ArgumentSchema::String)],
            ConstructorRule::NonBlankOnly { error: "ContextMenuItem expects a non-empty label" },
        ),
    ]
}

/// The methods of `ContextMenuItem`: name, argument slots, rule and documentation.
#[verifier::opaque]
pub open spec fn context_menu_item_methods() -> Seq<MethodRow> {
    seq![
        (
            "checked"@,
            seq![("checked"@, ArgumentSchema::Boolean)],
            MethodRule::Flag {
                error: "ContextMenuItem.checked expects a boolean",
                arity: "ContextMenuItem.checked expects a boolean",
            },
            "Sets the menu item checked state."@,
        ),
        (
            "on_select"@,
            seq![("callback"@, ArgumentSchema::Callback)],
            MethodRule::Callback { error: "ContextMenuItem.on_select expects a callback" },
            "Runs when the context-menu item is selected."@,
        ),
    ]
}

/// Whether `d` is the `ContextMenuItem` descriptor: its constructors, methods and documentation.
pub open spec fn is_context_menu_item_descriptor(d: ComponentDescriptor) -> bool {
    &&& d.kind == ComponentKind::ContextMenuItem
    &&& d.documentation@ == "Typed context-menu item consumed by a ContextMenu."@
    &&& constructor_table(d.constructors@) == context_menu_item_constructors()
    &&& method_table(d.methods@) == context_menu_item_methods()
}

fn context_menu_item_descriptor() -> (d: ComponentDescriptor)
    ensures
        is_context_menu_item_descriptor(d),
{
    let d = ComponentDescriptor::new(ComponentKind::ContextMenuItem)
        .with_constructors(
            vec![
                ConstructorDescriptor::new(
                    "ContextMenuItem",
                    vec![ArgumentDescriptor::new("label", ArgumentSchema::String)],
                    ConstructorRule::NonBlankOnly {
                        error: "ContextMenuItem expects a non-empty label",
                    },
                ),
            ],
        )
        .with_methods(
            vec![
                MethodDescriptor::new(
                    "checked",
                    vec![ArgumentDescriptor::new("checked", ArgumentSchema::Boolean)],
                    MethodRule::Flag {
                        error: "ContextMenuItem.checked expects a boolean",
                        arity: "ContextMenuItem.checked expects a boolean",
                    },
                ).with_documentation("Sets the menu item checked state."),
                MethodDescriptor::new(
                    "on_select",
                    vec![ArgumentDescriptor::new("callback", ArgumentSchema::Callback)],
                    MethodRule::Callback { error: "ContextMenuItem.on_select expects a callback" },
                ).with_documentation("Runs when the context-menu item is selected."),
            ],
        )
        .with_documentation("Typed context-menu item consumed by a ContextMenu.");
    proof {
        reveal(context_menu_item_constructors);
        assert(constructor_table(d.constructors@) =~~= context_menu_item_constructors());
        reveal(context_menu_item_methods);
        assert(method_table(d.methods@) =~~= context_menu_item_methods());
    }
    d
}

/// The constructors of `ContextMenuSeparator`: export name, argument slots and rule.
#[verifier::opaque]
pub open spec fn context_menu_separator_constructors() -> Seq<ConstructorRow> {
    seq![("ContextMenuSeparator"@, seq![], ConstructorRule::Unit)]
}

/// Whether `d` is the `ContextMenuSeparator` descriptor: its constructors, methods and
/// documentation.
pub open spec fn is_context_menu_separator_descriptor(d: ComponentDescriptor) -> bool {
    &&& d.kind == ComponentKind::ContextMenuSeparator
    &&& d.documentation@ == "Typed context-menu separator."@
    &&& constructor_table(d.constructors@) == context_menu_separator_constructors()
    &&& d.methods@.len() == 0
}

fn context_menu_separator_descriptor() -> (d: ComponentDescriptor)
    ensures
        is_context_menu_separator_descriptor(d),
{
    let d = ComponentDescriptor::new(ComponentKind::ContextMenuSeparator)
        .with_constructors(
            vec![
                ConstructorDescriptor::new(
                    "ContextMenuSeparator",
                    Vec::new(),
                    ConstructorRule::Unit,
                ),
            ],
        )
        .with_documentation("Typed context-menu separator.");
    proof {
        reveal(context_menu_separator_constructors);
        assert(constructor_table(d.constructors@) =~~= context_menu_separator_constructors());
    }
    d
}

/// The constructors of `ContextMenu`: export name, argument slots and rule.
#[verifier::opaque]
pub open spec fn context_menu_constructors() -> Seq<ConstructorRow> {
    seq![
        (
            "ContextMenu"@,
            seq![("id"@, ArgumentSchema::String)],
            ConstructorRule::NonBlank {
                component: "ContextMenu",
                error: "ContextMenu(id) expects a non-empty string id",
            },
        ),
    ]
}

/// Whether `d` is the `ContextMenu` descriptor: its constructors, methods and documentation.
pub open spec fn is_context_menu_descriptor(d: ComponentDescriptor) -> bool {
    &&& d.kind == ComponentKind::ContextMenu
    &&& d.documentation@ == "Attaches a right-click menu to its ordinary children, consuming ContextMenuItem and ContextMenuSeparator entries."@
    &&& constructor_table(d.constructors@) == context_menu_constructors()
    &&& d.methods@.len() == 0
}

fn context_menu_descriptor() -> (d: ComponentDescriptor)
    ensures
        is_context_menu_descriptor(d),
{
    let d = ComponentDescriptor::new(ComponentKind::ContextMenu)
        .with_constructors(
            vec![
                ConstructorDescriptor::new(
                    "ContextMenu",
                    vec![ArgumentDescriptor::new("id", ArgumentSchema::String)],
                    ConstructorRule::NonBlank {
                        component: "ContextMenu",
                        error: "ContextMenu(id) expects a non-empty string id",
                    },
                ),
            ],
        )
        .with_documentation(
            "Attaches a right-click menu to its ordinary children, consuming ContextMenuItem and ContextMenuSeparator entries.",
        );
    proof {
        reveal(context_menu_constructors);
        assert(constructor_table(d.constructors@) =~~= context_menu_constructors());
    }
    d
}

/// Registers `ContextMenuItem`, `ContextMenuSeparator`, `ContextMenu` after the components already
/// registered, in this order.
pub fn register(registry: &mut ComponentRegistry)
    requires
        !kinds(old(registry)@).contains(ComponentKind::ContextMenuItem),
        !kinds(old(registry)@).contains(ComponentKind::ContextMenuSeparator),
        !kinds(old(registry)@).contains(ComponentKind::ContextMenu),
    ensures
        final(registry)@.len() == old(registry)@.len() + 3,
        final(registry)@.take(old(registry)@.len() as int) == old(registry)@,
        is_context_menu_item_descriptor(final(registry)@[old(registry)@.len() as int]),
        is_context_menu_separator_descriptor(final(registry)@[old(registry)@.len() as int + 1]),
        is_context_menu_descriptor(final(registry)@[old(registry)@.len() as int + 2]),
{
    let ghost start = registry@;
    let ghost before_context_menu_item = registry@;
    let context_menu_item = context_menu_item_descriptor();
    let ghost added_context_menu_item = context_menu_item;
    let context_menu_item_registered = registry.register(context_menu_item);
    proof {
        assert(context_menu_item_registered is Ok);
        lemma_kinds_push(before_context_menu_item, added_context_menu_item);
    }
    let ghost before_context_menu_separator = registry@;
    let context_menu_separator = context_menu_separator_descriptor();
    let ghost added_context_menu_separator = context_menu_separator;
    let context_menu_separator_registered = registry.register(context_menu_separator);
    proof {
        assert(context_menu_separator_registered is Ok);
        lemma_kinds_push(before_context_menu_separator, added_context_menu_separator);
    }
    let context_menu = context_menu_descriptor();
    let context_menu_registered = registry.register(context_menu);
    proof {
        assert(context_menu_registered is Ok);
    }
    proof {
        assert(registry@.take(start.len() as int) =~= start);
    }
}

} // verus!
