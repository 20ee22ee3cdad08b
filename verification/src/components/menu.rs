//! The `MenuBar`, its `Menu` dropdowns, and their `MenuItem` and `MenuSeparator` entries.

use vstd::prelude::*;
use crate::registry::{
    constructor_table, kinds, lemma_kinds_push, method_table, ArgumentDescriptor, ArgumentSchema,
    ComponentDescriptor, ComponentKind, ComponentRegistry, ConstructorDescriptor, ConstructorRow,
    MethodDescriptor, MethodRow,
};
use crate::rules::{ConstructorRule, MethodRule};

verus! {

/// The constructors of `MenuItem`: export name, argument slots and rule.
#[verifier::opaque]
pub open spec fn menu_item_constructors() -> Seq<ConstructorRow> {
    seq![
        (
            "MenuItem"@,
            seq![("label"@, ArgumentSchema::String)],
            ConstructorRule::NonBlankOnly { error: "MenuItem expects a non-empty label" },
        ),
    ]
}

/// The methods of `MenuItem`: name, argument slots, rule and documentation.
#[verifier::opaque]
pub open spec fn menu_item_methods() -> Seq<MethodRow> {
    seq![
        (
            "disabled"@,
            seq![("disabled"@, ArgumentSchema::Boolean)],
            MethodRule::Flag {
                error: "MenuItem.disabled expects a boolean",
                arity: "MenuItem.disabled expects a boolean",
            },
            "Disables the item."@,
        ),
        (
            "checked"@,
            seq![("checked"@, ArgumentSchema::Boolean)],
            MethodRule::Flag {
                error: "MenuItem.checked expects a boolean",
                arity: "MenuItem.checked expects a boolean",
            },
            "Shows a check mark."@,
        ),
        (
            "on_select"@,
            seq![("callback"@, ArgumentSchema::Callback)],
            MethodRule::Callback { error: "MenuItem.on_select(callback) expects a callback" },
            "Runs when the item is chosen."@,
        ),
    ]
}

/// Whether `d` is the `MenuItem` descriptor: its constructors, methods and documentation.
pub open spec fn is_menu_item_descriptor(d: ComponentDescriptor) -> bool {
    &&& d.kind == ComponentKind::MenuItem
    &&& d.documentation@ == "A typed menu item accepted only by a Menu."@
    &&& constructor_table(d.constructors@) == menu_item_constructors()
    &&& method_table(d.methods@) == menu_item_methods()
}

fn menu_item_descriptor() -> (d: ComponentDescriptor)
    ensures
        is_menu_item_descriptor(d),
{
    let d = ComponentDescriptor::new(ComponentKind::MenuItem)
        .with_constructors(
            vec![
                ConstructorDescriptor::new(
                    "MenuItem",
                    vec![ArgumentDescriptor::new("label", ArgumentSchema::String)],
                    ConstructorRule::NonBlankOnly { error: "MenuItem expects a non-empty label" },
                ),
            ],
        )
        .with_methods(
            vec![
                MethodDescriptor::new(
                    "disabled",
                    vec![ArgumentDescriptor::new("disabled", ArgumentSchema::Boolean)],
                    MethodRule::Flag {
                        error: "MenuItem.disabled expects a boolean",
                        arity: "MenuItem.disabled expects a boolean",
                    },
                ).with_documentation("Disables the item."),
                MethodDescriptor::new(
                    "checked",
                    vec![ArgumentDescriptor::new("checked", ArgumentSchema::Boolean)],
                    MethodRule::Flag {
                        error: "MenuItem.checked expects a boolean",
                        arity: "MenuItem.checked expects a boolean",
                    },
                ).with_documentation("Shows a check mark."),
                MethodDescriptor::new(
                    "on_select",
                    vec![ArgumentDescriptor::new("callback", ArgumentSchema::Callback)],
                    MethodRule::Callback {
                        error: "MenuItem.on_select(callback) expects a callback",
                    },
                ).with_documentation("Runs when the item is chosen."),
            ],
        )
        .with_documentation("A typed menu item accepted only by a Menu.");
    proof {
        reveal(menu_item_constructors);
        assert(constructor_table(d.constructors@) =~~= menu_item_constructors());
        reveal(menu_item_methods);
        assert(method_table(d.methods@) =~~= menu_item_methods());
    }
    d
}

/// The constructors of `MenuSeparator`: export name, argument slots and rule.
#[verifier::opaque]
pub open spec fn menu_separator_constructors() -> Seq<ConstructorRow> {
    seq![("MenuSeparator"@, seq![], ConstructorRule::Unit)]
}

/// Whether `d` is the `MenuSeparator` descriptor: its constructors, methods and documentation.
pub open spec fn is_menu_separator_descriptor(d: ComponentDescriptor) -> bool {
    &&& d.kind == ComponentKind::MenuSeparator
    &&& d.documentation@ == "A typed separator accepted only by a Menu."@
    &&& constructor_table(d.constructors@) == menu_separator_constructors()
    &&& d.methods@.len() == 0
}

fn menu_separator_descriptor() -> (d: ComponentDescriptor)
    ensures
        is_menu_separator_descriptor(d),
{
    let d = ComponentDescriptor::new(ComponentKind::MenuSeparator)
        .with_constructors(
            vec![ConstructorDescriptor::new("MenuSeparator", Vec::new(), ConstructorRule::Unit)],
        )
        .with_documentation("A typed separator accepted only by a Menu.");
    proof {
        reveal(menu_separator_constructors);
        assert(constructor_table(d.constructors@) =~~= menu_separator_constructors());
    }
    d
}

/// The constructors of `Menu`: export name, argument slots and rule.
#[verifier::opaque]
pub open spec fn menu_constructors() -> Seq<ConstructorRow> {
    seq![
        (
            "Menu"@,
            seq![("label"@, ArgumentSchema::String)],
            ConstructorRule::NonBlankOnly { error: "Menu expects a non-empty label" },
        ),
    ]
}

/// The methods of `Menu`: name, argument slots, rule and documentation.
#[verifier::opaque]
pub open spec fn menu_methods() -> Seq<MethodRow> {
    seq![
        (
            "disabled"@,
            seq![("disabled"@, ArgumentSchema::Boolean)],
            MethodRule::Flag {
                error: "Menu.disabled expects a boolean",
                arity: "Menu.disabled expects a boolean",
            },
            "Disables the whole menu."@,
        ),
    ]
}

/// Whether `d` is the `Menu` descriptor: its constructors, methods and documentation.
pub open spec fn is_menu_descriptor(d: ComponentDescriptor) -> bool {
    &&& d.kind == ComponentKind::Menu
    &&& d.documentation@ == "A typed top-level menu accepted only by a MenuBar."@
    &&& constructor_table(d.constructors@) == menu_constructors()
    &&& method_table(d.methods@) == menu_methods()
}

fn menu_descriptor() -> (d: ComponentDescriptor)
    ensures
        is_menu_descriptor(d),
{
    let d = ComponentDescriptor::new(ComponentKind::Menu)
        .with_constructors(
            vec![
                ConstructorDescriptor::new(
                    "Menu",
                    vec![ArgumentDescriptor::new("label", ArgumentSchema::String)],
                    ConstructorRule::NonBlankOnly { error: "Menu expects a non-empty label" },
                ),
            ],
        )
        .with_methods(
            vec![
                MethodDescriptor::new(
                    "disabled",
                    vec![ArgumentDescriptor::new("disabled", ArgumentSchema::Boolean)],
                    MethodRule::Flag {
                        error: "Menu.disabled expects a boolean",
                        arity: "Menu.disabled expects a boolean",
                    },
                ).with_documentation("Disables the whole menu."),
            ],
        )
        .with_documentation("A typed top-level menu accepted only by a MenuBar.");
    proof {
        reveal(menu_constructors);
        assert(constructor_table(d.constructors@) =~~= menu_constructors());
        reveal(menu_methods);
        assert(method_table(d.methods@) =~~= menu_methods());
    }
    d
}

/// The constructors of `MenuBar`: export name, argument slots and rule.
#[verifier::opaque]
pub open spec fn menu_bar_constructors() -> Seq<ConstructorRow> {
    seq![
        (
            "MenuBar"@,
            seq![("label"@, ArgumentSchema::String)],
            ConstructorRule::NonBlankOnly { error: "MenuBar expects a non-empty label" },
        ),
    ]
}

/// Whether `d` is the `MenuBar` descriptor: its constructors, methods and documentation.
pub open spec fn is_menu_bar_descriptor(d: ComponentDescriptor) -> bool {
    &&& d.kind == ComponentKind::MenuBar
    &&& d.documentation@ == "A row of Menu dropdowns built from typed children."@
    &&& constructor_table(d.constructors@) == menu_bar_constructors()
    &&& d.methods@.len() == 0
}

fn menu_bar_descriptor() -> (d: ComponentDescriptor)
    ensures
        is_menu_bar_descriptor(d),
{
    let d = ComponentDescriptor::new(ComponentKind::MenuBar)
        .with_constructors(
            vec![
                ConstructorDescriptor::new(
                    "MenuBar",
                    vec![ArgumentDescriptor::new("label", ArgumentSchema::String)],
                    ConstructorRule::NonBlankOnly { error: "MenuBar expects a non-empty label" },
                ),
            ],
        )
        .with_documentation("A row of Menu dropdowns built from typed children.");
    proof {
        reveal(menu_bar_constructors);
        assert(constructor_table(d.constructors@) =~~= menu_bar_constructors());
    }
    d
}

/// Registers `MenuItem`, `MenuSeparator`, `Menu`, `MenuBar` after the components already
/// registered, in this order.
pub fn register(registry: &mut ComponentRegistry)
    requires
        !kinds(old(registry)@).contains(ComponentKind::MenuItem),
        !kinds(old(registry)@).contains(ComponentKind::MenuSeparator),
        !kinds(old(registry)@).contains(ComponentKind::Menu),
        !kinds(old(registry)@).contains(ComponentKind::MenuBar),
    ensures
        final(registry)@.len() == old(registry)@.len() + 4,
        final(registry)@.take(old(registry)@.len() as int) == old(registry)@,
        is_menu_item_descriptor(final(registry)@[old(registry)@.len() as int]),
        is_menu_separator_descriptor(final(registry)@[old(registry)@.len() as int + 1]),
        is_menu_descriptor(final(registry)@[old(registry)@.len() as int + 2]),
        is_menu_bar_descriptor(final(registry)@[old(registry)@.len() as int + 3]),
{
    let ghost start = registry@;
    let ghost before_menu_item = registry@;
    let menu_item = menu_item_descriptor();
    let ghost added_menu_item = menu_item;
    let menu_item_registered = registry.register(menu_item);
    proof {
        assert(menu_item_registered is Ok);
        lemma_kinds_push(before_menu_item, added_menu_item);
    }
    let ghost before_menu_separator = registry@;
    let menu_separator = menu_separator_descriptor();
    let ghost added_menu_separator = menu_separator;
    let menu_separator_registered = registry.register(menu_separator);
    proof {
        assert(menu_separator_registered is Ok);
        lemma_kinds_push(before_menu_separator, added_menu_separator);
    }
    let ghost before_menu = registry@;
    let menu = menu_descriptor();
    let ghost added_menu = menu;
    let menu_registered = registry.register(menu);
    proof {
        assert(menu_registered is Ok);
        lemma_kinds_push(before_menu, added_menu);
    }
    let menu_bar = menu_bar_descriptor();
    let menu_bar_registered = registry.register(menu_bar);
    proof {
        assert(menu_bar_registered is Ok);
    }
    proof {
        assert(registry@.take(start.len() as int) =~= start);
    }
}

} // verus!
