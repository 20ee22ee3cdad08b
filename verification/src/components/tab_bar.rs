//! The `TabBar` and the `Tab` children it accepts.

use vstd::prelude::*;
use crate::registry::{
    constructor_table, kinds, lemma_kinds_push, method_table, ArgumentDescriptor, ArgumentSchema,
    ComponentDescriptor, ComponentKind, ComponentRegistry, ConstructorDescriptor, ConstructorRow,
    MethodDescriptor, MethodRow,
};
use crate::rules::{ChoiceList, ConstructorRule, MethodRule};

verus! {

/// The constructors of `Tab`: export name, argument slots and rule.
#[verifier::opaque]
pub open spec fn tab_constructors() -> Seq<ConstructorRow> {
    seq![("Tab"@, seq![], ConstructorRule::Unit)]
}

/// The methods of `Tab`: name, argument slots, rule and documentation.
#[verifier::opaque]
pub open spec fn tab_methods() -> Seq<MethodRow> {
    seq![
        (
            "label"@,
            seq![("label"@, ArgumentSchema::String)],
            MethodRule::Text {
                error: "Tab.label(label) expects a string",
                arity: "Tab.label(label) expects a string",
            },
            "Sets the visible tab label."@,
        ),
        (
            "aria_label"@,
            seq![("label"@, ArgumentSchema::String)],
            MethodRule::Text {
                error: "Tab.aria_label(label) expects a string",
                arity: "Tab.aria_label(label) expects a string",
            },
            "Sets the accessible tab label."@,
        ),
        (
            "disabled"@,
            seq![("disabled"@, ArgumentSchema::Boolean)],
            MethodRule::Flag {
                error: "Tab.disabled(disabled) expects a boolean",
                arity: "Tab.disabled(disabled) expects a boolean",
            },
            "Disables the tab."@,
        ),
        (
            "selected"@,
            seq![("selected"@, ArgumentSchema::Boolean)],
            MethodRule::Flag {
                error: "Tab.selected(selected) expects a boolean",
                arity: "Tab.selected(selected) expects a boolean",
            },
            "Controls selected state."@,
        ),
    ]
}

/// Whether `d` is the `Tab` descriptor: its constructors, methods and documentation.
pub open spec fn is_tab_descriptor(d: ComponentDescriptor) -> bool {
    &&& d.kind == ComponentKind::Tab
    &&& d.documentation@ == "A tab accepted only as a direct TabBar child."@
    &&& constructor_table(d.constructors@) == tab_constructors()
    &&& method_table(d.methods@) == tab_methods()
}

fn tab_descriptor() -> (d: ComponentDescriptor)
    ensures
        is_tab_descriptor(d),
{
    let d = ComponentDescriptor::new(ComponentKind::Tab)
        .with_constructors(
            vec![ConstructorDescriptor::new("Tab", Vec::new(), ConstructorRule::Unit)],
        )
        .with_methods(
            vec![
                MethodDescriptor::new(
                    "label",
                    vec![ArgumentDescriptor::new("label", ArgumentSchema::String)],
                    MethodRule::Text {
                        error: "Tab.label(label) expects a string",
                        arity: "Tab.label(label) expects a string",
                    },
                ).with_documentation("Sets the visible tab label."),
                MethodDescriptor::new(
                    "aria_label",
                    vec![ArgumentDescriptor::new("label", ArgumentSchema::String)],
                    MethodRule::Text {
                        error: "Tab.aria_label(label) expects a string",
                        arity: "Tab.aria_label(label) expects a string",
                    },
                ).with_documentation("Sets the accessible tab label."),
                MethodDescriptor::new(
                    "disabled",
                    vec![ArgumentDescriptor::new("disabled", ArgumentSchema::Boolean)],
                    MethodRule::Flag {
                        error: "Tab.disabled(disabled) expects a boolean",
                        arity: "Tab.disabled(disabled) expects a boolean",
                    },
                ).with_documentation("Disables the tab."),
                MethodDescriptor::new(
                    "selected",
                    vec![ArgumentDescriptor::new("selected", ArgumentSchema::Boolean)],
                    MethodRule::Flag {
                        error: "Tab.selected(selected) expects a boolean",
                        arity: "Tab.selected(selected) expects a boolean",
                    },
                ).with_documentation("Controls selected state."),
            ],
        )
        .with_documentation("A tab accepted only as a direct TabBar child.");
    proof {
        reveal(tab_constructors);
        assert(constructor_table(d.constructors@) =~~= tab_constructors());
        reveal(tab_methods);
        assert(method_table(d.methods@) =~~= tab_methods());
    }
    d
}

/// The constructors of `TabBar`: export name, argument slots and rule.
#[verifier::opaque]
pub open spec fn tab_bar_constructors() -> Seq<ConstructorRow> {
    seq![
        (
            "TabBar"@,
            seq![("id"@, ArgumentSchema::String)],
            ConstructorRule::NonBlankOnly { error: "TabBar(id) expects a nonempty string id" },
        ),
    ]
}

/// The methods of `TabBar`: name, argument slots, rule and documentation.
#[verifier::opaque]
pub open spec fn tab_bar_methods() -> Seq<MethodRow> {
    seq![
        (
            "selected_index"@,
            seq![("index"@, ArgumentSchema::Number)],
            MethodRule::Index {
                error: "TabBar.selected_index(index) expects a nonnegative integer",
            },
            "Controls the selected zero-based tab index."@,
        ),
        (
            "variant"@,
            seq![("variant"@, ArgumentSchema::Enum(ChoiceList::TabVariant))],
            MethodRule::Choice {
                list: ChoiceList::TabVariant,
                any_text: false,
                unsupported: "unsupported TabBar variant `",
                echo: true,
                error: "TabBar.variant(variant) expects a variant literal",
                arity: "TabBar.variant(variant) expects a variant literal",
            },
            "Sets one of the component's five tab variants."@,
        ),
        (
            "menu"@,
            seq![("menu"@, ArgumentSchema::Boolean)],
            MethodRule::Flag {
                error: "TabBar.menu(menu) expects a boolean",
                arity: "TabBar.menu(menu) expects a boolean",
            },
            "Enables the overflow menu."@,
        ),
        (
            "size"@,
            seq![("size"@, ArgumentSchema::Enum(ChoiceList::Size))],
            MethodRule::Choice {
                list: ChoiceList::Size,
                any_text: false,
                unsupported: "unsupported TabBar size `",
                echo: true,
                error: "TabBar.size(size) expects a semantic size",
                arity: "TabBar.size(size) expects a semantic size",
            },
            "Sets the semantic component size."@,
        ),
        (
            "on_change"@,
            seq![("callback"@, ArgumentSchema::Callback)],
            MethodRule::Callback { error: "TabBar.on_change(callback) expects a callback" },
            "Reports the selected zero-based tab index."@,
        ),
    ]
}

/// Whether `d` is the `TabBar` descriptor: its constructors, methods and documentation.
pub open spec fn is_tab_bar_descriptor(d: ComponentDescriptor) -> bool {
    &&& d.kind == ComponentKind::TabBar
    &&& d.documentation@ == "A typed tab list accepting only Tab children."@
    &&& constructor_table(d.constructors@) == tab_bar_constructors()
    &&& method_table(d.methods@) == tab_bar_methods()
}

fn tab_bar_descriptor() -> (d: ComponentDescriptor)
    ensures
        is_tab_bar_descriptor(d),
{
    let d = ComponentDescriptor::new(ComponentKind::TabBar)
        .with_constructors(
            vec![
                ConstructorDescriptor::new(
                    "TabBar",
                    vec![ArgumentDescriptor::new("id", ArgumentSchema::String)],
                    ConstructorRule::NonBlankOnly {
                        error: "TabBar(id) expects a nonempty string id",
                    },
                ),
            ],
        )
        .with_methods(
            vec![
                MethodDescriptor::new(
                    "selected_index",
                    vec![ArgumentDescriptor::new("index", ArgumentSchema::Number)],
                    MethodRule::Index {
                        error: "TabBar.selected_index(index) expects a nonnegative integer",
                    },
                ).with_documentation("Controls the selected zero-based tab index."),
                MethodDescriptor::new(
                    "variant",
                    vec![
                        ArgumentDescriptor::new(
                            "variant",
                            ArgumentSchema::Enum(ChoiceList::TabVariant),
                        ),
                    ],
                    MethodRule::Choice {
                        list: ChoiceList::TabVariant,
                        any_text: false,
                        unsupported: "unsupported TabBar variant `",
                        echo: true,
                        error: "TabBar.variant(variant) expects a variant literal",
                        arity: "TabBar.variant(variant) expects a variant literal",
                    },
                ).with_documentation("Sets one of the component's five tab variants."),
                MethodDescriptor::new(
                    "menu",
                    vec![ArgumentDescriptor::new("menu", ArgumentSchema::Boolean)],
                    MethodRule::Flag {
                        error: "TabBar.menu(menu) expects a boolean",
                        arity: "TabBar.menu(menu) expects a boolean",
                    },
                ).with_documentation("Enables the overflow menu."),
                MethodDescriptor::new(
                    "size",
                    vec![ArgumentDescriptor::new("size", ArgumentSchema::Enum(ChoiceList::Size))],
                    MethodRule::Choice {
                        list: ChoiceList::Size,
                        any_text: false,
                        unsupported: "unsupported TabBar size `",
                        echo: true,
                        error: "TabBar.size(size) expects a semantic size",
                        arity: "TabBar.size(size) expects a semantic size",
                    },
                ).with_documentation("Sets the semantic component size."),
                MethodDescriptor::new(
                    "on_change",
                    vec![ArgumentDescriptor::new("callback", ArgumentSchema::Callback)],
                    MethodRule::Callback { error: "TabBar.on_change(callback) expects a callback" },
                ).with_documentation("Reports the selected zero-based tab index."),
            ],
        )
        .with_documentation("A typed tab list accepting only Tab children.");
    proof {
        reveal(tab_bar_constructors);
        assert(constructor_table(d.constructors@) =~~= tab_bar_constructors());
        reveal(tab_bar_methods);
        assert(method_table(d.methods@) =~~= tab_bar_methods());
    }
    d
}

/// Registers `Tab`, `TabBar` after the components already registered, in this order.
pub fn register(registry: &mut ComponentRegistry)
    requires
        !kinds(old(registry)@).contains(ComponentKind::Tab),
        !kinds(old(registry)@).contains(ComponentKind::TabBar),
    ensures
        final(registry)@.len() == old(registry)@.len() + 2,
        final(registry)@.take(old(registry)@.len() as int) == old(registry)@,
        is_tab_descriptor(final(registry)@[old(registry)@.len() as int]),
        is_tab_bar_descriptor(final(registry)@[old(registry)@.len() as int + 1]),
{
    let ghost start = registry@;
    let ghost before_tab = registry@;
    let tab = tab_descriptor();
    let ghost added_tab = tab;
    let tab_registered = registry.register(tab);
    proof {
        assert(tab_registered is Ok);
        lemma_kinds_push(before_tab, added_tab);
    }
    let tab_bar = tab_bar_descriptor();
    let tab_bar_registered = registry.register(tab_bar);
    proof {
        assert(tab_bar_registered is Ok);
    }
    proof {
        assert(registry@.take(start.len() as int) =~= start);
    }
}

} // verus!
