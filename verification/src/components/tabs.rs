//! The `Tabs` component: its descriptor and its registration.

use vstd::prelude::*;
use crate::registry::{
    constructor_table, kinds, method_table, ArgumentDescriptor, ArgumentSchema, ComponentDescriptor,
    ComponentKind, ComponentRegistry, ConstructorDescriptor, ConstructorRow, MethodDescriptor,
    MethodRow,
};
use crate::rules::{ConstructorRule, MethodRule};
use crate::components::combobox::token_at;

verus! {

/// The token a click on tab `index` reports: the token at that position, when
/// there is one and it is not zero.
pub fn tab_click_token(tokens: &Vec<u64>, index: usize) -> (token: Option<u64>)
    ensures
        token == (if token_at(tokens@, index as int) != 0 {
            Some(token_at(tokens@, index as int))
        } else {
            None
        }),
{
    let token = if index < tokens.len() {
        tokens[index]
    } else {
        0
    };
    if token != 0 {
        Some(token)
    } else {
        None
    }
}

/// The constructors of `Tabs`: export name, argument slots and rule.
#[verifier::opaque]
pub open spec fn tabs_constructors() -> Seq<ConstructorRow> {
    seq![
        (
            "Tabs"@,
            seq![("id"@, ArgumentSchema::String)],
            ConstructorRule::Text { error: "Tabs(id) expects one string" },
        ),
    ]
}

/// The methods of `Tabs`: name, argument slots, rule and documentation.
#[verifier::opaque]
pub open spec fn tabs_methods() -> Seq<MethodRow> {
    seq![
        (
            "options"@,
            seq![("options"@, ArgumentSchema::String)],
            MethodRule::Split { sep: '\n', error: "Tabs.options expects a string" },
            "Sets the tab labels, newline separated."@,
        ),
        (
            "tokens"@,
            seq![("tokens"@, ArgumentSchema::String)],
            MethodRule::Tokens { error: "Tabs.tokens expects a string" },
            "Sets one callback token per tab, comma separated."@,
        ),
        (
            "selected"@,
            seq![("selected"@, ArgumentSchema::Number)],
            MethodRule::SelectedIndex,
            "Sets the selected tab index."@,
        ),
    ]
}

/// Whether `d` is the `Tabs` descriptor: its constructors, methods and documentation.
pub open spec fn is_tabs_descriptor(d: ComponentDescriptor) -> bool {
    &&& d.kind == ComponentKind::Tabs
    &&& d.documentation@ == "A controlled tab bar."@
    &&& constructor_table(d.constructors@) == tabs_constructors()
    &&& method_table(d.methods@) == tabs_methods()
}

fn tabs_descriptor() -> (d: ComponentDescriptor)
    ensures
        is_tabs_descriptor(d),
{
    let d = ComponentDescriptor::new(ComponentKind::Tabs)
        .with_constructors(
            vec![
                ConstructorDescriptor::new(
                    "Tabs",
                    vec![ArgumentDescriptor::new("id", ArgumentSchema::String)],
                    ConstructorRule::Text { error: "Tabs(id) expects one string" },
                ),
            ],
        )
        .with_methods(
            vec![
                MethodDescriptor::new(
                    "options",
                    vec![ArgumentDescriptor::new("options", ArgumentSchema::String)],
                    MethodRule::Split { sep: '\n', error: "Tabs.options expects a string" },
                ).with_documentation("Sets the tab labels, newline separated."),
                MethodDescriptor::new(
                    "tokens",
                    vec![ArgumentDescriptor::new("tokens", ArgumentSchema::String)],
                    MethodRule::Tokens { error: "Tabs.tokens expects a string" },
                ).with_documentation("Sets one callback token per tab, comma separated."),
                MethodDescriptor::new(
                    "selected",
                    vec![ArgumentDescriptor::new("selected", ArgumentSchema::Number)],
                    MethodRule::SelectedIndex,
                ).with_documentation("Sets the selected tab index."),
            ],
        )
        .with_documentation("A controlled tab bar.");
    proof {
        reveal(tabs_constructors);
        assert(constructor_table(d.constructors@) =~~= tabs_constructors());
        reveal(tabs_methods);
        assert(method_table(d.methods@) =~~= tabs_methods());
    }
    d
}

/// Registers `Tabs` after the components already registered.
pub fn register(registry: &mut ComponentRegistry)
    requires
        !kinds(old(registry)@).contains(ComponentKind::Tabs),
    ensures
        final(registry)@.len() == old(registry)@.len() + 1,
        final(registry)@.take(old(registry)@.len() as int) == old(registry)@,
        is_tabs_descriptor(final(registry)@[old(registry)@.len() as int]),
{
    let ghost start = registry@;
    let tabs = tabs_descriptor();
    let tabs_registered = registry.register(tabs);
    proof {
        assert(tabs_registered is Ok);
    }
    proof {
        assert(registry@.take(start.len() as int) =~= start);
    }
}

} // verus!
