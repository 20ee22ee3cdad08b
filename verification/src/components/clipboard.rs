//! The `Clipboard` component: its descriptor and its registration.

use vstd::prelude::*;
use crate::registry::{
    constructor_table, kinds, method_table, ArgumentDescriptor, ArgumentSchema, ComponentDescriptor,
    ComponentKind, ComponentRegistry, ConstructorDescriptor, ConstructorRow, MethodDescriptor,
    MethodRow,
};
use crate::rules::{ConstructorRule, MethodRule};

verus! {

/// The constructors of `Clipboard`: export name, argument slots and rule.
#[verifier::opaque]
pub open spec fn clipboard_constructors() -> Seq<ConstructorRow> {
    seq![
        (
            "Clipboard"@,
            seq![("id"@, ArgumentSchema::String)],
            ConstructorRule::NonBlank {
                component: "Clipboard",
                error: "Clipboard(id) expects a string",
            },
        ),
    ]
}

/// The methods of `Clipboard`: name, argument slots, rule and documentation.
#[verifier::opaque]
pub open spec fn clipboard_methods() -> Seq<MethodRow> {
    seq![
        (
            "value"@,
            seq![("value"@, ArgumentSchema::String)],
            MethodRule::Text {
                error: "Clipboard.value(value) expects a string",
                arity: "Clipboard.value(value) expects a string",
            },
            "Sets the text copied when the button is pressed."@,
        ),
        (
            "tooltip"@,
            seq![("tooltip"@, ArgumentSchema::String)],
            MethodRule::Text {
                error: "Clipboard.tooltip(tooltip) expects a string",
                arity: "Clipboard.tooltip(tooltip) expects a string",
            },
            "Sets the copy button tooltip."@,
        ),
    ]
}

/// Whether `d` is the `Clipboard` descriptor: its constructors, methods and documentation.
pub open spec fn is_clipboard_descriptor(d: ComponentDescriptor) -> bool {
    &&& d.kind == ComponentKind::Clipboard
    &&& d.documentation@ == "A button that copies a configured string to the system clipboard."@
    &&& constructor_table(d.constructors@) == clipboard_constructors()
    &&& method_table(d.methods@) == clipboard_methods()
}

fn clipboard_descriptor() -> (d: ComponentDescriptor)
    ensures
        is_clipboard_descriptor(d),
{
    let d = ComponentDescriptor::new(ComponentKind::Clipboard)
        .with_constructors(
            vec![
                ConstructorDescriptor::new(
                    "Clipboard",
                    vec![ArgumentDescriptor::new("id", ArgumentSchema::String)],
                    ConstructorRule::NonBlank {
                        component: "Clipboard",
                        error: "Clipboard(id) expects a string",
                    },
                ),
            ],
        )
        .with_methods(
            vec![
                MethodDescriptor::new(
                    "value",
                    vec![ArgumentDescriptor::new("value", ArgumentSchema::String)],
                    MethodRule::Text {
                        error: "Clipboard.value(value) expects a string",
                        arity: "Clipboard.value(value) expects a string",
                    },
                ).with_documentation("Sets the text copied when the button is pressed."),
                MethodDescriptor::new(
                    "tooltip",
                    vec![ArgumentDescriptor::new("tooltip", ArgumentSchema::String)],
                    MethodRule::Text {
                        error: "Clipboard.tooltip(tooltip) expects a string",
                        arity: "Clipboard.tooltip(tooltip) expects a string",
                    },
                ).with_documentation("Sets the copy button tooltip."),
            ],
        )
        .with_documentation("A button that copies a configured string to the system clipboard.");
    proof {
        reveal(clipboard_constructors);
        assert(constructor_table(d.constructors@) =~~= clipboard_constructors());
        reveal(clipboard_methods);
        assert(method_table(d.methods@) =~~= clipboard_methods());
    }
    d
}

/// Registers `Clipboard` after the components already registered.
pub fn register(registry: &mut ComponentRegistry)
    requires
        !kinds(old(registry)@).contains(ComponentKind::Clipboard),
    ensures
        final(registry)@.len() == old(registry)@.len() + 1,
        final(registry)@.take(old(registry)@.len() as int) == old(registry)@,
        is_clipboard_descriptor(final(registry)@[old(registry)@.len() as int]),
{
    let ghost start = registry@;
    let clipboard = clipboard_descriptor();
    let clipboard_registered = registry.register(clipboard);
    proof {
        assert(clipboard_registered is Ok);
    }
    proof {
        assert(registry@.take(start.len() as int) =~= start);
    }
}

} // verus!
