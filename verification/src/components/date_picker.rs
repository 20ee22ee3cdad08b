//! The `DatePicker` component: its descriptor and its registration.

use vstd::prelude::*;
use crate::registry::{
    constructor_table, kinds, method_table, ArgumentDescriptor, ArgumentSchema, ComponentDescriptor,
    ComponentKind, ComponentRegistry, ConstructorDescriptor, ConstructorRow, MethodDescriptor,
    MethodRow,
};
use crate::rules::{ConstructorRule, MethodRule};

verus! {

/// The constructors of `DatePicker`: export name, argument slots and rule.
#[verifier::opaque]
pub open spec fn date_picker_constructors() -> Seq<ConstructorRow> {
    seq![
        (
            "DatePicker"@,
            seq![("id"@, ArgumentSchema::String)],
            ConstructorRule::NonBlank {
                component: "DatePicker",
                error: "DatePicker(id) expects a string id",
            },
        ),
    ]
}

/// The methods of `DatePicker`: name, argument slots, rule and documentation.
#[verifier::opaque]
pub open spec fn date_picker_methods() -> Seq<MethodRow> {
    seq![
        (
            "placeholder"@,
            seq![("placeholder"@, ArgumentSchema::String)],
            MethodRule::Text {
                error: "DatePicker.placeholder expects a string",
                arity: "DatePicker.placeholder expects a string",
            },
            "Sets the empty-value prompt."@,
        ),
        (
            "disabled"@,
            seq![("disabled"@, ArgumentSchema::Boolean)],
            MethodRule::Flag {
                error: "DatePicker.disabled expects a boolean",
                arity: "DatePicker.disabled expects a boolean",
            },
            "Disables the picker."@,
        ),
        (
            "on_change"@,
            seq![("callback"@, ArgumentSchema::Callback)],
            MethodRule::Callback { error: "DatePicker.on_change(callback) expects a callback" },
            "Reports the chosen date as an ISO string."@,
        ),
    ]
}

/// Whether `d` is the `DatePicker` descriptor: its constructors, methods and documentation.
pub open spec fn is_date_picker_descriptor(d: ComponentDescriptor) -> bool {
    &&& d.kind == ComponentKind::DatePicker
    &&& d.documentation@ == "A retained single-date picker."@
    &&& constructor_table(d.constructors@) == date_picker_constructors()
    &&& method_table(d.methods@) == date_picker_methods()
}

fn date_picker_descriptor() -> (d: ComponentDescriptor)
    ensures
        is_date_picker_descriptor(d),
{
    let d = ComponentDescriptor::new(ComponentKind::DatePicker)
        .with_constructors(
            vec![
                ConstructorDescriptor::new(
                    "DatePicker",
                    vec![ArgumentDescriptor::new("id", ArgumentSchema::String)],
                    ConstructorRule::NonBlank {
                        component: "DatePicker",
                        error: "DatePicker(id) expects a string id",
                    },
                ),
            ],
        )
        .with_methods(
            vec![
                MethodDescriptor::new(
                    "placeholder",
                    vec![ArgumentDescriptor::new("placeholder", ArgumentSchema::String)],
                    MethodRule::Text {
                        error: "DatePicker.placeholder expects a string",
                        arity: "DatePicker.placeholder expects a string",
                    },
                ).with_documentation("Sets the empty-value prompt."),
                MethodDescriptor::new(
                    "disabled",
                    vec![ArgumentDescriptor::new("disabled", ArgumentSchema::Boolean)],
                    MethodRule::Flag {
                        error: "DatePicker.disabled expects a boolean",
                        arity: "DatePicker.disabled expects a boolean",
                    },
                ).with_documentation("Disables the picker."),
                MethodDescriptor::new(
                    "on_change",
                    vec![ArgumentDescriptor::new("callback", ArgumentSchema::Callback)],
                    MethodRule::Callback {
                        error: "DatePicker.on_change(callback) expects a callback",
                    },
                ).with_documentation("Reports the chosen date as an ISO string."),
            ],
        )
        .with_documentation("A retained single-date picker.");
    proof {
        reveal(date_picker_constructors);
        assert(constructor_table(d.constructors@) =~~= date_picker_constructors());
        reveal(date_picker_methods);
        assert(method_table(d.methods@) =~~= date_picker_methods());
    }
    d
}

/// Registers `DatePicker` after the components already registered.
pub fn register(registry: &mut ComponentRegistry)
    requires
        !kinds(old(registry)@).contains(ComponentKind::DatePicker),
    ensures
        final(registry)@.len() == old(registry)@.len() + 1,
        final(registry)@.take(old(registry)@.len() as int) == old(registry)@,
        is_date_picker_descriptor(final(registry)@[old(registry)@.len() as int]),
{
    let ghost start = registry@;
    let date_picker = date_picker_descriptor();
    let date_picker_registered = registry.register(date_picker);
    proof {
        assert(date_picker_registered is Ok);
    }
    proof {
        assert(registry@.take(start.len() as int) =~= start);
    }
}

} // verus!
