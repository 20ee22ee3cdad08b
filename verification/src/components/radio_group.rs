//! The `RadioGroup` component: its descriptor and its registration.

use vstd::prelude::*;
use crate::registry::{
    constructor_table, kinds, method_table, ArgumentDescriptor, ArgumentSchema, ComponentDescriptor,
    ComponentKind, ComponentRegistry, ConstructorDescriptor, ConstructorRow, MethodDescriptor,
    MethodRow,
};
use crate::rules::{ConstructorRule, MethodRule};

verus! {

/// The constructors of `RadioGroup`: export name, argument slots and rule.
#[verifier::opaque]
pub open spec fn radio_group_constructors() -> Seq<ConstructorRow> {
    seq![
        (
            "RadioGroup"@,
            seq![("id"@, ArgumentSchema::String)],
            ConstructorRule::Oriented {
                vertical: true,
                error: "RadioGroup(id) expects a non-empty string id",
            },
        ),
        (
            "HorizontalRadioGroup"@,
            seq![("id"@, ArgumentSchema::String)],
            ConstructorRule::Oriented {
                vertical: false,
                error: "HorizontalRadioGroup(id) expects a non-empty string id",
            },
        ),
    ]
}

/// The methods of `RadioGroup`: name, argument slots, rule and documentation.
#[verifier::opaque]
pub open spec fn radio_group_methods() -> Seq<MethodRow> {
    seq![
        (
            "selected_index"@,
            seq![("index"@, ArgumentSchema::Number)],
            MethodRule::BoundedIndex {
                error: "RadioGroup.selected_index(index) expects a non-negative integer",
            },
            "Controls the selected zero-based radio index."@,
        ),
        (
            "disabled"@,
            seq![("disabled"@, ArgumentSchema::Boolean)],
            MethodRule::Flag {
                error: "RadioGroup.disabled(disabled) expects a boolean",
                arity: "RadioGroup.disabled(disabled) expects a boolean",
            },
            "Sets native RadioGroup behavior."@,
        ),
        (
            "on_change"@,
            seq![("callback"@, ArgumentSchema::Callback)],
            MethodRule::Callback { error: "RadioGroup.on_change expects a callback" },
            "Reports the selected zero-based index."@,
        ),
    ]
}

/// Whether `d` is the `RadioGroup` descriptor: its constructors, methods and documentation.
pub open spec fn is_radio_group_descriptor(d: ComponentDescriptor) -> bool {
    &&& d.kind == ComponentKind::RadioGroup
    &&& d.documentation@ == "A controlled radio set accepting only registered Radio children."@
    &&& constructor_table(d.constructors@) == radio_group_constructors()
    &&& method_table(d.methods@) == radio_group_methods()
}

fn radio_group_descriptor() -> (d: ComponentDescriptor)
    ensures
        is_radio_group_descriptor(d),
{
    let d = ComponentDescriptor::new(ComponentKind::RadioGroup)
        .with_constructors(
            vec![
                ConstructorDescriptor::new(
                    "RadioGroup",
                    vec![ArgumentDescriptor::new("id", ArgumentSchema::String)],
                    ConstructorRule::Oriented {
                        vertical: true,
                        error: "RadioGroup(id) expects a non-empty string id",
                    },
                ),
                ConstructorDescriptor::new(
                    "HorizontalRadioGroup",
                    vec![ArgumentDescriptor::new("id", ArgumentSchema::String)],
                    ConstructorRule::Oriented {
                        vertical: false,
                        error: "HorizontalRadioGroup(id) expects a non-empty string id",
                    },
                ),
            ],
        )
        .with_methods(
            vec![
                MethodDescriptor::new(
                    "selected_index",
                    vec![ArgumentDescriptor::new("index", ArgumentSchema::Number)],
                    MethodRule::BoundedIndex {
                        error: "RadioGroup.selected_index(index) expects a non-negative integer",
                    },
                ).with_documentation("Controls the selected zero-based radio index."),
                MethodDescriptor::new(
                    "disabled",
                    vec![ArgumentDescriptor::new("disabled", ArgumentSchema::Boolean)],
                    MethodRule::Flag {
                        error: "RadioGroup.disabled(disabled) expects a boolean",
                        arity: "RadioGroup.disabled(disabled) expects a boolean",
                    },
                ).with_documentation("Sets native RadioGroup behavior."),
                MethodDescriptor::new(
                    "on_change",
                    vec![ArgumentDescriptor::new("callback", ArgumentSchema::Callback)],
                    MethodRule::Callback { error: "RadioGroup.on_change expects a callback" },
                ).with_documentation("Reports the selected zero-based index."),
            ],
        )
        .with_documentation("A controlled radio set accepting only registered Radio children.");
    proof {
        reveal(radio_group_constructors);
        assert(constructor_table(d.constructors@) =~~= radio_group_constructors());
        reveal(radio_group_methods);
        assert(method_table(d.methods@) =~~= radio_group_methods());
    }
    d
}

/// Registers `RadioGroup` after the components already registered.
pub fn register(registry: &mut ComponentRegistry)
    requires
        !kinds(old(registry)@).contains(ComponentKind::RadioGroup),
    ensures
        final(registry)@.len() == old(registry)@.len() + 1,
        final(registry)@.take(old(registry)@.len() as int) == old(registry)@,
        is_radio_group_descriptor(final(registry)@[old(registry)@.len() as int]),
{
    let ghost start = registry@;
    let radio_group = radio_group_descriptor();
    let radio_group_registered = registry.register(radio_group);
    proof {
        assert(radio_group_registered is Ok);
    }
    proof {
        assert(registry@.take(start.len() as int) =~= start);
    }
}

} // verus!
