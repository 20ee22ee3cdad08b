//! The `NumberInput` component: its descriptor and its registration.

use vstd::prelude::*;
use crate::registry::{
    constructor_table, kinds, method_table, ArgumentDescriptor, ArgumentSchema, ComponentDescriptor,
    ComponentKind, ComponentRegistry, ConstructorDescriptor, ConstructorRow, MethodDescriptor,
    MethodRow,
};
use crate::rules::{ConstructorRule, MethodRule};
use crate::calls::{
    callback, calls_view, flag_or, last_callback, last_flag_or, last_text, text, MethodCall,
};

verus! {

/// What the calls on a `NumberInput` configure.
pub struct NumberInputConfig {
    pub placeholder: String,
    pub value: String,
    pub disabled: bool,
    pub on_change: Option<u64>,
}

/// The configuration the calls leave: the last call of each method wins,
/// texts default to empty, and without a `disabled` call the shell's disabled
/// state applies.
pub fn number_input_config(calls: &Vec<MethodCall>, shell_disabled: bool) -> (config:
    NumberInputConfig)
    ensures
        config.placeholder@ == last_text(calls_view(calls@), "placeholder"@),
        config.value@ == last_text(calls_view(calls@), "value"@),
        config.disabled == last_flag_or(calls_view(calls@), "disabled"@, shell_disabled),
        config.on_change == last_callback(calls_view(calls@), "on_change"@),
{
    NumberInputConfig {
        placeholder: text(calls, "placeholder"),
        value: text(calls, "value"),
        disabled: flag_or(calls, "disabled", shell_disabled),
        on_change: callback(calls, "on_change"),
    }
}

/// The constructors of `NumberInput`: export name, argument slots and rule.
#[verifier::opaque]
pub open spec fn number_input_constructors() -> Seq<ConstructorRow> {
    seq![
        (
            "NumberInput"@,
            seq![("id"@, ArgumentSchema::String)],
            ConstructorRule::NonBlank {
                component: "NumberInput",
                error: "NumberInput(id) expects a string id",
            },
        ),
    ]
}

/// The methods of `NumberInput`: name, argument slots, rule and documentation.
#[verifier::opaque]
pub open spec fn number_input_methods() -> Seq<MethodRow> {
    seq![
        (
            "placeholder"@,
            seq![("placeholder"@, ArgumentSchema::String)],
            MethodRule::FirstText { error: "NumberInput.placeholder received an invalid value" },
            "Sets the placeholder shown while empty."@,
        ),
        (
            "value"@,
            seq![("value"@, ArgumentSchema::String)],
            MethodRule::FirstText { error: "NumberInput.value received an invalid value" },
            "Sets the initial text."@,
        ),
        (
            "disabled"@,
            seq![("disabled"@, ArgumentSchema::Boolean)],
            MethodRule::FirstFlag { error: "NumberInput.disabled received an invalid value" },
            "Disables the field."@,
        ),
        (
            "on_change"@,
            seq![("callback"@, ArgumentSchema::Callback)],
            MethodRule::Callback { error: "NumberInput.on_change(callback) expects a callback" },
            "Reports the new text after each edit."@,
        ),
    ]
}

/// Whether `d` is the `NumberInput` descriptor: its constructors, methods and documentation.
pub open spec fn is_number_input_descriptor(d: ComponentDescriptor) -> bool {
    &&& d.kind == ComponentKind::NumberInput
    &&& d.documentation@ == "A retained numeric text field."@
    &&& constructor_table(d.constructors@) == number_input_constructors()
    &&& method_table(d.methods@) == number_input_methods()
}

fn number_input_descriptor() -> (d: ComponentDescriptor)
    ensures
        is_number_input_descriptor(d),
{
    let d = ComponentDescriptor::new(ComponentKind::NumberInput)
        .with_constructors(
            vec![
                ConstructorDescriptor::new(
                    "NumberInput",
                    vec![ArgumentDescriptor::new("id", ArgumentSchema::String)],
                    ConstructorRule::NonBlank {
                        component: "NumberInput",
                        error: "NumberInput(id) expects a string id",
                    },
                ),
            ],
        )
        .with_methods(
            vec![
                MethodDescriptor::new(
                    "placeholder",
                    vec![ArgumentDescriptor::new("placeholder", ArgumentSchema::String)],
                    MethodRule::FirstText {
                        error: "NumberInput.placeholder received an invalid value",
                    },
                ).with_documentation("Sets the placeholder shown while empty."),
                MethodDescriptor::new(
                    "value",
                    vec![ArgumentDescriptor::new("value", ArgumentSchema::String)],
                    MethodRule::FirstText { error: "NumberInput.value received an invalid value" },
                ).with_documentation("Sets the initial text."),
                MethodDescriptor::new(
                    "disabled",
                    vec![ArgumentDescriptor::new("disabled", ArgumentSchema::Boolean)],
                    MethodRule::FirstFlag {
                        error: "NumberInput.disabled received an invalid value",
                    },
                ).with_documentation("Disables the field."),
                MethodDescriptor::new(
                    "on_change",
                    vec![ArgumentDescriptor::new("callback", ArgumentSchema::Callback)],
                    MethodRule::Callback {
                        error: "NumberInput.on_change(callback) expects a callback",
                    },
                ).with_documentation("Reports the new text after each edit."),
            ],
        )
        .with_documentation("A retained numeric text field.");
    proof {
        reveal(number_input_constructors);
        assert(constructor_table(d.constructors@) =~~= number_input_constructors());
        reveal(number_input_methods);
        assert(method_table(d.methods@) =~~= number_input_methods());
    }
    d
}

/// Registers `NumberInput` after the components already registered.
pub fn register(registry: &mut ComponentRegistry)
    requires
        !kinds(old(registry)@).contains(ComponentKind::NumberInput),
    ensures
        final(registry)@.len() == old(registry)@.len() + 1,
        final(registry)@.take(old(registry)@.len() as int) == old(registry)@,
        is_number_input_descriptor(final(registry)@[old(registry)@.len() as int]),
{
    let ghost start = registry@;
    let number_input = number_input_descriptor();
    let number_input_registered = registry.register(number_input);
    proof {
        assert(number_input_registered is Ok);
    }
    proof {
        assert(registry@.take(start.len() as int) =~= start);
    }
}

} // verus!
