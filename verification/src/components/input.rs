//! The `Input` component: its descriptor and its registration.

use vstd::prelude::*;
use crate::registry::{
    constructor_table, kinds, method_table, ArgumentDescriptor, ArgumentSchema, ComponentDescriptor,
    ComponentKind, ComponentRegistry, ConstructorDescriptor, ConstructorRow, MethodDescriptor,
    MethodRow,
};
use crate::rules::{ChoiceList, ConstructorRule, MethodRule};
use crate::calls::{
    callback, calls_view, flag_or, last_call, last_callback, last_flag_or, last_payload, last_text,
    text, MethodCall,
};
use crate::rules::{ComponentPayload, Payload};

verus! {

/// What the calls on an `Input` configure.
pub struct InputConfig {
    pub placeholder: String,
    pub value: String,
    pub disabled: bool,
    /// The size literal of the last `size` call, if any.
    pub size: Option<String>,
    pub on_change: Option<u64>,
    pub on_focus: Option<u64>,
    pub on_blur: Option<u64>,
}

/// The size literal the last `size` call recorded.
pub open spec fn input_size(calls: Seq<(Seq<char>, Payload)>) -> Option<Seq<char>> {
    match last_call(calls, "size"@) {
        Some(Payload::Text(s)) => Some(s),
        _ => None,
    }
}

/// The configuration the calls leave: the last call of each method wins,
/// texts default to empty, and without a `disabled` call the shell's disabled
/// state applies.
pub fn input_config(calls: &Vec<MethodCall>, shell_disabled: bool) -> (config: InputConfig)
    ensures
        config.placeholder@ == last_text(calls_view(calls@), "placeholder"@),
        config.value@ == last_text(calls_view(calls@), "value"@),
        config.disabled == last_flag_or(calls_view(calls@), "disabled"@, shell_disabled),
        match config.size {
            Some(s) => input_size(calls_view(calls@)) == Some(s@),
            None => input_size(calls_view(calls@)) is None,
        },
        config.on_change == last_callback(calls_view(calls@), "on_change"@),
        config.on_focus == last_callback(calls_view(calls@), "on_focus"@),
        config.on_blur == last_callback(calls_view(calls@), "on_blur"@),
{
    let size = match last_payload(calls, "size") {
        Some(ComponentPayload::Text(s)) => Some(String::from_str(s.as_str())),
        _ => None,
    };
    InputConfig {
        placeholder: text(calls, "placeholder"),
        value: text(calls, "value"),
        disabled: flag_or(calls, "disabled", shell_disabled),
        size,
        on_change: callback(calls, "on_change"),
        on_focus: callback(calls, "on_focus"),
        on_blur: callback(calls, "on_blur"),
    }
}

/// The constructors of `Input`: export name, argument slots and rule.
#[verifier::opaque]
pub open spec fn input_constructors() -> Seq<ConstructorRow> {
    seq![
        (
            "Input"@,
            seq![("id"@, ArgumentSchema::String)],
            ConstructorRule::NonBlank {
                component: "Input",
                error: "Input(id) expects a string id",
            },
        ),
    ]
}

/// The methods of `Input`: name, argument slots, rule and documentation.
#[verifier::opaque]
pub open spec fn input_methods() -> Seq<MethodRow> {
    seq![
        (
            "placeholder"@,
            seq![("placeholder"@, ArgumentSchema::String)],
            MethodRule::FirstText { error: "Input.placeholder received an invalid value" },
            "Sets the placeholder shown while empty."@,
        ),
        (
            "value"@,
            seq![("value"@, ArgumentSchema::String)],
            MethodRule::FirstText { error: "Input.value received an invalid value" },
            "Sets the initial text."@,
        ),
        (
            "disabled"@,
            seq![("disabled"@, ArgumentSchema::Boolean)],
            MethodRule::FirstFlag { error: "Input.disabled received an invalid value" },
            "Disables the field."@,
        ),
        (
            "size"@,
            seq![("size"@, ArgumentSchema::Enum(ChoiceList::Size))],
            MethodRule::FirstEnum { error: "Input.size received an invalid value" },
            "Sets the control size; it also fixes the field height."@,
        ),
        (
            "on_change"@,
            seq![("callback"@, ArgumentSchema::Callback)],
            MethodRule::Callback { error: "Input.on_change(callback) expects a callback" },
            "Reports the new text after each edit."@,
        ),
        (
            "on_focus"@,
            seq![("callback"@, ArgumentSchema::Callback)],
            MethodRule::Callback { error: "Input.on_focus(callback) expects a callback" },
            "Runs when the field gains focus."@,
        ),
        (
            "on_blur"@,
            seq![("callback"@, ArgumentSchema::Callback)],
            MethodRule::Callback { error: "Input.on_blur(callback) expects a callback" },
            "Runs when the field loses focus."@,
        ),
    ]
}

/// Whether `d` is the `Input` descriptor: its constructors, methods and documentation.
pub open spec fn is_input_descriptor(d: ComponentDescriptor) -> bool {
    &&& d.kind == ComponentKind::Input
    &&& d.documentation@ == "A retained single-line text field."@
    &&& constructor_table(d.constructors@) == input_constructors()
    &&& method_table(d.methods@) == input_methods()
}

fn input_descriptor() -> (d: ComponentDescriptor)
    ensures
        is_input_descriptor(d),
{
    let d = ComponentDescriptor::new(ComponentKind::Input)
        .with_constructors(
            vec![
                ConstructorDescriptor::new(
                    "Input",
                    vec![ArgumentDescriptor::new("id", ArgumentSchema::String)],
                    ConstructorRule::NonBlank {
                        component: "Input",
                        error: "Input(id) expects a string id",
                    },
                ),
            ],
        )
        .with_methods(
            vec![
                MethodDescriptor::new(
                    "placeholder",
                    vec![ArgumentDescriptor::new("placeholder", ArgumentSchema::String)],
                    MethodRule::FirstText { error: "Input.placeholder received an invalid value" },
                ).with_documentation("Sets the placeholder shown while empty."),
                MethodDescriptor::new(
                    "value",
                    vec![ArgumentDescriptor::new("value", ArgumentSchema::String)],
                    MethodRule::FirstText { error: "Input.value received an invalid value" },
                ).with_documentation("Sets the initial text."),
                MethodDescriptor::new(
                    "disabled",
                    vec![ArgumentDescriptor::new("disabled", ArgumentSchema::Boolean)],
                    MethodRule::FirstFlag { error: "Input.disabled received an invalid value" },
                ).with_documentation("Disables the field."),
                MethodDescriptor::new(
                    "size",
                    vec![ArgumentDescriptor::new("size", ArgumentSchema::Enum(ChoiceList::Size))],
                    MethodRule::FirstEnum { error: "Input.size received an invalid value" },
                ).with_documentation("Sets the control size; it also fixes the field height."),
                MethodDescriptor::new(
                    "on_change",
                    vec![ArgumentDescriptor::new("callback", ArgumentSchema::Callback)],
                    MethodRule::Callback { error: "Input.on_change(callback) expects a callback" },
                ).with_documentation("Reports the new text after each edit."),
                MethodDescriptor::new(
                    "on_focus",
                    vec![ArgumentDescriptor::new("callback", ArgumentSchema::Callback)],
                    MethodRule::Callback { error: "Input.on_focus(callback) expects a callback" },
                ).with_documentation("Runs when the field gains focus."),
                MethodDescriptor::new(
                    "on_blur",
                    vec![ArgumentDescriptor::new("callback", ArgumentSchema::Callback)],
                    MethodRule::Callback { error: "Input.on_blur(callback) expects a callback" },
                ).with_documentation("Runs when the field loses focus."),
            ],
        )
        .with_documentation("A retained single-line text field.");
    proof {
        reveal(input_constructors);
        assert(constructor_table(d.constructors@) =~~= input_constructors());
        reveal(input_methods);
        assert(method_table(d.methods@) =~~= input_methods());
    }
    d
}

/// Registers `Input` after the components already registered.
pub fn register(registry: &mut ComponentRegistry)
    requires
        !kinds(old(registry)@).contains(ComponentKind::Input),
    ensures
        final(registry)@.len() == old(registry)@.len() + 1,
        final(registry)@.take(old(registry)@.len() as int) == old(registry)@,
        is_input_descriptor(final(registry)@[old(registry)@.len() as int]),
{
    let ghost start = registry@;
    let input = input_descriptor();
    let input_registered = registry.register(input);
    proof {
        assert(input_registered is Ok);
    }
    proof {
        assert(registry@.take(start.len() as int) =~= start);
    }
}

} // verus!
