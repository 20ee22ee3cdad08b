//! The `OtpInput` component: its descriptor and its registration.

use vstd::prelude::*;
use crate::registry::{
    constructor_table, kinds, method_table, ArgumentDescriptor, ArgumentSchema, ComponentDescriptor,
    ComponentKind, ComponentRegistry, ConstructorDescriptor, ConstructorRow, MethodDescriptor,
    MethodRow,
};
use crate::rules::{ConstructorRule, MethodRule};
use crate::calls::{
    callback, calls_view, count, flag_or, last_callback, last_count, last_flag_or, MethodCall,
};

verus! {

/// The number of digits of an `OtpInput` without a `length` call.
pub const DEFAULT_LENGTH: u64 = 6;

/// What the calls on an `OtpInput` configure.
pub struct OtpInputConfig {
    pub length: u64,
    pub groups: Option<u64>,
    pub disabled: bool,
    pub on_change: Option<u64>,
    pub on_focus: Option<u64>,
    pub on_blur: Option<u64>,
}

/// The configuration the calls leave: the last call of each method wins, the
/// length defaults to [`DEFAULT_LENGTH`], and without a `disabled` call the
/// shell's disabled state applies.
pub fn otp_input_config(calls: &Vec<MethodCall>, shell_disabled: bool) -> (config: OtpInputConfig)
    ensures
        config.length == (match last_count(calls_view(calls@), "length"@) {
            Some(n) => n,
            None => DEFAULT_LENGTH,
        }),
        config.groups == last_count(calls_view(calls@), "groups"@),
        config.disabled == last_flag_or(calls_view(calls@), "disabled"@, shell_disabled),
        config.on_change == last_callback(calls_view(calls@), "on_change"@),
        config.on_focus == last_callback(calls_view(calls@), "on_focus"@),
        config.on_blur == last_callback(calls_view(calls@), "on_blur"@),
{
    OtpInputConfig {
        length: match count(calls, "length") {
            Some(n) => n,
            None => DEFAULT_LENGTH,
        },
        groups: count(calls, "groups"),
        disabled: flag_or(calls, "disabled", shell_disabled),
        on_change: callback(calls, "on_change"),
        on_focus: callback(calls, "on_focus"),
        on_blur: callback(calls, "on_blur"),
    }
}

/// The constructors of `OtpInput`: export name, argument slots and rule.
#[verifier::opaque]
pub open spec fn otp_input_constructors() -> Seq<ConstructorRow> {
    seq![
        (
            "OtpInput"@,
            seq![("id"@, ArgumentSchema::String)],
            ConstructorRule::NonBlank {
                component: "OtpInput",
                error: "OtpInput(id) expects a string id",
            },
        ),
    ]
}

/// The methods of `OtpInput`: name, argument slots, rule and documentation.
#[verifier::opaque]
pub open spec fn otp_input_methods() -> Seq<MethodRow> {
    seq![
        (
            "length"@,
            seq![("length"@, ArgumentSchema::Number)],
            MethodRule::FirstCount { error: "OtpInput.length received an invalid value" },
            "Sets the fixed number of digits."@,
        ),
        (
            "groups"@,
            seq![("groups"@, ArgumentSchema::Number)],
            MethodRule::FirstCount { error: "OtpInput.groups received an invalid value" },
            "Splits the code into the requested number of visual groups."@,
        ),
        (
            "disabled"@,
            seq![("disabled"@, ArgumentSchema::Boolean)],
            MethodRule::FirstFlag { error: "OtpInput.disabled received an invalid value" },
            "Disables the field."@,
        ),
        (
            "on_change"@,
            seq![("callback"@, ArgumentSchema::Callback)],
            MethodRule::Callback { error: "OtpInput.on_change(callback) expects a callback" },
            "Reports the entered code after each edit."@,
        ),
        (
            "on_focus"@,
            seq![("callback"@, ArgumentSchema::Callback)],
            MethodRule::Callback { error: "OtpInput.on_focus(callback) expects a callback" },
            "Runs when the field gains focus."@,
        ),
        (
            "on_blur"@,
            seq![("callback"@, ArgumentSchema::Callback)],
            MethodRule::Callback { error: "OtpInput.on_blur(callback) expects a callback" },
            "Runs when the field loses focus."@,
        ),
    ]
}

/// Whether `d` is the `OtpInput` descriptor: its constructors, methods and documentation.
pub open spec fn is_otp_input_descriptor(d: ComponentDescriptor) -> bool {
    &&& d.kind == ComponentKind::OtpInput
    &&& d.documentation@ == "A retained fixed-length one-time-password field."@
    &&& constructor_table(d.constructors@) == otp_input_constructors()
    &&& method_table(d.methods@) == otp_input_methods()
}

fn otp_input_descriptor() -> (d: ComponentDescriptor)
    ensures
        is_otp_input_descriptor(d),
{
    let d = ComponentDescriptor::new(ComponentKind::OtpInput)
        .with_constructors(
            vec![
                ConstructorDescriptor::new(
                    "OtpInput",
                    vec![ArgumentDescriptor::new("id", ArgumentSchema::String)],
                    ConstructorRule::NonBlank {
                        component: "OtpInput",
                        error: "OtpInput(id) expects a string id",
                    },
                ),
            ],
        )
        .with_methods(
            vec![
                MethodDescriptor::new(
                    "length",
                    vec![ArgumentDescriptor::new("length", ArgumentSchema::Number)],
                    MethodRule::FirstCount { error: "OtpInput.length received an invalid value" },
                ).with_documentation("Sets the fixed number of digits."),
                MethodDescriptor::new(
                    "groups",
                    vec![ArgumentDescriptor::new("groups", ArgumentSchema::Number)],
                    MethodRule::FirstCount { error: "OtpInput.groups received an invalid value" },
                ).with_documentation("Splits the code into the requested number of visual groups."),
                MethodDescriptor::new(
                    "disabled",
                    vec![ArgumentDescriptor::new("disabled", ArgumentSchema::Boolean)],
                    MethodRule::FirstFlag { error: "OtpInput.disabled received an invalid value" },
                ).with_documentation("Disables the field."),
                MethodDescriptor::new(
                    "on_change",
                    vec![ArgumentDescriptor::new("callback", ArgumentSchema::Callback)],
                    MethodRule::Callback {
                        error: "OtpInput.on_change(callback) expects a callback",
                    },
                ).with_documentation("Reports the entered code after each edit."),
                MethodDescriptor::new(
                    "on_focus",
                    vec![ArgumentDescriptor::new("callback", ArgumentSchema::Callback)],
                    MethodRule::Callback {
                        error: "OtpInput.on_focus(callback) expects a callback",
                    },
                ).with_documentation("Runs when the field gains focus."),
                MethodDescriptor::new(
                    "on_blur",
                    vec![ArgumentDescriptor::new("callback", ArgumentSchema::Callback)],
                    MethodRule::Callback { error: "OtpInput.on_blur(callback) expects a callback" },
                ).with_documentation("Runs when the field loses focus."),
            ],
        )
        .with_documentation("A retained fixed-length one-time-password field.");
    proof {
        reveal(otp_input_constructors);
        assert(constructor_table(d.constructors@) =~~= otp_input_constructors());
        reveal(otp_input_methods);
        assert(method_table(d.methods@) =~~= otp_input_methods());
    }
    d
}

/// Registers `OtpInput` after the components already registered.
pub fn register(registry: &mut ComponentRegistry)
    requires
        !kinds(old(registry)@).contains(ComponentKind::OtpInput),
    ensures
        final(registry)@.len() == old(registry)@.len() + 1,
        final(registry)@.take(old(registry)@.len() as int) == old(registry)@,
        is_otp_input_descriptor(final(registry)@[old(registry)@.len() as int]),
{
    let ghost start = registry@;
    let otp_input = otp_input_descriptor();
    let otp_input_registered = registry.register(otp_input);
    proof {
        assert(otp_input_registered is Ok);
    }
    proof {
        assert(registry@.take(start.len() as int) =~= start);
    }
}

} // verus!
