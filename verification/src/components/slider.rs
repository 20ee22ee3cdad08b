//! The `Slider` component: its descriptor and its registration.

use vstd::prelude::*;
use crate::registry::{
    constructor_table, kinds, method_table, ArgumentDescriptor, ArgumentSchema, ComponentDescriptor,
    ComponentKind, ComponentRegistry, ConstructorDescriptor, ConstructorRow, MethodDescriptor,
    MethodRow,
};
use crate::rules::{ConstructorRule, MethodRule};
use crate::calls::{
    callback, called, calls_view, flag_or, last_callback, last_flag_or, last_number, last_number_or,
    number, number_or, was_called, MethodCall,
};

verus! {

/// What the calls on a `Slider` configure. Numbers are binary64 bits.
pub struct SliderConfig {
    pub value: u64,
    pub min: Option<u64>,
    pub max: Option<u64>,
    pub vertical: bool,
    pub reverse: bool,
    pub disabled: bool,
    pub on_change: Option<u64>,
}

/// The configuration the calls leave: the last call of each method wins, the
/// value defaults to zero, `vertical` and `reverse` hold once called, and
/// without a `disabled` call the shell's disabled state applies.
pub fn slider_config(calls: &Vec<MethodCall>, shell_disabled: bool) -> (config: SliderConfig)
    ensures
        config.value == last_number_or(calls_view(calls@), "value"@, 0),
        config.min == last_number(calls_view(calls@), "min"@),
        config.max == last_number(calls_view(calls@), "max"@),
        config.vertical == was_called(calls_view(calls@), "vertical"@),
        config.reverse == was_called(calls_view(calls@), "reverse"@),
        config.disabled == last_flag_or(calls_view(calls@), "disabled"@, shell_disabled),
        config.on_change == last_callback(calls_view(calls@), "on_change"@),
{
    SliderConfig {
        value: number_or(calls, "value", 0),
        min: number(calls, "min"),
        max: number(calls, "max"),
        vertical: called(calls, "vertical"),
        reverse: called(calls, "reverse"),
        disabled: flag_or(calls, "disabled", shell_disabled),
        on_change: callback(calls, "on_change"),
    }
}

/// The constructors of `Slider`: export name, argument slots and rule.
#[verifier::opaque]
pub open spec fn slider_constructors() -> Seq<ConstructorRow> {
    seq![
        (
            "Slider"@,
            seq![("id"@, ArgumentSchema::String)],
            ConstructorRule::NonBlank {
                component: "Slider",
                error: "Slider(id) expects a string id",
            },
        ),
    ]
}

/// The methods of `Slider`: name, argument slots, rule and documentation.
#[verifier::opaque]
pub open spec fn slider_methods() -> Seq<MethodRow> {
    seq![
        (
            "value"@,
            seq![("value"@, ArgumentSchema::Number)],
            MethodRule::F32Range { error: "Slider.value expects a finite number" },
            "Sets the initial value."@,
        ),
        (
            "min"@,
            seq![("min"@, ArgumentSchema::Number)],
            MethodRule::F32Range { error: "Slider.min expects a finite number" },
            "Sets the minimum value."@,
        ),
        (
            "max"@,
            seq![("max"@, ArgumentSchema::Number)],
            MethodRule::F32Range { error: "Slider.max expects a finite number" },
            "Sets the maximum value."@,
        ),
        ("vertical"@, seq![], MethodRule::Unit, "Uses a vertical track."@),
        ("reverse"@, seq![], MethodRule::Unit, "Reverses the filled side."@),
        (
            "disabled"@,
            seq![("disabled"@, ArgumentSchema::Boolean)],
            MethodRule::Flag {
                error: "Slider.disabled(disabled) expects a boolean",
                arity: "Slider.disabled(disabled) expects a boolean",
            },
            "Disables the slider."@,
        ),
        (
            "on_change"@,
            seq![("callback"@, ArgumentSchema::Callback)],
            MethodRule::Callback { error: "Slider.on_change(callback) expects a callback" },
            "Reports the new value."@,
        ),
    ]
}

/// Whether `d` is the `Slider` descriptor: its constructors, methods and documentation.
pub open spec fn is_slider_descriptor(d: ComponentDescriptor) -> bool {
    &&& d.kind == ComponentKind::Slider
    &&& d.documentation@ == "A retained numeric slider."@
    &&& constructor_table(d.constructors@) == slider_constructors()
    &&& method_table(d.methods@) == slider_methods()
}

fn slider_descriptor() -> (d: ComponentDescriptor)
    ensures
        is_slider_descriptor(d),
{
    let d = ComponentDescriptor::new(ComponentKind::Slider)
        .with_constructors(
            vec![
                ConstructorDescriptor::new(
                    "Slider",
                    vec![ArgumentDescriptor::new("id", ArgumentSchema::String)],
                    ConstructorRule::NonBlank {
                        component: "Slider",
                        error: "Slider(id) expects a string id",
                    },
                ),
            ],
        )
        .with_methods(
            vec![
                MethodDescriptor::new(
                    "value",
                    vec![ArgumentDescriptor::new("value", ArgumentSchema::Number)],
                    MethodRule::F32Range { error: "Slider.value expects a finite number" },
                ).with_documentation("Sets the initial value."),
                MethodDescriptor::new(
                    "min",
                    vec![ArgumentDescriptor::new("min", ArgumentSchema::Number)],
                    MethodRule::F32Range { error: "Slider.min expects a finite number" },
                ).with_documentation("Sets the minimum value."),
                MethodDescriptor::new(
                    "max",
                    vec![ArgumentDescriptor::new("max", ArgumentSchema::Number)],
                    MethodRule::F32Range { error: "Slider.max expects a finite number" },
                ).with_documentation("Sets the maximum value."),
                MethodDescriptor::new(
                    "vertical",
                    Vec::new(),
                    MethodRule::Unit,
                ).with_documentation("Uses a vertical track."),
                MethodDescriptor::new(
                    "reverse",
                    Vec::new(),
                    MethodRule::Unit,
                ).with_documentation("Reverses the filled side."),
                MethodDescriptor::new(
                    "disabled",
                    vec![ArgumentDescriptor::new("disabled", ArgumentSchema::Boolean)],
                    MethodRule::Flag {
                        error: "Slider.disabled(disabled) expects a boolean",
                        arity: "Slider.disabled(disabled) expects a boolean",
                    },
                ).with_documentation("Disables the slider."),
                MethodDescriptor::new(
                    "on_change",
                    vec![ArgumentDescriptor::new("callback", ArgumentSchema::Callback)],
                    MethodRule::Callback { error: "Slider.on_change(callback) expects a callback" },
                ).with_documentation("Reports the new value."),
            ],
        )
        .with_documentation("A retained numeric slider.");
    proof {
        reveal(slider_constructors);
        assert(constructor_table(d.constructors@) =~~= slider_constructors());
        reveal(slider_methods);
        assert(method_table(d.methods@) =~~= slider_methods());
    }
    d
}

/// Registers `Slider` after the components already registered.
pub fn register(registry: &mut ComponentRegistry)
    requires
        !kinds(old(registry)@).contains(ComponentKind::Slider),
    ensures
        final(registry)@.len() == old(registry)@.len() + 1,
        final(registry)@.take(old(registry)@.len() as int) == old(registry)@,
        is_slider_descriptor(final(registry)@[old(registry)@.len() as int]),
{
    let ghost start = registry@;
    let slider = slider_descriptor();
    let slider_registered = registry.register(slider);
    proof {
        assert(slider_registered is Ok);
    }
    proof {
        assert(registry@.take(start.len() as int) =~= start);
    }
}

} // verus!
