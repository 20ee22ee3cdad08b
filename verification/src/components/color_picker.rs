//! The `ColorPicker` component: its descriptor and its registration.

use vstd::prelude::*;
use crate::registry::{
    constructor_table, kinds, method_table, ArgumentDescriptor, ArgumentSchema, ComponentDescriptor,
    ComponentKind, ComponentRegistry, ConstructorDescriptor, ConstructorRow, MethodDescriptor,
    MethodRow,
};
use crate::rules::{ConstructorRule, MethodRule};

verus! {

/// The constructors of `ColorPicker`: export name, argument slots and rule.
#[verifier::opaque]
pub open spec fn color_picker_constructors() -> Seq<ConstructorRow> {
    seq![
        (
            "ColorPicker"@,
            seq![("id"@, ArgumentSchema::String)],
            ConstructorRule::NonBlank {
                component: "ColorPicker",
                error: "ColorPicker(id) expects a string id",
            },
        ),
    ]
}

/// The methods of `ColorPicker`: name, argument slots, rule and documentation.
#[verifier::opaque]
pub open spec fn color_picker_methods() -> Seq<MethodRow> {
    seq![
        (
            "label"@,
            seq![("label"@, ArgumentSchema::String)],
            MethodRule::Text {
                error: "ColorPicker.label(label) expects a string",
                arity: "ColorPicker.label(label) expects a string",
            },
            "Sets the visible label above the picker."@,
        ),
        (
            "accessibility_label"@,
            seq![("label"@, ArgumentSchema::String)],
            MethodRule::Text {
                error: "ColorPicker.accessibility_label(label) expects a string",
                arity: "ColorPicker.accessibility_label(label) expects a string",
            },
            "Sets the announced name independently of the visible label."@,
        ),
        (
            "on_change"@,
            seq![("callback"@, ArgumentSchema::Callback)],
            MethodRule::Callback { error: "ColorPicker.on_change(callback) expects a callback" },
            "Reports the committed color as a hex string."@,
        ),
    ]
}

/// Whether `d` is the `ColorPicker` descriptor: its constructors, methods and documentation.
pub open spec fn is_color_picker_descriptor(d: ComponentDescriptor) -> bool {
    &&& d.kind == ComponentKind::ColorPicker
    &&& d.documentation@ == "A retained color picker with preview and commit behavior."@
    &&& constructor_table(d.constructors@) == color_picker_constructors()
    &&& method_table(d.methods@) == color_picker_methods()
}

fn color_picker_descriptor() -> (d: ComponentDescriptor)
    ensures
        is_color_picker_descriptor(d),
{
    let d = ComponentDescriptor::new(ComponentKind::ColorPicker)
        .with_constructors(
            vec![
                ConstructorDescriptor::new(
                    "ColorPicker",
                    vec![ArgumentDescriptor::new("id", ArgumentSchema::String)],
                    ConstructorRule::NonBlank {
                        component: "ColorPicker",
                        error: "ColorPicker(id) expects a string id",
                    },
                ),
            ],
        )
        .with_methods(
            vec![
                MethodDescriptor::new(
                    "label",
                    vec![ArgumentDescriptor::new("label", ArgumentSchema::String)],
                    MethodRule::Text {
                        error: "ColorPicker.label(label) expects a string",
                        arity: "ColorPicker.label(label) expects a string",
                    },
                ).with_documentation("Sets the visible label above the picker."),
                MethodDescriptor::new(
                    "accessibility_label",
                    vec![ArgumentDescriptor::new("label", ArgumentSchema::String)],
                    MethodRule::Text {
                        error: "ColorPicker.accessibility_label(label) expects a string",
                        arity: "ColorPicker.accessibility_label(label) expects a string",
                    },
                ).with_documentation("Sets the announced name independently of the visible label."),
                MethodDescriptor::new(
                    "on_change",
                    vec![ArgumentDescriptor::new("callback", ArgumentSchema::Callback)],
                    MethodRule::Callback {
                        error: "ColorPicker.on_change(callback) expects a callback",
                    },
                ).with_documentation("Reports the committed color as a hex string."),
            ],
        )
        .with_documentation("A retained color picker with preview and commit behavior.");
    proof {
        reveal(color_picker_constructors);
        assert(constructor_table(d.constructors@) =~~= color_picker_constructors());
        reveal(color_picker_methods);
        assert(method_table(d.methods@) =~~= color_picker_methods());
    }
    d
}

/// Registers `ColorPicker` after the components already registered.
pub fn register(registry: &mut ComponentRegistry)
    requires
        !kinds(old(registry)@).contains(ComponentKind::ColorPicker),
    ensures
        final(registry)@.len() == old(registry)@.len() + 1,
        final(registry)@.take(old(registry)@.len() as int) == old(registry)@,
        is_color_picker_descriptor(final(registry)@[old(registry)@.len() as int]),
{
    let ghost start = registry@;
    let color_picker = color_picker_descriptor();
    let color_picker_registered = registry.register(color_picker);
    proof {
        assert(color_picker_registered is Ok);
    }
    proof {
        assert(registry@.take(start.len() as int) =~= start);
    }
}

} // verus!
