//! The `Stepper` and the `StepperItem` children it accepts.

use vstd::prelude::*;
use crate::registry::{
    constructor_table, kinds, lemma_kinds_push, method_table, ArgumentDescriptor, ArgumentSchema,
    ComponentDescriptor, ComponentKind, ComponentRegistry, ConstructorDescriptor, ConstructorRow,
    MethodDescriptor, MethodRow,
};
use crate::rules::{ChoiceList, ConstructorRule, MethodRule};

verus! {

/// The constructors of `StepperItem`: export name, argument slots and rule.
#[verifier::opaque]
pub open spec fn stepper_item_constructors() -> Seq<ConstructorRow> {
    seq![("StepperItem"@, seq![], ConstructorRule::Unit)]
}

/// The methods of `StepperItem`: name, argument slots, rule and documentation.
#[verifier::opaque]
pub open spec fn stepper_item_methods() -> Seq<MethodRow> {
    seq![
        (
            "disabled"@,
            seq![("disabled"@, ArgumentSchema::Boolean)],
            MethodRule::Flag {
                error: "StepperItem.disabled(disabled) expects one boolean",
                arity: "StepperItem.disabled(disabled) expects one boolean",
            },
            "Disables this step independently of its parent."@,
        ),
    ]
}

/// Whether `d` is the `StepperItem` descriptor: its constructors, methods and documentation.
pub open spec fn is_stepper_item_descriptor(d: ComponentDescriptor) -> bool {
    &&& d.kind == ComponentKind::StepperItem
    &&& d.documentation@ == "A step part accepted only as a direct Stepper child."@
    &&& constructor_table(d.constructors@) == stepper_item_constructors()
    &&& method_table(d.methods@) == stepper_item_methods()
}

fn stepper_item_descriptor() -> (d: ComponentDescriptor)
    ensures
        is_stepper_item_descriptor(d),
{
    let d = ComponentDescriptor::new(ComponentKind::StepperItem)
        .with_constructors(
            vec![ConstructorDescriptor::new("StepperItem", Vec::new(), ConstructorRule::Unit)],
        )
        .with_methods(
            vec![
                MethodDescriptor::new(
                    "disabled",
                    vec![ArgumentDescriptor::new("disabled", ArgumentSchema::Boolean)],
                    MethodRule::Flag {
                        error: "StepperItem.disabled(disabled) expects one boolean",
                        arity: "StepperItem.disabled(disabled) expects one boolean",
                    },
                ).with_documentation("Disables this step independently of its parent."),
            ],
        )
        .with_documentation("A step part accepted only as a direct Stepper child.");
    proof {
        reveal(stepper_item_constructors);
        assert(constructor_table(d.constructors@) =~~= stepper_item_constructors());
        reveal(stepper_item_methods);
        assert(method_table(d.methods@) =~~= stepper_item_methods());
    }
    d
}

/// The constructors of `Stepper`: export name, argument slots and rule.
#[verifier::opaque]
pub open spec fn stepper_constructors() -> Seq<ConstructorRow> {
    seq![
        (
            "Stepper"@,
            seq![("id"@, ArgumentSchema::String)],
            ConstructorRule::NonBlankOnly { error: "Stepper(id) expects a nonempty string id" },
        ),
    ]
}

/// The methods of `Stepper`: name, argument slots, rule and documentation.
#[verifier::opaque]
pub open spec fn stepper_methods() -> Seq<MethodRow> {
    seq![
        (
            "selected_index"@,
            seq![("index"@, ArgumentSchema::Number)],
            MethodRule::Index {
                error: "Stepper.selected_index(index) expects a nonnegative integer",
            },
            "Controls the current zero-based step."@,
        ),
        (
            "vertical"@,
            seq![("vertical"@, ArgumentSchema::Boolean)],
            MethodRule::Flag {
                error: "Stepper.vertical(vertical) expects one boolean",
                arity: "Stepper.vertical(vertical) expects one boolean",
            },
            "Switches between vertical and horizontal layout."@,
        ),
        (
            "text_center"@,
            seq![("text_center"@, ArgumentSchema::Boolean)],
            MethodRule::Flag {
                error: "Stepper.text_center(text_center) expects one boolean",
                arity: "Stepper.text_center(text_center) expects one boolean",
            },
            "Centers each step's text in horizontal layouts."@,
        ),
        (
            "disabled"@,
            seq![("disabled"@, ArgumentSchema::Boolean)],
            MethodRule::Flag {
                error: "Stepper.disabled(disabled) expects one boolean",
                arity: "Stepper.disabled(disabled) expects one boolean",
            },
            "Disables every step."@,
        ),
        (
            "size"@,
            seq![("size"@, ArgumentSchema::Enum(ChoiceList::Size))],
            MethodRule::Choice {
                list: ChoiceList::Size,
                any_text: false,
                unsupported: "unsupported Stepper size `",
                echo: true,
                error: "Stepper.size(size) expects a semantic size",
                arity: "Stepper.size(size) expects a semantic size",
            },
            "Sets the semantic component size."@,
        ),
        (
            "on_change"@,
            seq![("callback"@, ArgumentSchema::Callback)],
            MethodRule::Callback { error: "Stepper.on_change(callback) expects a callback" },
            "Reports the newly selected zero-based index."@,
        ),
    ]
}

/// Whether `d` is the `Stepper` descriptor: its constructors, methods and documentation.
pub open spec fn is_stepper_descriptor(d: ComponentDescriptor) -> bool {
    &&& d.kind == ComponentKind::Stepper
    &&& d.documentation@ == "A typed progress stepper accepting only StepperItem children."@
    &&& constructor_table(d.constructors@) == stepper_constructors()
    &&& method_table(d.methods@) == stepper_methods()
}

fn stepper_descriptor() -> (d: ComponentDescriptor)
    ensures
        is_stepper_descriptor(d),
{
    let d = ComponentDescriptor::new(ComponentKind::Stepper)
        .with_constructors(
            vec![
                ConstructorDescriptor::new(
                    "Stepper",
                    vec![ArgumentDescriptor::new("id", ArgumentSchema::String)],
                    ConstructorRule::NonBlankOnly {
                        error: "Stepper(id) expects a nonempty string id",
                    },
                ),
            ],
        )
        .with_methods(
            vec![
                MethodDescriptor::new(
                    "selected_index",
                    vec![ArgumentDescriptor::new("index", ArgumentSchema::Number)],
                    MethodRule::Index {
                        error: "Stepper.selected_index(index) expects a nonnegative integer",
                    },
                ).with_documentation("Controls the current zero-based step."),
                MethodDescriptor::new(
                    "vertical",
                    vec![ArgumentDescriptor::new("vertical", ArgumentSchema::Boolean)],
                    MethodRule::Flag {
                        error: "Stepper.vertical(vertical) expects one boolean",
                        arity: "Stepper.vertical(vertical) expects one boolean",
                    },
                ).with_documentation("Switches between vertical and horizontal layout."),
                MethodDescriptor::new(
                    "text_center",
                    vec![ArgumentDescriptor::new("text_center", ArgumentSchema::Boolean)],
                    MethodRule::Flag {
                        error: "Stepper.text_center(text_center) expects one boolean",
                        arity: "Stepper.text_center(text_center) expects one boolean",
                    },
                ).with_documentation("Centers each step's text in horizontal layouts."),
                MethodDescriptor::new(
                    "disabled",
                    vec![ArgumentDescriptor::new("disabled", ArgumentSchema::Boolean)],
                    MethodRule::Flag {
                        error: "Stepper.disabled(disabled) expects one boolean",
                        arity: "Stepper.disabled(disabled) expects one boolean",
                    },
                ).with_documentation("Disables every step."),
                MethodDescriptor::new(
                    "size",
                    vec![ArgumentDescriptor::new("size", ArgumentSchema::Enum(ChoiceList::Size))],
                    MethodRule::Choice {
                        list: ChoiceList::Size,
                        any_text: false,
                        unsupported: "unsupported Stepper size `",
                        echo: true,
                        error: "Stepper.size(size) expects a semantic size",
                        arity: "Stepper.size(size) expects a semantic size",
                    },
                ).with_documentation("Sets the semantic component size."),
                MethodDescriptor::new(
                    "on_change",
                    vec![ArgumentDescriptor::new("callback", ArgumentSchema::Callback)],
                    MethodRule::Callback {
                        error: "Stepper.on_change(callback) expects a callback",
                    },
                ).with_documentation("Reports the newly selected zero-based index."),
            ],
        )
        .with_documentation("A typed progress stepper accepting only StepperItem children.");
    proof {
        reveal(stepper_constructors);
        assert(constructor_table(d.constructors@) =~~= stepper_constructors());
        reveal(stepper_methods);
        assert(method_table(d.methods@) =~~= stepper_methods());
    }
    d
}

/// Registers `StepperItem`, `Stepper` after the components already registered, in this order.
pub fn register(registry: &mut ComponentRegistry)
    requires
        !kinds(old(registry)@).contains(ComponentKind::StepperItem),
        !kinds(old(registry)@).contains(ComponentKind::Stepper),
    ensures
        final(registry)@.len() == old(registry)@.len() + 2,
        final(registry)@.take(old(registry)@.len() as int) == old(registry)@,
        is_stepper_item_descriptor(final(registry)@[old(registry)@.len() as int]),
        is_stepper_descriptor(final(registry)@[old(registry)@.len() as int + 1]),
{
    let ghost start = registry@;
    let ghost before_stepper_item = registry@;
    let stepper_item = stepper_item_descriptor();
    let ghost added_stepper_item = stepper_item;
    let stepper_item_registered = registry.register(stepper_item);
    proof {
        assert(stepper_item_registered is Ok);
        lemma_kinds_push(before_stepper_item, added_stepper_item);
    }
    let stepper = stepper_descriptor();
    let stepper_registered = registry.register(stepper);
    proof {
        assert(stepper_registered is Ok);
    }
    proof {
        assert(registry@.take(start.len() as int) =~= start);
    }
}

} // verus!
