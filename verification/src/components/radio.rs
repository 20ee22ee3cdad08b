//! The `Radio` component: its descriptor and its registration.

use vstd::prelude::*;
use crate::registry::{
    constructor_table, kinds, method_table, ArgumentDescriptor, ArgumentSchema, ComponentDescriptor,
    ComponentKind, ComponentRegistry, ConstructorDescriptor, ConstructorRow, MethodDescriptor,
    MethodRow,
};
use crate::rules::{ChoiceList, ConstructorRule, MethodRule};

verus! {

/// The constructors of `Radio`: export name, argument slots and rule.
#[verifier::opaque]
pub open spec fn radio_constructors() -> Seq<ConstructorRow> {
    seq![
        (
            "Radio"@,
            seq![("id"@, ArgumentSchema::String)],
            ConstructorRule::NonBlank {
                component: "Radio",
                error: "Radio(id) expects a string id",
            },
        ),
    ]
}

/// The methods of `Radio`: name, argument slots, rule and documentation.
#[verifier::opaque]
pub open spec fn radio_methods() -> Seq<MethodRow> {
    seq![
        (
            "label"@,
            seq![("label"@, ArgumentSchema::String)],
            MethodRule::Text {
                error: "Radio.label(label) expects a string",
                arity: "Radio.label(label) expects one argument",
            },
            "Sets the visible label."@,
        ),
        (
            "accessibility_label"@,
            seq![("accessibility_label"@, ArgumentSchema::String)],
            MethodRule::Text {
                error: "Radio.accessibility_label(label) expects a string",
                arity: "Radio.accessibility_label(accessibility_label) expects one argument",
            },
            "Overrides the announced name."@,
        ),
        (
            "checked"@,
            seq![("checked"@, ArgumentSchema::Boolean)],
            MethodRule::Flag {
                error: "Radio.checked(checked) expects a boolean",
                arity: "Radio.checked(checked) expects one argument",
            },
            "Controls checked state."@,
        ),
        (
            "tab_stop"@,
            seq![("tab_stop"@, ArgumentSchema::Boolean)],
            MethodRule::Flag {
                error: "Radio.tab_stop(tabStop) expects a boolean",
                arity: "Radio.tab_stop(tab_stop) expects one argument",
            },
            "Controls keyboard tab-stop participation."@,
        ),
        (
            "size"@,
            seq![("size"@, ArgumentSchema::Enum(ChoiceList::Size))],
            MethodRule::Choice {
                list: ChoiceList::Size,
                any_text: false,
                unsupported: "unsupported Radio size `",
                echo: true,
                error: "Radio.size(size) expects a size literal",
                arity: "Radio.size(size) expects one argument",
            },
            "Sets semantic size."@,
        ),
        (
            "on_change"@,
            seq![("on_change"@, ArgumentSchema::Callback)],
            MethodRule::CallbackOrNumber { error: "Radio.on_change expects one callback" },
            "Reports a click on a radio used on its own. Inside a `RadioGroup` the group reports the selected index instead."@,
        ),
    ]
}

/// Whether `d` is the `Radio` descriptor: its constructors, methods and documentation.
pub open spec fn is_radio_descriptor(d: ComponentDescriptor) -> bool {
    &&& d.kind == ComponentKind::Radio
    &&& d.documentation@ == "A controlled radio control; selected and disabled common behavior is supported."@
    &&& constructor_table(d.constructors@) == radio_constructors()
    &&& method_table(d.methods@) == radio_methods()
}

fn radio_descriptor() -> (d: ComponentDescriptor)
    ensures
        is_radio_descriptor(d),
{
    let d = ComponentDescriptor::new(ComponentKind::Radio)
        .with_constructors(
            vec![
                ConstructorDescriptor::new(
                    "Radio",
                    vec![ArgumentDescriptor::new("id", ArgumentSchema::String)],
                    ConstructorRule::NonBlank {
                        component: "Radio",
                        error: "Radio(id) expects a string id",
                    },
                ),
            ],
        )
        .with_methods(
            vec![
                MethodDescriptor::new(
                    "label",
                    vec![ArgumentDescriptor::new("label", ArgumentSchema::String)],
                    MethodRule::Text {
                        error: "Radio.label(label) expects a string",
                        arity: "Radio.label(label) expects one argument",
                    },
                ).with_documentation("Sets the visible label."),
                MethodDescriptor::new(
                    "accessibility_label",
                    vec![ArgumentDescriptor::new("accessibility_label", ArgumentSchema::String)],
                    MethodRule::Text {
                        error: "Radio.accessibility_label(label) expects a string",
                        arity: "Radio.accessibility_label(accessibility_label) expects one argument",
                    },
                ).with_documentation("Overrides the announced name."),
                MethodDescriptor::new(
                    "checked",
                    vec![ArgumentDescriptor::new("checked", ArgumentSchema::Boolean)],
                    MethodRule::Flag {
                        error: "Radio.checked(checked) expects a boolean",
                        arity: "Radio.checked(checked) expects one argument",
                    },
                ).with_documentation("Controls checked state."),
                MethodDescriptor::new(
                    "tab_stop",
                    vec![ArgumentDescriptor::new("tab_stop", ArgumentSchema::Boolean)],
                    MethodRule::Flag {
                        error: "Radio.tab_stop(tabStop) expects a boolean",
                        arity: "Radio.tab_stop(tab_stop) expects one argument",
                    },
                ).with_documentation("Controls keyboard tab-stop participation."),
                MethodDescriptor::new(
                    "size",
                    vec![ArgumentDescriptor::new("size", ArgumentSchema::Enum(ChoiceList::Size))],
                    MethodRule::Choice {
                        list: ChoiceList::Size,
                        any_text: false,
                        unsupported: "unsupported Radio size `",
                        echo: true,
                        error: "Radio.size(size) expects a size literal",
                        arity: "Radio.size(size) expects one argument",
                    },
                ).with_documentation("Sets semantic size."),
                MethodDescriptor::new(
                    "on_change",
                    vec![ArgumentDescriptor::new("on_change", ArgumentSchema::Callback)],
                    MethodRule::CallbackOrNumber { error: "Radio.on_change expects one callback" },
                ).with_documentation(
                    "Reports a click on a radio used on its own. Inside a `RadioGroup` the group reports the selected index instead.",
                ),
            ],
        )
        .with_documentation(
            "A controlled radio control; selected and disabled common behavior is supported.",
        );
    proof {
        reveal(radio_constructors);
        assert(constructor_table(d.constructors@) =~~= radio_constructors());
        reveal(radio_methods);
        assert(method_table(d.methods@) =~~= radio_methods());
    }
    d
}

/// Registers `Radio` after the components already registered.
pub fn register(registry: &mut ComponentRegistry)
    requires
        !kinds(old(registry)@).contains(ComponentKind::Radio),
    ensures
        final(registry)@.len() == old(registry)@.len() + 1,
        final(registry)@.take(old(registry)@.len() as int) == old(registry)@,
        is_radio_descriptor(final(registry)@[old(registry)@.len() as int]),
{
    let ghost start = registry@;
    let radio = radio_descriptor();
    let radio_registered = registry.register(radio);
    proof {
        assert(radio_registered is Ok);
    }
    proof {
        assert(registry@.take(start.len() as int) =~= start);
    }
}

} // verus!
