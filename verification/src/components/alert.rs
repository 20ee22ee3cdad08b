//! The `Alert` component: its descriptor and its registration.

use vstd::prelude::*;
use crate::registry::{
    constructor_table, kinds, method_table, ArgumentDescriptor, ArgumentSchema, ComponentDescriptor,
    ComponentKind, ComponentRegistry, ConstructorDescriptor, ConstructorRow, MethodDescriptor,
    MethodRow,
};
use crate::rules::{AlertVariant, ChoiceList, ConstructorRule, MethodRule};

verus! {

/// The constructors of `Alert`: export name, argument slots and rule.
#[verifier::opaque]
pub open spec fn alert_constructors() -> Seq<ConstructorRow> {
    seq![
        (
            "Alert"@,
            seq![("id"@, ArgumentSchema::String), ("message"@, ArgumentSchema::String)],
            ConstructorRule::Alert {
                variant: AlertVariant::Default,
                blank: "Alert(id) expects a nonempty string id",
                error: "Alert(id, message) expects two strings",
            },
        ),
        (
            "InfoAlert"@,
            seq![("id"@, ArgumentSchema::String), ("message"@, ArgumentSchema::String)],
            ConstructorRule::Alert {
                variant: AlertVariant::Info,
                blank: "Alert(id) expects a nonempty string id",
                error: "InfoAlert(id, message) expects two strings",
            },
        ),
        (
            "SuccessAlert"@,
            seq![("id"@, ArgumentSchema::String), ("message"@, ArgumentSchema::String)],
            ConstructorRule::Alert {
                variant: AlertVariant::Success,
                blank: "Alert(id) expects a nonempty string id",
                error: "SuccessAlert(id, message) expects two strings",
            },
        ),
        (
            "WarningAlert"@,
            seq![("id"@, ArgumentSchema::String), ("message"@, ArgumentSchema::String)],
            ConstructorRule::Alert {
                variant: AlertVariant::Warning,
                blank: "Alert(id) expects a nonempty string id",
                error: "WarningAlert(id, message) expects two strings",
            },
        ),
        (
            "ErrorAlert"@,
            seq![("id"@, ArgumentSchema::String), ("message"@, ArgumentSchema::String)],
            ConstructorRule::Alert {
                variant: AlertVariant::Error,
                blank: "Alert(id) expects a nonempty string id",
                error: "ErrorAlert(id, message) expects two strings",
            },
        ),
    ]
}

/// The methods of `Alert`: name, argument slots, rule and documentation.
#[verifier::opaque]
pub open spec fn alert_methods() -> Seq<MethodRow> {
    seq![
        (
            "title"@,
            seq![("title"@, ArgumentSchema::String)],
            MethodRule::Text {
                error: "Alert.title(title) expects a string",
                arity: "Alert.title(title) expects a string",
            },
            "Sets the alert title."@,
        ),
        ("banner"@, seq![], MethodRule::Unit, "Uses the full-width banner presentation."@),
        (
            "visible"@,
            seq![("visible"@, ArgumentSchema::Boolean)],
            MethodRule::Flag {
                error: "Alert.visible(visible) expects a boolean",
                arity: "Alert.visible(visible) expects a boolean",
            },
            "Controls whether the alert is rendered."@,
        ),
        (
            "size"@,
            seq![("size"@, ArgumentSchema::Enum(ChoiceList::Size))],
            MethodRule::Choice {
                list: ChoiceList::Size,
                any_text: false,
                unsupported: "unsupported Alert size `",
                echo: true,
                error: "Alert.size expects a semantic size literal",
                arity: "Alert.size expects a semantic size literal",
            },
            "Sets the alert's semantic size."@,
        ),
    ]
}

/// Whether `d` is the `Alert` descriptor: its constructors, methods and documentation.
pub open spec fn is_alert_descriptor(d: ComponentDescriptor) -> bool {
    &&& d.kind == ComponentKind::Alert
    &&& d.documentation@ == "A message banner with semantic default, info, success, warning, and error constructors."@
    &&& constructor_table(d.constructors@) == alert_constructors()
    &&& method_table(d.methods@) == alert_methods()
}

fn alert_descriptor() -> (d: ComponentDescriptor)
    ensures
        is_alert_descriptor(d),
{
    let d = ComponentDescriptor::new(ComponentKind::Alert)
        .with_constructors(
            vec![
                ConstructorDescriptor::new(
                    "Alert",
                    vec![
                        ArgumentDescriptor::new("id", ArgumentSchema::String),
                        ArgumentDescriptor::new("message", ArgumentSchema::String),
                    ],
                    ConstructorRule::Alert {
                        variant: AlertVariant::Default,
                        blank: "Alert(id) expects a nonempty string id",
                        error: "Alert(id, message) expects two strings",
                    },
                ),
                ConstructorDescriptor::new(
                    "InfoAlert",
                    vec![
                        ArgumentDescriptor::new("id", ArgumentSchema::String),
                        ArgumentDescriptor::new("message", ArgumentSchema::String),
                    ],
                    ConstructorRule::Alert {
                        variant: AlertVariant::Info,
                        blank: "Alert(id) expects a nonempty string id",
                        error: "InfoAlert(id, message) expects two strings",
                    },
                ),
                ConstructorDescriptor::new(
                    "SuccessAlert",
                    vec![
                        ArgumentDescriptor::new("id", ArgumentSchema::String),
                        ArgumentDescriptor::new("message", ArgumentSchema::String),
                    ],
                    ConstructorRule::Alert {
                        variant: AlertVariant::Success,
                        blank: "Alert(id) expects a nonempty string id",
                        error: "SuccessAlert(id, message) expects two strings",
                    },
                ),
                ConstructorDescriptor::new(
                    "WarningAlert",
                    vec![
                        ArgumentDescriptor::new("id", ArgumentSchema::String),
                        ArgumentDescriptor::new("message", ArgumentSchema::String),
                    ],
                    ConstructorRule::Alert {
                        variant: AlertVariant::Warning,
                        blank: "Alert(id) expects a nonempty string id",
                        error: "WarningAlert(id, message) expects two strings",
                    },
                ),
                ConstructorDescriptor::new(
                    "ErrorAlert",
                    vec![
                        ArgumentDescriptor::new("id", ArgumentSchema::String),
                        ArgumentDescriptor::new("message", ArgumentSchema::String),
                    ],
                    ConstructorRule::Alert {
                        variant: AlertVariant::Error,
                        blank: "Alert(id) expects a nonempty string id",
                        error: "ErrorAlert(id, message) expects two strings",
                    },
                ),
            ],
        )
        .with_methods(
            vec![
                MethodDescriptor::new(
                    "title",
                    vec![ArgumentDescriptor::new("title", ArgumentSchema::String)],
                    MethodRule::Text {
                        error: "Alert.title(title) expects a string",
                        arity: "Alert.title(title) expects a string",
                    },
                ).with_documentation("Sets the alert title."),
                MethodDescriptor::new(
                    "banner",
                    Vec::new(),
                    MethodRule::Unit,
                ).with_documentation("Uses the full-width banner presentation."),
                MethodDescriptor::new(
                    "visible",
                    vec![ArgumentDescriptor::new("visible", ArgumentSchema::Boolean)],
                    MethodRule::Flag {
                        error: "Alert.visible(visible) expects a boolean",
                        arity: "Alert.visible(visible) expects a boolean",
                    },
                ).with_documentation("Controls whether the alert is rendered."),
                MethodDescriptor::new(
                    "size",
                    vec![ArgumentDescriptor::new("size", ArgumentSchema::Enum(ChoiceList::Size))],
                    MethodRule::Choice {
                        list: ChoiceList::Size,
                        any_text: false,
                        unsupported: "unsupported Alert size `",
                        echo: true,
                        error: "Alert.size expects a semantic size literal",
                        arity: "Alert.size expects a semantic size literal",
                    },
                ).with_documentation("Sets the alert's semantic size."),
            ],
        )
        .with_documentation(
            "A message banner with semantic default, info, success, warning, and error constructors.",
        );
    proof {
        reveal(alert_constructors);
        assert(constructor_table(d.constructors@) =~~= alert_constructors());
        reveal(alert_methods);
        assert(method_table(d.methods@) =~~= alert_methods());
    }
    d
}

/// Registers `Alert` after the components already registered.
pub fn register(registry: &mut ComponentRegistry)
    requires
        !kinds(old(registry)@).contains(ComponentKind::Alert),
    ensures
        final(registry)@.len() == old(registry)@.len() + 1,
        final(registry)@.take(old(registry)@.len() as int) == old(registry)@,
        is_alert_descriptor(final(registry)@[old(registry)@.len() as int]),
{
    let ghost start = registry@;
    let alert = alert_descriptor();
    let alert_registered = registry.register(alert);
    proof {
        assert(alert_registered is Ok);
    }
    proof {
        assert(registry@.take(start.len() as int) =~= start);
    }
}

} // verus!
