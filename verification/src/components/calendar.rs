//! The `Calendar` component: its descriptor and its registration.

use vstd::prelude::*;
use crate::registry::{
    constructor_table, kinds, method_table, ArgumentDescriptor, ArgumentSchema, ComponentDescriptor,
    ComponentKind, ComponentRegistry, ConstructorDescriptor, ConstructorRow, MethodDescriptor,
    MethodRow,
};
use crate::rules::{ConstructorRule, MethodRule};

verus! {

/// The constructors of `Calendar`: export name, argument slots and rule.
#[verifier::opaque]
pub open spec fn calendar_constructors() -> Seq<ConstructorRow> {
    seq![
        (
            "Calendar"@,
            seq![("id"@, ArgumentSchema::String)],
            ConstructorRule::NonBlank {
                component: "Calendar",
                error: "Calendar(id) expects a string id",
            },
        ),
    ]
}

/// The methods of `Calendar`: name, argument slots, rule and documentation.
#[verifier::opaque]
pub open spec fn calendar_methods() -> Seq<MethodRow> {
    seq![
        (
            "number_of_months"@,
            seq![("count"@, ArgumentSchema::Number)],
            MethodRule::Count {
                error: "Calendar.number_of_months(count) expects a positive integer",
            },
            "Sets the positive number of adjacent months to display."@,
        ),
        (
            "on_change"@,
            seq![("callback"@, ArgumentSchema::Callback)],
            MethodRule::Callback { error: "Calendar.on_change(callback) expects a callback" },
            "Reports the selected date as an ISO string."@,
        ),
    ]
}

/// Whether `d` is the `Calendar` descriptor: its constructors, methods and documentation.
pub open spec fn is_calendar_descriptor(d: ComponentDescriptor) -> bool {
    &&& d.kind == ComponentKind::Calendar
    &&& d.documentation@ == "A retained calendar for date navigation and selection."@
    &&& constructor_table(d.constructors@) == calendar_constructors()
    &&& method_table(d.methods@) == calendar_methods()
}

fn calendar_descriptor() -> (d: ComponentDescriptor)
    ensures
        is_calendar_descriptor(d),
{
    let d = ComponentDescriptor::new(ComponentKind::Calendar)
        .with_constructors(
            vec![
                ConstructorDescriptor::new(
                    "Calendar",
                    vec![ArgumentDescriptor::new("id", ArgumentSchema::String)],
                    ConstructorRule::NonBlank {
                        component: "Calendar",
                        error: "Calendar(id) expects a string id",
                    },
                ),
            ],
        )
        .with_methods(
            vec![
                MethodDescriptor::new(
                    "number_of_months",
                    vec![ArgumentDescriptor::new("count", ArgumentSchema::Number)],
                    MethodRule::Count {
                        error: "Calendar.number_of_months(count) expects a positive integer",
                    },
                ).with_documentation("Sets the positive number of adjacent months to display."),
                MethodDescriptor::new(
                    "on_change",
                    vec![ArgumentDescriptor::new("callback", ArgumentSchema::Callback)],
                    MethodRule::Callback {
                        error: "Calendar.on_change(callback) expects a callback",
                    },
                ).with_documentation("Reports the selected date as an ISO string."),
            ],
        )
        .with_documentation("A retained calendar for date navigation and selection.");
    proof {
        reveal(calendar_constructors);
        assert(constructor_table(d.constructors@) =~~= calendar_constructors());
        reveal(calendar_methods);
        assert(method_table(d.methods@) =~~= calendar_methods());
    }
    d
}

/// Registers `Calendar` after the components already registered.
pub fn register(registry: &mut ComponentRegistry)
    requires
        !kinds(old(registry)@).contains(ComponentKind::Calendar),
    ensures
        final(registry)@.len() == old(registry)@.len() + 1,
        final(registry)@.take(old(registry)@.len() as int) == old(registry)@,
        is_calendar_descriptor(final(registry)@[old(registry)@.len() as int]),
{
    let ghost start = registry@;
    let calendar = calendar_descriptor();
    let calendar_registered = registry.register(calendar);
    proof {
        assert(calendar_registered is Ok);
    }
    proof {
        assert(registry@.take(start.len() as int) =~= start);
    }
}

} // verus!
