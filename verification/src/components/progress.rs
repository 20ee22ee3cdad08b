//! The `Progress` component: its descriptor and its registration.

use vstd::prelude::*;
use crate::registry::{
    constructor_table, kinds, method_table, ArgumentDescriptor, ArgumentSchema, ComponentDescriptor,
    ComponentKind, ComponentRegistry, ConstructorDescriptor, ConstructorRow, MethodDescriptor,
    MethodRow,
};
use crate::rules::{ConstructorRule, MethodRule};

verus! {

/// The constructors of `Progress`: export name, argument slots and rule.
#[verifier::opaque]
pub open spec fn progress_constructors() -> Seq<ConstructorRow> {
    seq![
        (
            "Progress"@,
            seq![("id"@, ArgumentSchema::String)],
            ConstructorRule::Text { error: "Progress(id) expects one string" },
        ),
    ]
}

/// The methods of `Progress`: name, argument slots, rule and documentation.
#[verifier::opaque]
pub open spec fn progress_methods() -> Seq<MethodRow> {
    seq![
        (
            "value"@,
            seq![("value"@, ArgumentSchema::Number)],
            MethodRule::NumberOrZero,
            "Sets the completion percentage, from 0 to 100."@,
        ),
        (
            "loading"@,
            seq![("loading"@, ArgumentSchema::Boolean)],
            MethodRule::Truthy,
            "Shows the indeterminate loading animation."@,
        ),
    ]
}

/// Whether `d` is the `Progress` descriptor: its constructors, methods and documentation.
pub open spec fn is_progress_descriptor(d: ComponentDescriptor) -> bool {
    &&& d.kind == ComponentKind::Progress
    &&& d.documentation@ == "A determinate progress bar."@
    &&& constructor_table(d.constructors@) == progress_constructors()
    &&& method_table(d.methods@) == progress_methods()
}

fn progress_descriptor() -> (d: ComponentDescriptor)
    ensures
        is_progress_descriptor(d),
{
    let d = ComponentDescriptor::new(ComponentKind::Progress)
        .with_constructors(
            vec![
                ConstructorDescriptor::new(
                    "Progress",
                    vec![ArgumentDescriptor::new("id", ArgumentSchema::String)],
                    ConstructorRule::Text { error: "Progress(id) expects one string" },
                ),
            ],
        )
        .with_methods(
            vec![
                MethodDescriptor::new(
                    "value",
                    vec![ArgumentDescriptor::new("value", ArgumentSchema::Number)],
                    MethodRule::NumberOrZero,
                ).with_documentation("Sets the completion percentage, from 0 to 100."),
                MethodDescriptor::new(
                    "loading",
                    vec![ArgumentDescriptor::new("loading", ArgumentSchema::Boolean)],
                    MethodRule::Truthy,
                ).with_documentation("Shows the indeterminate loading animation."),
            ],
        )
        .with_documentation("A determinate progress bar.");
    proof {
        reveal(progress_constructors);
        assert(constructor_table(d.constructors@) =~~= progress_constructors());
        reveal(progress_methods);
        assert(method_table(d.methods@) =~~= progress_methods());
    }
    d
}

/// Registers `Progress` after the components already registered.
pub fn register(registry: &mut ComponentRegistry)
    requires
        !kinds(old(registry)@).contains(ComponentKind::Progress),
    ensures
        final(registry)@.len() == old(registry)@.len() + 1,
        final(registry)@.take(old(registry)@.len() as int) == old(registry)@,
        is_progress_descriptor(final(registry)@[old(registry)@.len() as int]),
{
    let ghost start = registry@;
    let progress = progress_descriptor();
    let progress_registered = registry.register(progress);
    proof {
        assert(progress_registered is Ok);
    }
    proof {
        assert(registry@.take(start.len() as int) =~= start);
    }
}

} // verus!
