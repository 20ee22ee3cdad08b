//! The `Collapsible` component: its descriptor and its registration.

use vstd::prelude::*;
use crate::registry::{
    constructor_table, kinds, method_table, ArgumentDescriptor, ArgumentSchema, ComponentDescriptor,
    ComponentKind, ComponentRegistry, ConstructorDescriptor, ConstructorRow, MethodDescriptor,
    MethodRow,
};
use crate::rules::{ConstructorRule, MethodRule};

verus! {

/// The constructors of `Collapsible`: export name, argument slots and rule.
#[verifier::opaque]
pub open spec fn collapsible_constructors() -> Seq<ConstructorRow> {
    seq![("Collapsible"@, seq![], ConstructorRule::Unit)]
}

/// The methods of `Collapsible`: name, argument slots, rule and documentation.
#[verifier::opaque]
pub open spec fn collapsible_methods() -> Seq<MethodRow> {
    seq![
        (
            "open"@,
            seq![("open"@, ArgumentSchema::Boolean)],
            MethodRule::Flag {
                error: "Collapsible.open(open) expects a boolean",
                arity: "Collapsible.open(open) expects a boolean",
            },
            "Controls whether the content slot is revealed."@,
        ),
        (
            "motion_id"@,
            seq![("id"@, ArgumentSchema::String)],
            MethodRule::Text {
                error: "Collapsible.motion_id(id) expects a string",
                arity: "Collapsible.motion_id(id) expects a string",
            },
            "Adds stable identity for a reversible measured reveal."@,
        ),
    ]
}

/// Whether `d` is the `Collapsible` descriptor: its constructors, methods and documentation.
pub open spec fn is_collapsible_descriptor(d: ComponentDescriptor) -> bool {
    &&& d.kind == ComponentKind::Collapsible
    &&& d.documentation@ == "A trigger container with optional named `content` reveal content."@
    &&& constructor_table(d.constructors@) == collapsible_constructors()
    &&& method_table(d.methods@) == collapsible_methods()
}

fn collapsible_descriptor() -> (d: ComponentDescriptor)
    ensures
        is_collapsible_descriptor(d),
{
    let d = ComponentDescriptor::new(ComponentKind::Collapsible)
        .with_constructors(
            vec![ConstructorDescriptor::new("Collapsible", Vec::new(), ConstructorRule::Unit)],
        )
        .with_methods(
            vec![
                MethodDescriptor::new(
                    "open",
                    vec![ArgumentDescriptor::new("open", ArgumentSchema::Boolean)],
                    MethodRule::Flag {
                        error: "Collapsible.open(open) expects a boolean",
                        arity: "Collapsible.open(open) expects a boolean",
                    },
                ).with_documentation("Controls whether the content slot is revealed."),
                MethodDescriptor::new(
                    "motion_id",
                    vec![ArgumentDescriptor::new("id", ArgumentSchema::String)],
                    MethodRule::Text {
                        error: "Collapsible.motion_id(id) expects a string",
                        arity: "Collapsible.motion_id(id) expects a string",
                    },
                ).with_documentation("Adds stable identity for a reversible measured reveal."),
            ],
        )
        .with_documentation("A trigger container with optional named `content` reveal content.");
    proof {
        reveal(collapsible_constructors);
        assert(constructor_table(d.constructors@) =~~= collapsible_constructors());
        reveal(collapsible_methods);
        assert(method_table(d.methods@) =~~= collapsible_methods());
    }
    d
}

/// Registers `Collapsible` after the components already registered.
pub fn register(registry: &mut ComponentRegistry)
    requires
        !kinds(old(registry)@).contains(ComponentKind::Collapsible),
    ensures
        final(registry)@.len() == old(registry)@.len() + 1,
        final(registry)@.take(old(registry)@.len() as int) == old(registry)@,
        is_collapsible_descriptor(final(registry)@[old(registry)@.len() as int]),
{
    let ghost start = registry@;
    let collapsible = collapsible_descriptor();
    let collapsible_registered = registry.register(collapsible);
    proof {
        assert(collapsible_registered is Ok);
    }
    proof {
        assert(registry@.take(start.len() as int) =~= start);
    }
}

} // verus!
