//! The `EntityHost` component: its descriptor and its registration.

use vstd::prelude::*;
use crate::registry::{
    constructor_table, kinds, method_table, ArgumentDescriptor, ArgumentSchema, ComponentDescriptor,
    ComponentKind, ComponentRegistry, ConstructorDescriptor, ConstructorRow, MethodDescriptor,
    MethodRow,
};
use crate::rules::{ConstructorRule, MethodRule};

verus! {

/// The constructors of `EntityHost`: export name, argument slots and rule.
#[verifier::opaque]
pub open spec fn entity_host_constructors() -> Seq<ConstructorRow> {
    seq![
        (
            "EntityHost"@,
            seq![("entity_id"@, ArgumentSchema::String)],
            ConstructorRule::NonBlankOnly { error: "EntityHost expects a non-empty entity id" },
        ),
    ]
}

/// The methods of `EntityHost`: name, argument slots, rule and documentation.
#[verifier::opaque]
pub open spec fn entity_host_methods() -> Seq<MethodRow> {
    seq![
        (
            "render_entity"@,
            seq![("callback"@, ArgumentSchema::Callback)],
            MethodRule::Callback { error: "EntityHost.render_entity(callback) expects a callback" },
            "Builds the subtree for the entity id."@,
        ),
    ]
}

/// Whether `d` is the `EntityHost` descriptor: its constructors, methods and documentation.
pub open spec fn is_entity_host_descriptor(d: ComponentDescriptor) -> bool {
    &&& d.kind == ComponentKind::EntityHost
    &&& d.documentation@ == "A retained managed entity subtree; `notify_entity` repaints it in place."@
    &&& constructor_table(d.constructors@) == entity_host_constructors()
    &&& method_table(d.methods@) == entity_host_methods()
}

fn entity_host_descriptor() -> (d: ComponentDescriptor)
    ensures
        is_entity_host_descriptor(d),
{
    let d = ComponentDescriptor::new(ComponentKind::EntityHost)
        .with_constructors(
            vec![
                ConstructorDescriptor::new(
                    "EntityHost",
                    vec![ArgumentDescriptor::new("entity_id", ArgumentSchema::String)],
                    ConstructorRule::NonBlankOnly {
                        error: "EntityHost expects a non-empty entity id",
                    },
                ),
            ],
        )
        .with_methods(
            vec![
                MethodDescriptor::new(
                    "render_entity",
                    vec![ArgumentDescriptor::new("callback", ArgumentSchema::Callback)],
                    MethodRule::Callback {
                        error: "EntityHost.render_entity(callback) expects a callback",
                    },
                ).with_documentation("Builds the subtree for the entity id."),
            ],
        )
        .with_documentation(
            "A retained managed entity subtree; `notify_entity` repaints it in place.",
        );
    proof {
        reveal(entity_host_constructors);
        assert(constructor_table(d.constructors@) =~~= entity_host_constructors());
        reveal(entity_host_methods);
        assert(method_table(d.methods@) =~~= entity_host_methods());
    }
    d
}

/// Registers `EntityHost` after the components already registered.
pub fn register(registry: &mut ComponentRegistry)
    requires
        !kinds(old(registry)@).contains(ComponentKind::EntityHost),
    ensures
        final(registry)@.len() == old(registry)@.len() + 1,
        final(registry)@.take(old(registry)@.len() as int) == old(registry)@,
        is_entity_host_descriptor(final(registry)@[old(registry)@.len() as int]),
{
    let ghost start = registry@;
    let entity_host = entity_host_descriptor();
    let entity_host_registered = registry.register(entity_host);
    proof {
        assert(entity_host_registered is Ok);
    }
    proof {
        assert(registry@.take(start.len() as int) =~= start);
    }
}

} // verus!
