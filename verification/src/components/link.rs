//! The `Link` component: its descriptor and its registration.

use vstd::prelude::*;
use crate::registry::{
    constructor_table, kinds, method_table, ArgumentDescriptor, ArgumentSchema, ComponentDescriptor,
    ComponentKind, ComponentRegistry, ConstructorDescriptor, ConstructorRow, MethodDescriptor,
    MethodRow,
};
use crate::rules::{ConstructorRule, MethodRule};

verus! {

/// The constructors of `Link`: export name, argument slots and rule.
#[verifier::opaque]
pub open spec fn link_constructors() -> Seq<ConstructorRow> {
    seq![
        (
            "Link"@,
            seq![("id"@, ArgumentSchema::String)],
            ConstructorRule::NonEmpty { export: "Link", error: "Link expects one string id" },
        ),
    ]
}

/// The methods of `Link`: name, argument slots, rule and documentation.
#[verifier::opaque]
pub open spec fn link_methods() -> Seq<MethodRow> {
    seq![
        (
            "href"@,
            seq![("href"@, ArgumentSchema::String)],
            MethodRule::Text {
                error: "Link.href expects one URL string",
                arity: "Link.href expects one URL string",
            },
            "Sets the external URL opened when activated."@,
        ),
    ]
}

/// Whether `d` is the `Link` descriptor: its constructors, methods and documentation.
pub open spec fn is_link_descriptor(d: ComponentDescriptor) -> bool {
    &&& d.kind == ComponentKind::Link
    &&& d.documentation@ == "An external-resource link. Shell disabled, children, style, and on_click are honored."@
    &&& constructor_table(d.constructors@) == link_constructors()
    &&& method_table(d.methods@) == link_methods()
}

fn link_descriptor() -> (d: ComponentDescriptor)
    ensures
        is_link_descriptor(d),
{
    let d = ComponentDescriptor::new(ComponentKind::Link)
        .with_constructors(
            vec![
                ConstructorDescriptor::new(
                    "Link",
                    vec![ArgumentDescriptor::new("id", ArgumentSchema::String)],
                    ConstructorRule::NonEmpty {
                        export: "Link",
                        error: "Link expects one string id",
                    },
                ),
            ],
        )
        .with_methods(
            vec![
                MethodDescriptor::new(
                    "href",
                    vec![ArgumentDescriptor::new("href", ArgumentSchema::String)],
                    MethodRule::Text {
                        error: "Link.href expects one URL string",
                        arity: "Link.href expects one URL string",
                    },
                ).with_documentation("Sets the external URL opened when activated."),
            ],
        )
        .with_documentation(
            "An external-resource link. Shell disabled, children, style, and on_click are honored.",
        );
    proof {
        reveal(link_constructors);
        assert(constructor_table(d.constructors@) =~~= link_constructors());
        reveal(link_methods);
        assert(method_table(d.methods@) =~~= link_methods());
    }
    d
}

/// Registers `Link` after the components already registered.
pub fn register(registry: &mut ComponentRegistry)
    requires
        !kinds(old(registry)@).contains(ComponentKind::Link),
    ensures
        final(registry)@.len() == old(registry)@.len() + 1,
        final(registry)@.take(old(registry)@.len() as int) == old(registry)@,
        is_link_descriptor(final(registry)@[old(registry)@.len() as int]),
{
    let ghost start = registry@;
    let link = link_descriptor();
    let link_registered = registry.register(link);
    proof {
        assert(link_registered is Ok);
    }
    proof {
        assert(registry@.take(start.len() as int) =~= start);
    }
}

} // verus!
