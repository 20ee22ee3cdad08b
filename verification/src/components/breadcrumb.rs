//! The `Breadcrumb` component: its descriptor and its registration.

use vstd::prelude::*;
use crate::registry::{
    constructor_table, kinds, ArgumentDescriptor, ArgumentSchema, ComponentDescriptor,
    ComponentKind, ComponentRegistry, ConstructorDescriptor, ConstructorRow,
};
use crate::rules::ConstructorRule;
use crate::rules::{ComponentPayload, Payload};
use crate::calls::copy_lines;
use crate::text::strings_view;

verus! {

/// The labels a `Breadcrumb` is built from: its payload must be the lines its
/// constructor records.
pub fn breadcrumb_input(payload: &ComponentPayload) -> (r: Result<Vec<String>, String>)
    ensures
        match payload@ {
            Payload::Lines(labels) => r matches Ok(v) && strings_view(v@) == labels,
            _ => r matches Err(m) && m@ == "Breadcrumb received an incompatible payload"@,
        },
{
    match payload {
        ComponentPayload::Lines(labels) => Ok(copy_lines(labels)),
        _ => Err(String::from_str("Breadcrumb received an incompatible payload")),
    }
}

/// The constructors of `Breadcrumb`: export name, argument slots and rule.
#[verifier::opaque]
pub open spec fn breadcrumb_constructors() -> Seq<ConstructorRow> {
    seq![
        (
            "Breadcrumb"@,
            seq![("labels"@, ArgumentSchema::String)],
            ConstructorRule::Labels {
                error: "Breadcrumb(labels) expects a newline-separated string",
            },
        ),
    ]
}

/// Whether `d` is the `Breadcrumb` descriptor: its constructors, methods and documentation.
pub open spec fn is_breadcrumb_descriptor(d: ComponentDescriptor) -> bool {
    &&& d.kind == ComponentKind::Breadcrumb
    &&& d.documentation@ == "A navigation trail built from an ordered, newline-separated list of labels."@
    &&& constructor_table(d.constructors@) == breadcrumb_constructors()
    &&& d.methods@.len() == 0
}

fn breadcrumb_descriptor() -> (d: ComponentDescriptor)
    ensures
        is_breadcrumb_descriptor(d),
{
    let d = ComponentDescriptor::new(ComponentKind::Breadcrumb)
        .with_constructors(
            vec![
                ConstructorDescriptor::new(
                    "Breadcrumb",
                    vec![ArgumentDescriptor::new("labels", ArgumentSchema::String)],
                    ConstructorRule::Labels {
                        error: "Breadcrumb(labels) expects a newline-separated string",
                    },
                ),
            ],
        )
        .with_documentation(
            "A navigation trail built from an ordered, newline-separated list of labels.",
        );
    proof {
        reveal(breadcrumb_constructors);
        assert(constructor_table(d.constructors@) =~~= breadcrumb_constructors());
    }
    d
}

/// Registers `Breadcrumb` after the components already registered.
pub fn register(registry: &mut ComponentRegistry)
    requires
        !kinds(old(registry)@).contains(ComponentKind::Breadcrumb),
    ensures
        final(registry)@.len() == old(registry)@.len() + 1,
        final(registry)@.take(old(registry)@.len() as int) == old(registry)@,
        is_breadcrumb_descriptor(final(registry)@[old(registry)@.len() as int]),
{
    let ghost start = registry@;
    let breadcrumb = breadcrumb_descriptor();
    let breadcrumb_registered = registry.register(breadcrumb);
    proof {
        assert(breadcrumb_registered is Ok);
    }
    proof {
        assert(registry@.take(start.len() as int) =~= start);
    }
}

} // verus!
