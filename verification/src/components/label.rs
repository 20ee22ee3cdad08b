//! The `Label` component: its descriptor and its registration.

use vstd::prelude::*;
use crate::registry::{
    constructor_table, kinds, ArgumentDescriptor, ArgumentSchema, ComponentDescriptor,
    ComponentKind, ComponentRegistry, ConstructorDescriptor, ConstructorRow,
};
use crate::rules::ConstructorRule;

verus! {

/// The constructors of `Label`: export name, argument slots and rule.
#[verifier::opaque]
pub open spec fn label_constructors() -> Seq<ConstructorRow> {
    seq![
        (
            "Label"@,
            seq![("value"@, ArgumentSchema::String)],
            ConstructorRule::Text { error: "Label(value) expects one string" },
        ),
    ]
}

/// Whether `d` is the `Label` descriptor: its constructors, methods and documentation.
pub open spec fn is_label_descriptor(d: ComponentDescriptor) -> bool {
    &&& d.kind == ComponentKind::Label
    &&& d.documentation@ == "A styled text label."@
    &&& constructor_table(d.constructors@) == label_constructors()
    &&& d.methods@.len() == 0
}

fn label_descriptor() -> (d: ComponentDescriptor)
    ensures
        is_label_descriptor(d),
{
    let d = ComponentDescriptor::new(ComponentKind::Label)
        .with_constructors(
            vec![
                ConstructorDescriptor::new(
                    "Label",
                    vec![ArgumentDescriptor::new("value", ArgumentSchema::String)],
                    ConstructorRule::Text { error: "Label(value) expects one string" },
                ),
            ],
        )
        .with_documentation("A styled text label.");
    proof {
        reveal(label_constructors);
        assert(constructor_table(d.constructors@) =~~= label_constructors());
    }
    d
}

/// Registers `Label` after the components already registered.
pub fn register(registry: &mut ComponentRegistry)
    requires
        !kinds(old(registry)@).contains(ComponentKind::Label),
    ensures
        final(registry)@.len() == old(registry)@.len() + 1,
        final(registry)@.take(old(registry)@.len() as int) == old(registry)@,
        is_label_descriptor(final(registry)@[old(registry)@.len() as int]),
{
    let ghost start = registry@;
    let label = label_descriptor();
    let label_registered = registry.register(label);
    proof {
        assert(label_registered is Ok);
    }
    proof {
        assert(registry@.take(start.len() as int) =~= start);
    }
}

} // verus!
