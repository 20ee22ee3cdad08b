//! The `Text` component: its descriptor and its registration.

use vstd::prelude::*;
use crate::registry::{
    constructor_table, kinds, ArgumentDescriptor, ArgumentSchema, ComponentDescriptor,
    ComponentKind, ComponentRegistry, ConstructorDescriptor, ConstructorRow,
};
use crate::rules::ConstructorRule;

verus! {

/// The constructors of `Text`: export name, argument slots and rule.
#[verifier::opaque]
pub open spec fn text_constructors() -> Seq<ConstructorRow> {
    seq![
        (
            "Text"@,
            seq![("value"@, ArgumentSchema::String)],
            ConstructorRule::Text { error: "Text(value) expects one string" },
        ),
    ]
}

/// Whether `d` is the `Text` descriptor: its constructors, methods and documentation.
pub open spec fn is_text_descriptor(d: ComponentDescriptor) -> bool {
    &&& d.kind == ComponentKind::Text
    &&& d.documentation@ == "Plain gpui-component Text content in a styleable shell wrapper. Text accepts no children."@
    &&& constructor_table(d.constructors@) == text_constructors()
    &&& d.methods@.len() == 0
}

fn text_descriptor() -> (d: ComponentDescriptor)
    ensures
        is_text_descriptor(d),
{
    let d = ComponentDescriptor::new(ComponentKind::Text)
        .with_constructors(
            vec![
                ConstructorDescriptor::new(
                    "Text",
                    vec![ArgumentDescriptor::new("value", ArgumentSchema::String)],
                    ConstructorRule::Text { error: "Text(value) expects one string" },
                ),
            ],
        )
        .with_documentation(
            "Plain gpui-component Text content in a styleable shell wrapper. Text accepts no children.",
        );
    proof {
        reveal(text_constructors);
        assert(constructor_table(d.constructors@) =~~= text_constructors());
    }
    d
}

/// Registers `Text` after the components already registered.
pub fn register(registry: &mut ComponentRegistry)
    requires
        !kinds(old(registry)@).contains(ComponentKind::Text),
    ensures
        final(registry)@.len() == old(registry)@.len() + 1,
        final(registry)@.take(old(registry)@.len() as int) == old(registry)@,
        is_text_descriptor(final(registry)@[old(registry)@.len() as int]),
{
    let ghost start = registry@;
    let text = text_descriptor();
    let text_registered = registry.register(text);
    proof {
        assert(text_registered is Ok);
    }
    proof {
        assert(registry@.take(start.len() as int) =~= start);
    }
}

} // verus!
