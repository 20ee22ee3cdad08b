//! The `Skeleton` component: its descriptor and its registration.

use vstd::prelude::*;
use crate::registry::{
    constructor_table, kinds, method_table, ComponentDescriptor, ComponentKind, ComponentRegistry,
    ConstructorDescriptor, ConstructorRow, MethodDescriptor, MethodRow,
};
use crate::rules::{ConstructorRule, MethodRule};
use crate::rules::ComponentPayload;

verus! {

/// Checks the payload a `Skeleton` is built from: the one its constructor
/// records, which carries nothing.
pub fn skeleton_input(payload: &ComponentPayload) -> (r: Result<(), String>)
    ensures
        r is Ok <==> payload@ is Unit,
        !(payload@ is Unit) ==> (r matches Err(m) && m@
            == "Skeleton received an incompatible payload"@),
{
    match payload {
        ComponentPayload::Unit => Ok(()),
        _ => Err(String::from_str("Skeleton received an incompatible payload")),
    }
}

/// The constructors of `Skeleton`: export name, argument slots and rule.
#[verifier::opaque]
pub open spec fn skeleton_constructors() -> Seq<ConstructorRow> {
    seq![("Skeleton"@, seq![], ConstructorRule::Unit)]
}

/// The methods of `Skeleton`: name, argument slots, rule and documentation.
#[verifier::opaque]
pub open spec fn skeleton_methods() -> Seq<MethodRow> {
    seq![("secondary"@, seq![], MethodRule::Unit, "Uses the secondary skeleton color."@)]
}

/// Whether `d` is the `Skeleton` descriptor: its constructors, methods and documentation.
pub open spec fn is_skeleton_descriptor(d: ComponentDescriptor) -> bool {
    &&& d.kind == ComponentKind::Skeleton
    &&& d.documentation@ == "An animated loading placeholder."@
    &&& constructor_table(d.constructors@) == skeleton_constructors()
    &&& method_table(d.methods@) == skeleton_methods()
}

fn skeleton_descriptor() -> (d: ComponentDescriptor)
    ensures
        is_skeleton_descriptor(d),
{
    let d = ComponentDescriptor::new(ComponentKind::Skeleton)
        .with_constructors(
            vec![ConstructorDescriptor::new("Skeleton", Vec::new(), ConstructorRule::Unit)],
        )
        .with_methods(
            vec![
                MethodDescriptor::new(
                    "secondary",
                    Vec::new(),
                    MethodRule::Unit,
                ).with_documentation("Uses the secondary skeleton color."),
            ],
        )
        .with_documentation("An animated loading placeholder.");
    proof {
        reveal(skeleton_constructors);
        assert(constructor_table(d.constructors@) =~~= skeleton_constructors());
        reveal(skeleton_methods);
        assert(method_table(d.methods@) =~~= skeleton_methods());
    }
    d
}

/// Registers `Skeleton` after the components already registered.
pub fn register(registry: &mut ComponentRegistry)
    requires
        !kinds(old(registry)@).contains(ComponentKind::Skeleton),
    ensures
        final(registry)@.len() == old(registry)@.len() + 1,
        final(registry)@.take(old(registry)@.len() as int) == old(registry)@,
        is_skeleton_descriptor(final(registry)@[old(registry)@.len() as int]),
{
    let ghost start = registry@;
    let skeleton = skeleton_descriptor();
    let skeleton_registered = registry.register(skeleton);
    proof {
        assert(skeleton_registered is Ok);
    }
    proof {
        assert(registry@.take(start.len() as int) =~= start);
    }
}

} // verus!
