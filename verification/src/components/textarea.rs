//! The `Textarea` component: its descriptor and its registration.

use vstd::prelude::*;
use crate::registry::{kinds, ComponentDescriptor, ComponentKind, ComponentRegistry};

verus! {

/// Whether `d` is the `Textarea` descriptor: a bare entry of the catalog, with no constructor,
/// method or documentation.
pub open spec fn is_textarea_descriptor(d: ComponentDescriptor) -> bool {
    &&& d.kind == ComponentKind::Textarea
    &&& d.documentation@ == Seq::<char>::empty()
    &&& d.constructors@.len() == 0
    &&& d.methods@.len() == 0
}

fn textarea_descriptor() -> (d: ComponentDescriptor)
    ensures
        is_textarea_descriptor(d),
{
    ComponentDescriptor::new(ComponentKind::Textarea)
}

/// Registers `Textarea` after the components already registered.
pub fn register(registry: &mut ComponentRegistry)
    requires
        !kinds(old(registry)@).contains(ComponentKind::Textarea),
    ensures
        final(registry)@.len() == old(registry)@.len() + 1,
        final(registry)@.take(old(registry)@.len() as int) == old(registry)@,
        is_textarea_descriptor(final(registry)@[old(registry)@.len() as int]),
{
    let ghost start = registry@;
    let textarea = textarea_descriptor();
    let textarea_registered = registry.register(textarea);
    proof {
        assert(textarea_registered is Ok);
    }
    proof {
        assert(registry@.take(start.len() as int) =~= start);
    }
}

} // verus!
