//! The `Avatar` component: its descriptor and its registration.

use vstd::prelude::*;
use crate::registry::{kinds, ComponentDescriptor, ComponentKind, ComponentRegistry};

verus! {

/// Whether `d` is the `Avatar` descriptor: a bare entry of the catalog, with no constructor, method
/// or documentation.
pub open spec fn is_avatar_descriptor(d: ComponentDescriptor) -> bool {
    &&& d.kind == ComponentKind::Avatar
    &&& d.documentation@ == Seq::<char>::empty()
    &&& d.constructors@.len() == 0
    &&& d.methods@.len() == 0
}

fn avatar_descriptor() -> (d: ComponentDescriptor)
    ensures
        is_avatar_descriptor(d),
{
    ComponentDescriptor::new(ComponentKind::Avatar)
}

/// Registers `Avatar` after the components already registered.
pub fn register(registry: &mut ComponentRegistry)
    requires
        !kinds(old(registry)@).contains(ComponentKind::Avatar),
    ensures
        final(registry)@.len() == old(registry)@.len() + 1,
        final(registry)@.take(old(registry)@.len() as int) == old(registry)@,
        is_avatar_descriptor(final(registry)@[old(registry)@.len() as int]),
{
    let ghost start = registry@;
    let avatar = avatar_descriptor();
    let avatar_registered = registry.register(avatar);
    proof {
        assert(avatar_registered is Ok);
    }
    proof {
        assert(registry@.take(start.len() as int) =~= start);
    }
}

} // verus!
