//! The `Icon` component: its descriptor and its registration.

use vstd::prelude::*;
use crate::registry::{kinds, ComponentDescriptor, ComponentKind, ComponentRegistry};

verus! {

/// Whether `d` is the `Icon` descriptor: a bare entry of the catalog, with no constructor, method
/// or documentation.
pub open spec fn is_icon_descriptor(d: ComponentDescriptor) -> bool {
    &&& d.kind == ComponentKind::Icon
    &&& d.documentation@ == Seq::<char>::empty()
    &&& d.constructors@.len() == 0
    &&& d.methods@.len() == 0
}

fn icon_descriptor() -> (d: ComponentDescriptor)
    ensures
        is_icon_descriptor(d),
{
    ComponentDescriptor::new(ComponentKind::Icon)
}

/// Registers `Icon` after the components already registered.
pub fn register(registry: &mut ComponentRegistry)
    requires
        !kinds(old(registry)@).contains(ComponentKind::Icon),
    ensures
        final(registry)@.len() == old(registry)@.len() + 1,
        final(registry)@.take(old(registry)@.len() as int) == old(registry)@,
        is_icon_descriptor(final(registry)@[old(registry)@.len() as int]),
{
    let ghost start = registry@;
    let icon = icon_descriptor();
    let icon_registered = registry.register(icon);
    proof {
        assert(icon_registered is Ok);
    }
    proof {
        assert(registry@.take(start.len() as int) =~= start);
    }
}

} // verus!
