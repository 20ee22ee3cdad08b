//! The `Tooltip` component: its descriptor and its registration.

use vstd::prelude::*;
use crate::registry::{kinds, ComponentDescriptor, ComponentKind, ComponentRegistry};

verus! {

/// Whether `d` is the `Tooltip` descriptor: a bare entry of the catalog, with no constructor,
/// method or documentation.
pub open spec fn is_tooltip_descriptor(d: ComponentDescriptor) -> bool {
    &&& d.kind == ComponentKind::Tooltip
    &&& d.documentation@ == Seq::<char>::empty()
    &&& d.constructors@.len() == 0
    &&& d.methods@.len() == 0
}

fn tooltip_descriptor() -> (d: ComponentDescriptor)
    ensures
        is_tooltip_descriptor(d),
{
    ComponentDescriptor::new(ComponentKind::Tooltip)
}

/// Registers `Tooltip` after the components already registered.
pub fn register(registry: &mut ComponentRegistry)
    requires
        !kinds(old(registry)@).contains(ComponentKind::Tooltip),
    ensures
        final(registry)@.len() == old(registry)@.len() + 1,
        final(registry)@.take(old(registry)@.len() as int) == old(registry)@,
        is_tooltip_descriptor(final(registry)@[old(registry)@.len() as int]),
{
    let ghost start = registry@;
    let tooltip = tooltip_descriptor();
    let tooltip_registered = registry.register(tooltip);
    proof {
        assert(tooltip_registered is Ok);
    }
    proof {
        assert(registry@.take(start.len() as int) =~= start);
    }
}

} // verus!
