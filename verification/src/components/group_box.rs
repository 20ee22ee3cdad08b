//! The `GroupBox` component: its descriptor and its registration.

use vstd::prelude::*;
use crate::registry::{kinds, ComponentDescriptor, ComponentKind, ComponentRegistry};

verus! {

/// Whether `d` is the `GroupBox` descriptor: a bare entry of the catalog, with no constructor,
/// method or documentation.
pub open spec fn is_group_box_descriptor(d: ComponentDescriptor) -> bool {
    &&& d.kind == ComponentKind::GroupBox
    &&& d.documentation@ == Seq::<char>::empty()
    &&& d.constructors@.len() == 0
    &&& d.methods@.len() == 0
}

fn group_box_descriptor() -> (d: ComponentDescriptor)
    ensures
        is_group_box_descriptor(d),
{
    ComponentDescriptor::new(ComponentKind::GroupBox)
}

/// Registers `GroupBox` after the components already registered.
pub fn register(registry: &mut ComponentRegistry)
    requires
        !kinds(old(registry)@).contains(ComponentKind::GroupBox),
    ensures
        final(registry)@.len() == old(registry)@.len() + 1,
        final(registry)@.take(old(registry)@.len() as int) == old(registry)@,
        is_group_box_descriptor(final(registry)@[old(registry)@.len() as int]),
{
    let ghost start = registry@;
    let group_box = group_box_descriptor();
    let group_box_registered = registry.register(group_box);
    proof {
        assert(group_box_registered is Ok);
    }
    proof {
        assert(registry@.take(start.len() as int) =~= start);
    }
}

} // verus!
