//! The `HoverCard` component: its descriptor and its registration.

use vstd::prelude::*;
use crate::registry::{kinds, ComponentDescriptor, ComponentKind, ComponentRegistry};

verus! {

/// Whether `d` is the `HoverCard` descriptor: a bare entry of the catalog, with no constructor,
/// method or documentation.
pub open spec fn is_hover_card_descriptor(d: ComponentDescriptor) -> bool {
    &&& d.kind == ComponentKind::HoverCard
    &&& d.documentation@ == Seq::<char>::empty()
    &&& d.constructors@.len() == 0
    &&& d.methods@.len() == 0
}

fn hover_card_descriptor() -> (d: ComponentDescriptor)
    ensures
        is_hover_card_descriptor(d),
{
    ComponentDescriptor::new(ComponentKind::HoverCard)
}

/// Registers `HoverCard` after the components already registered.
pub fn register(registry: &mut ComponentRegistry)
    requires
        !kinds(old(registry)@).contains(ComponentKind::HoverCard),
    ensures
        final(registry)@.len() == old(registry)@.len() + 1,
        final(registry)@.take(old(registry)@.len() as int) == old(registry)@,
        is_hover_card_descriptor(final(registry)@[old(registry)@.len() as int]),
{
    let ghost start = registry@;
    let hover_card = hover_card_descriptor();
    let hover_card_registered = registry.register(hover_card);
    proof {
        assert(hover_card_registered is Ok);
    }
    proof {
        assert(registry@.take(start.len() as int) =~= start);
    }
}

} // verus!
