//! The `Spinner` component: its descriptor and its registration.

use vstd::prelude::*;
use crate::registry::{kinds, ComponentDescriptor, ComponentKind, ComponentRegistry};

verus! {

/// Whether `d` is the `Spinner` descriptor: a bare entry of the catalog, with no constructor,
/// method or documentation.
pub open spec fn is_spinner_descriptor(d: ComponentDescriptor) -> bool {
    &&& d.kind == ComponentKind::Spinner
    &&& d.documentation@ == Seq::<char>::empty()
    &&& d.constructors@.len() == 0
    &&& d.methods@.len() == 0
}

fn spinner_descriptor() -> (d: ComponentDescriptor)
    ensures
        is_spinner_descriptor(d),
{
    ComponentDescriptor::new(ComponentKind::Spinner)
}

/// Registers `Spinner` after the components already registered.
pub fn register(registry: &mut ComponentRegistry)
    requires
        !kinds(old(registry)@).contains(ComponentKind::Spinner),
    ensures
        final(registry)@.len() == old(registry)@.len() + 1,
        final(registry)@.take(old(registry)@.len() as int) == old(registry)@,
        is_spinner_descriptor(final(registry)@[old(registry)@.len() as int]),
{
    let ghost start = registry@;
    let spinner = spinner_descriptor();
    let spinner_registered = registry.register(spinner);
    proof {
        assert(spinner_registered is Ok);
    }
    proof {
        assert(registry@.take(start.len() as int) =~= start);
    }
}

} // verus!
