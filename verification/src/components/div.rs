//! The `Div` component: its descriptor and its registration.

use vstd::prelude::*;
use crate::registry::{
    constructor_table, kinds, method_table, ArgumentDescriptor, ArgumentSchema, ComponentDescriptor,
    ComponentKind, ComponentRegistry, ConstructorDescriptor, ConstructorRow, MethodDescriptor,
    MethodRow,
};
use crate::rules::{ConstructorRule, MethodRule};
use crate::calls::{calls_view, first_call, first_payload, MethodCall};
use crate::rules::{ComponentPayload, Payload};

verus! {

/// The message a `Div` with an id-keyed handler and no usable id is refused
/// with.
pub open spec fn missing_element_id_message() -> Seq<char> {
    "a Div click, aux-click, or hover handler needs a stable element id"@
}

/// The id the first `element_id` call gave, when it is not empty.
pub open spec fn stable_element_id(calls: Seq<(Seq<char>, Payload)>) -> Option<Seq<char>> {
    match first_call(calls, "element_id"@) {
        Some(Payload::Text(id)) => if id.len() > 0 {
            Some(id)
        } else {
            None
        },
        _ => None,
    }
}

/// The element id a `Div` needs for click, aux-click or hover handlers: the
/// first `element_id` call's, which must not be empty.
pub fn stateful_id(calls: &Vec<MethodCall>) -> (r: Result<String, String>)
    ensures
        match r {
            Ok(id) => stable_element_id(calls_view(calls@)) == Some(id@),
            Err(m) => stable_element_id(calls_view(calls@)) is None
                && m@ == missing_element_id_message(),
        },
{
    if let Some(ComponentPayload::Text(id)) = first_payload(calls, "element_id") {
        if id.as_str().unicode_len() > 0 {
            return Ok(String::from_str(id.as_str()));
        }
    }
    proof {
        reveal_strlit("a Div click, aux-click, or hover handler needs a stable element id");
    }
    Err(String::from_str("a Div click, aux-click, or hover handler needs a stable element id"))
}

/// The constructors of `Div`: export name, argument slots and rule.
#[verifier::opaque]
pub open spec fn div_constructors() -> Seq<ConstructorRow> {
    seq![("Div"@, seq![], ConstructorRule::Unit)]
}

/// The methods of `Div`: name, argument slots, rule and documentation.
#[verifier::opaque]
pub open spec fn div_methods() -> Seq<MethodRow> {
    seq![
        (
            "element_id"@,
            seq![("id"@, ArgumentSchema::String)],
            MethodRule::Text {
                error: "Div.element_id(id) expects a string",
                arity: "Div.element_id(id) expects a string",
            },
            "Stable identity GPUI keys a Div's element-event state by across frames."@,
        ),
    ]
}

/// Whether `d` is the `Div` descriptor: its constructors, methods and documentation.
pub open spec fn is_div_descriptor(d: ComponentDescriptor) -> bool {
    &&& d.kind == ComponentKind::Div
    &&& d.documentation@ == "A plain container; styling and children are the shell's."@
    &&& constructor_table(d.constructors@) == div_constructors()
    &&& method_table(d.methods@) == div_methods()
}

fn div_descriptor() -> (d: ComponentDescriptor)
    ensures
        is_div_descriptor(d),
{
    let d = ComponentDescriptor::new(ComponentKind::Div)
        .with_constructors(
            vec![ConstructorDescriptor::new("Div", Vec::new(), ConstructorRule::Unit)],
        )
        .with_methods(
            vec![
                MethodDescriptor::new(
                    "element_id",
                    vec![ArgumentDescriptor::new("id", ArgumentSchema::String)],
                    MethodRule::Text {
                        error: "Div.element_id(id) expects a string",
                        arity: "Div.element_id(id) expects a string",
                    },
                ).with_documentation(
                    "Stable identity GPUI keys a Div's element-event state by across frames.",
                ),
            ],
        )
        .with_documentation("A plain container; styling and children are the shell's.");
    proof {
        reveal(div_constructors);
        assert(constructor_table(d.constructors@) =~~= div_constructors());
        reveal(div_methods);
        assert(method_table(d.methods@) =~~= div_methods());
    }
    d
}

/// Registers `Div` after the components already registered.
pub fn register(registry: &mut ComponentRegistry)
    requires
        !kinds(old(registry)@).contains(ComponentKind::Div),
    ensures
        final(registry)@.len() == old(registry)@.len() + 1,
        final(registry)@.take(old(registry)@.len() as int) == old(registry)@,
        is_div_descriptor(final(registry)@[old(registry)@.len() as int]),
{
    let ghost start = registry@;
    let div = div_descriptor();
    let div_registered = registry.register(div);
    proof {
        assert(div_registered is Ok);
    }
    proof {
        assert(registry@.take(start.len() as int) =~= start);
    }
}

} // verus!
