//! The `StatusBar` component: its descriptor and its registration.

use vstd::prelude::*;
use crate::registry::{
    constructor_table, kinds, method_table, ArgumentDescriptor, ArgumentSchema, ComponentDescriptor,
    ComponentKind, ComponentRegistry, ConstructorDescriptor, ConstructorRow, MethodDescriptor,
    MethodRow,
};
use crate::rules::{ConstructorRule, MethodRule};
use crate::calls::{calls_view, elements, elements_of, MethodCall};
use crate::rules::ComponentPayload;

verus! {

/// The elements pinned to the edges of a `StatusBar`.
pub struct StatusBarSides {
    pub left: Vec<u64>,
    pub right: Vec<u64>,
}

/// Every `left_content` and `right_content` element, each side in call order.
pub fn status_bar_sides(calls: &Vec<MethodCall>) -> (sides: StatusBarSides)
    ensures
        sides.left@ == elements_of(calls_view(calls@), "left_content"@),
        sides.right@ == elements_of(calls_view(calls@), "right_content"@),
{
    StatusBarSides {
        left: elements(calls, "left_content"),
        right: elements(calls, "right_content"),
    }
}

/// Checks the payload a `StatusBar` is built from: the one its constructor
/// records, which carries nothing.
pub fn status_bar_input(payload: &ComponentPayload) -> (r: Result<(), String>)
    ensures
        r is Ok <==> payload@ is Unit,
        !(payload@ is Unit) ==> (r matches Err(m) && m@
            == "StatusBar received an incompatible payload"@),
{
    match payload {
        ComponentPayload::Unit => Ok(()),
        _ => Err(String::from_str("StatusBar received an incompatible payload")),
    }
}

/// The constructors of `StatusBar`: export name, argument slots and rule.
#[verifier::opaque]
pub open spec fn status_bar_constructors() -> Seq<ConstructorRow> {
    seq![("StatusBar"@, seq![], ConstructorRule::Unit)]
}

/// The methods of `StatusBar`: name, argument slots, rule and documentation.
#[verifier::opaque]
pub open spec fn status_bar_methods() -> Seq<MethodRow> {
    seq![
        (
            "left_content"@,
            seq![("element"@, ArgumentSchema::Element)],
            MethodRule::Element { error: "StatusBar.left_content(element) expects an element" },
            "Appends content to the leading region."@,
        ),
        (
            "right_content"@,
            seq![("element"@, ArgumentSchema::Element)],
            MethodRule::Element { error: "StatusBar.right_content(element) expects an element" },
            "Appends content to the trailing region."@,
        ),
    ]
}

/// Whether `d` is the `StatusBar` descriptor: its constructors, methods and documentation.
pub open spec fn is_status_bar_descriptor(d: ComponentDescriptor) -> bool {
    &&& d.kind == ComponentKind::StatusBar
    &&& d.documentation@ == "A three-region status bar; ordinary children fill the center and the `left_content`/`right_content` elements pin content to each edge."@
    &&& constructor_table(d.constructors@) == status_bar_constructors()
    &&& method_table(d.methods@) == status_bar_methods()
}

fn status_bar_descriptor() -> (d: ComponentDescriptor)
    ensures
        is_status_bar_descriptor(d),
{
    let d = ComponentDescriptor::new(ComponentKind::StatusBar)
        .with_constructors(
            vec![ConstructorDescriptor::new("StatusBar", Vec::new(), ConstructorRule::Unit)],
        )
        .with_methods(
            vec![
                MethodDescriptor::new(
                    "left_content",
                    vec![ArgumentDescriptor::new("element", ArgumentSchema::Element)],
                    MethodRule::Element {
                        error: "StatusBar.left_content(element) expects an element",
                    },
                ).with_documentation("Appends content to the leading region."),
                MethodDescriptor::new(
                    "right_content",
                    vec![ArgumentDescriptor::new("element", ArgumentSchema::Element)],
                    MethodRule::Element {
                        error: "StatusBar.right_content(element) expects an element",
                    },
                ).with_documentation("Appends content to the trailing region."),
            ],
        )
        .with_documentation(
            "A three-region status bar; ordinary children fill the center and the `left_content`/`right_content` elements pin content to each edge.",
        );
    proof {
        reveal(status_bar_constructors);
        assert(constructor_table(d.constructors@) =~~= status_bar_constructors());
        reveal(status_bar_methods);
        assert(method_table(d.methods@) =~~= status_bar_methods());
    }
    d
}

/// Registers `StatusBar` after the components already registered.
pub fn register(registry: &mut ComponentRegistry)
    requires
        !kinds(old(registry)@).contains(ComponentKind::StatusBar),
    ensures
        final(registry)@.len() == old(registry)@.len() + 1,
        final(registry)@.take(old(registry)@.len() as int) == old(registry)@,
        is_status_bar_descriptor(final(registry)@[old(registry)@.len() as int]),
{
    let ghost start = registry@;
    let status_bar = status_bar_descriptor();
    let status_bar_registered = registry.register(status_bar);
    proof {
        assert(status_bar_registered is Ok);
    }
    proof {
        assert(registry@.take(start.len() as int) =~= start);
    }
}

} // verus!
