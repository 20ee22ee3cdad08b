//! The `Image` component: its descriptor and its registration.

use vstd::prelude::*;
use crate::registry::{
    constructor_table, kinds, method_table, ArgumentDescriptor, ArgumentSchema, ComponentDescriptor,
    ComponentKind, ComponentRegistry, ConstructorDescriptor, ConstructorRow, MethodDescriptor,
    MethodRow,
};
use crate::rules::{ChoiceList, ConstructorRule, MethodRule};

verus! {

/// The constructors of `Image`: export name, argument slots and rule.
#[verifier::opaque]
pub open spec fn image_constructors() -> Seq<ConstructorRow> {
    seq![
        (
            "Image"@,
            seq![("source"@, ArgumentSchema::String)],
            ConstructorRule::NonBlankOnly { error: "Image expects a non-empty source path" },
        ),
    ]
}

/// The methods of `Image`: name, argument slots, rule and documentation.
#[verifier::opaque]
pub open spec fn image_methods() -> Seq<MethodRow> {
    seq![
        (
            "fit"@,
            seq![("fit"@, ArgumentSchema::Enum(ChoiceList::ImageFit))],
            MethodRule::Choice {
                list: ChoiceList::ImageFit,
                any_text: false,
                unsupported: "unsupported Image fit `",
                echo: true,
                error: "Image.fit expects a fit literal",
                arity: "Image.fit expects a fit literal",
            },
            "Sets the object-fit mode."@,
        ),
    ]
}

/// Whether `d` is the `Image` descriptor: its constructors, methods and documentation.
pub open spec fn is_image_descriptor(d: ComponentDescriptor) -> bool {
    &&& d.kind == ComponentKind::Image
    &&& d.documentation@ == "An image or SVG loaded from the asset source by path; size and radius come from style."@
    &&& constructor_table(d.constructors@) == image_constructors()
    &&& method_table(d.methods@) == image_methods()
}

fn image_descriptor() -> (d: ComponentDescriptor)
    ensures
        is_image_descriptor(d),
{
    let d = ComponentDescriptor::new(ComponentKind::Image)
        .with_constructors(
            vec![
                ConstructorDescriptor::new(
                    "Image",
                    vec![ArgumentDescriptor::new("source", ArgumentSchema::String)],
                    ConstructorRule::NonBlankOnly {
                        error: "Image expects a non-empty source path",
                    },
                ),
            ],
        )
        .with_methods(
            vec![
                MethodDescriptor::new(
                    "fit",
                    vec![
                        ArgumentDescriptor::new("fit", ArgumentSchema::Enum(ChoiceList::ImageFit)),
                    ],
                    MethodRule::Choice {
                        list: ChoiceList::ImageFit,
                        any_text: false,
                        unsupported: "unsupported Image fit `",
                        echo: true,
                        error: "Image.fit expects a fit literal",
                        arity: "Image.fit expects a fit literal",
                    },
                ).with_documentation("Sets the object-fit mode."),
            ],
        )
        .with_documentation(
            "An image or SVG loaded from the asset source by path; size and radius come from style.",
        );
    proof {
        reveal(image_constructors);
        assert(constructor_table(d.constructors@) =~~= image_constructors());
        reveal(image_methods);
        assert(method_table(d.methods@) =~~= image_methods());
    }
    d
}

/// Registers `Image` after the components already registered.
pub fn register(registry: &mut ComponentRegistry)
    requires
        !kinds(old(registry)@).contains(ComponentKind::Image),
    ensures
        final(registry)@.len() == old(registry)@.len() + 1,
        final(registry)@.take(old(registry)@.len() as int) == old(registry)@,
        is_image_descriptor(final(registry)@[old(registry)@.len() as int]),
{
    let ghost start = registry@;
    let image = image_descriptor();
    let image_registered = registry.register(image);
    proof {
        assert(image_registered is Ok);
    }
    proof {
        assert(registry@.take(start.len() as int) =~= start);
    }
}

} // verus!
