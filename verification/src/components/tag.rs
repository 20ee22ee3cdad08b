//! The `Tag` component: its descriptor and its registration.

use vstd::prelude::*;
use crate::registry::{
    constructor_table, kinds, method_table, ArgumentDescriptor, ArgumentSchema, ComponentDescriptor,
    ComponentKind, ComponentRegistry, ConstructorDescriptor, ConstructorRow, MethodDescriptor,
    MethodRow,
};
use crate::rules::{ChoiceList, ConstructorRule, MethodRule};

verus! {

/// The constructors of `Tag`: export name, argument slots and rule.
#[verifier::opaque]
pub open spec fn tag_constructors() -> Seq<ConstructorRow> {
    seq![("Tag"@, seq![], ConstructorRule::Unit)]
}

/// The methods of `Tag`: name, argument slots, rule and documentation.
#[verifier::opaque]
pub open spec fn tag_methods() -> Seq<MethodRow> {
    seq![
        (
            "variant"@,
            seq![("variant"@, ArgumentSchema::Enum(ChoiceList::TagVariant))],
            MethodRule::Choice {
                list: ChoiceList::TagVariant,
                any_text: false,
                unsupported: "unsupported Tag variant `",
                echo: true,
                error: "Tag.variant expects a supported variant",
                arity: "Tag.variant expects a supported variant",
            },
            "Sets the semantic tag variant."@,
        ),
        ("outline"@, seq![], MethodRule::Unit, "Uses the outline presentation."@),
        ("rounded_full"@, seq![], MethodRule::Unit, "Uses pill-shaped corners."@),
        (
            "size"@,
            seq![("size"@, ArgumentSchema::Enum(ChoiceList::Size))],
            MethodRule::Choice {
                list: ChoiceList::Size,
                any_text: false,
                unsupported: "unsupported Tag size `",
                echo: true,
                error: "Tag.size expects a semantic size literal",
                arity: "Tag.size expects a semantic size literal",
            },
            "Sets the semantic component size."@,
        ),
    ]
}

/// Whether `d` is the `Tag` descriptor: its constructors, methods and documentation.
pub open spec fn is_tag_descriptor(d: ComponentDescriptor) -> bool {
    &&& d.kind == ComponentKind::Tag
    &&& d.documentation@ == "A compact semantic status tag that renders ordinary children."@
    &&& constructor_table(d.constructors@) == tag_constructors()
    &&& method_table(d.methods@) == tag_methods()
}

fn tag_descriptor() -> (d: ComponentDescriptor)
    ensures
        is_tag_descriptor(d),
{
    let d = ComponentDescriptor::new(ComponentKind::Tag)
        .with_constructors(
            vec![ConstructorDescriptor::new("Tag", Vec::new(), ConstructorRule::Unit)],
        )
        .with_methods(
            vec![
                MethodDescriptor::new(
                    "variant",
                    vec![
                        ArgumentDescriptor::new(
                            "variant",
                            ArgumentSchema::Enum(ChoiceList::TagVariant),
                        ),
                    ],
                    MethodRule::Choice {
                        list: ChoiceList::TagVariant,
                        any_text: false,
                        unsupported: "unsupported Tag variant `",
                        echo: true,
                        error: "Tag.variant expects a supported variant",
                        arity: "Tag.variant expects a supported variant",
                    },
                ).with_documentation("Sets the semantic tag variant."),
                MethodDescriptor::new(
                    "outline",
                    Vec::new(),
                    MethodRule::Unit,
                ).with_documentation("Uses the outline presentation."),
                MethodDescriptor::new(
                    "rounded_full",
                    Vec::new(),
                    MethodRule::Unit,
                ).with_documentation("Uses pill-shaped corners."),
                MethodDescriptor::new(
                    "size",
                    vec![ArgumentDescriptor::new("size", ArgumentSchema::Enum(ChoiceList::Size))],
                    MethodRule::Choice {
                        list: ChoiceList::Size,
                        any_text: false,
                        unsupported: "unsupported Tag size `",
                        echo: true,
                        error: "Tag.size expects a semantic size literal",
                        arity: "Tag.size expects a semantic size literal",
                    },
                ).with_documentation("Sets the semantic component size."),
            ],
        )
        .with_documentation("A compact semantic status tag that renders ordinary children.");
    proof {
        reveal(tag_constructors);
        assert(constructor_table(d.constructors@) =~~= tag_constructors());
        reveal(tag_methods);
        assert(method_table(d.methods@) =~~= tag_methods());
    }
    d
}

/// Registers `Tag` after the components already registered.
pub fn register(registry: &mut ComponentRegistry)
    requires
        !kinds(old(registry)@).contains(ComponentKind::Tag),
    ensures
        final(registry)@.len() == old(registry)@.len() + 1,
        final(registry)@.take(old(registry)@.len() as int) == old(registry)@,
        is_tag_descriptor(final(registry)@[old(registry)@.len() as int]),
{
    let ghost start = registry@;
    let tag = tag_descriptor();
    let tag_registered = registry.register(tag);
    proof {
        assert(tag_registered is Ok);
    }
    proof {
        assert(registry@.take(start.len() as int) =~= start);
    }
}

} // verus!
