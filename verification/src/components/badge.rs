//! The `Badge` component: its descriptor and its registration.

use vstd::prelude::*;
use crate::registry::{
    constructor_table, kinds, method_table, ArgumentDescriptor, ArgumentSchema, ComponentDescriptor,
    ComponentKind, ComponentRegistry, ConstructorDescriptor, ConstructorRow, MethodDescriptor,
    MethodRow,
};
use crate::rules::{ChoiceList, ConstructorRule, MethodRule, TextParser};

verus! {

/// The constructors of `Badge`: export name, argument slots and rule.
#[verifier::opaque]
pub open spec fn badge_constructors() -> Seq<ConstructorRow> {
    seq![("Badge"@, seq![], ConstructorRule::Unit)]
}

/// The methods of `Badge`: name, argument slots, rule and documentation.
#[verifier::opaque]
pub open spec fn badge_methods() -> Seq<MethodRow> {
    seq![
        ("dot"@, seq![], MethodRule::Unit, "Displays a dot instead of a numeric count."@),
        (
            "count"@,
            seq![("count"@, ArgumentSchema::Number)],
            MethodRule::Natural {
                positive: false,
                max: u64::MAX,
                label: "Badge.count",
                too_large: "Badge.count expects a non-negative integer",
                not_number: "Badge.count expects a non-negative integer",
                arity: "Badge.count expects a non-negative integer",
            },
            "Sets the displayed count; zero hides a numeric badge."@,
        ),
        (
            "max"@,
            seq![("max"@, ArgumentSchema::Number)],
            MethodRule::Natural {
                positive: false,
                max: u64::MAX,
                label: "Badge.max",
                too_large: "Badge.max expects a non-negative integer",
                not_number: "Badge.max expects a non-negative integer",
                arity: "Badge.max expects a non-negative integer",
            },
            "Sets the largest count displayed before the plus suffix."@,
        ),
        (
            "color"@,
            seq![("color"@, ArgumentSchema::String)],
            MethodRule::ParsedText {
                parser: TextParser::Color,
                any_text: false,
                invalid: "invalid Badge color: ",
                echo: true,
                error: "Badge.color expects a color string",
                arity: "Badge.color expects a color string",
            },
            "Sets the badge background from a supported color token."@,
        ),
        (
            "size"@,
            seq![("size"@, ArgumentSchema::Enum(ChoiceList::Size))],
            MethodRule::Choice {
                list: ChoiceList::Size,
                any_text: false,
                unsupported: "unsupported Badge size `",
                echo: true,
                error: "Badge.size expects a semantic size literal",
                arity: "Badge.size expects a semantic size literal",
            },
            "Sets the semantic component size."@,
        ),
    ]
}

/// Whether `d` is the `Badge` descriptor: its constructors, methods and documentation.
pub open spec fn is_badge_descriptor(d: ComponentDescriptor) -> bool {
    &&& d.kind == ComponentKind::Badge
    &&& d.documentation@ == "A count or dot badge positioned over its ordinary children."@
    &&& constructor_table(d.constructors@) == badge_constructors()
    &&& method_table(d.methods@) == badge_methods()
}

fn badge_descriptor() -> (d: ComponentDescriptor)
    ensures
        is_badge_descriptor(d),
{
    let d = ComponentDescriptor::new(ComponentKind::Badge)
        .with_constructors(
            vec![ConstructorDescriptor::new("Badge", Vec::new(), ConstructorRule::Unit)],
        )
        .with_methods(
            vec![
                MethodDescriptor::new(
                    "dot",
                    Vec::new(),
                    MethodRule::Unit,
                ).with_documentation("Displays a dot instead of a numeric count."),
                MethodDescriptor::new(
                    "count",
                    vec![ArgumentDescriptor::new("count", ArgumentSchema::Number)],
                    MethodRule::Natural {
                        positive: false,
                        max: u64::MAX,
                        label: "Badge.count",
                        too_large: "Badge.count expects a non-negative integer",
                        not_number: "Badge.count expects a non-negative integer",
                        arity: "Badge.count expects a non-negative integer",
                    },
                ).with_documentation("Sets the displayed count; zero hides a numeric badge."),
                MethodDescriptor::new(
                    "max",
                    vec![ArgumentDescriptor::new("max", ArgumentSchema::Number)],
                    MethodRule::Natural {
                        positive: false,
                        max: u64::MAX,
                        label: "Badge.max",
                        too_large: "Badge.max expects a non-negative integer",
                        not_number: "Badge.max expects a non-negative integer",
                        arity: "Badge.max expects a non-negative integer",
                    },
                ).with_documentation("Sets the largest count displayed before the plus suffix."),
                MethodDescriptor::new(
                    "color",
                    vec![ArgumentDescriptor::new("color", ArgumentSchema::String)],
                    MethodRule::ParsedText {
                        parser: TextParser::Color,
                        any_text: false,
                        invalid: "invalid Badge color: ",
                        echo: true,
                        error: "Badge.color expects a color string",
                        arity: "Badge.color expects a color string",
                    },
                ).with_documentation("Sets the badge background from a supported color token."),
                MethodDescriptor::new(
                    "size",
                    vec![ArgumentDescriptor::new("size", ArgumentSchema::Enum(ChoiceList::Size))],
                    MethodRule::Choice {
                        list: ChoiceList::Size,
                        any_text: false,
                        unsupported: "unsupported Badge size `",
                        echo: true,
                        error: "Badge.size expects a semantic size literal",
                        arity: "Badge.size expects a semantic size literal",
                    },
                ).with_documentation("Sets the semantic component size."),
            ],
        )
        .with_documentation("A count or dot badge positioned over its ordinary children.");
    proof {
        reveal(badge_constructors);
        assert(constructor_table(d.constructors@) =~~= badge_constructors());
        reveal(badge_methods);
        assert(method_table(d.methods@) =~~= badge_methods());
    }
    d
}

/// Registers `Badge` after the components already registered.
pub fn register(registry: &mut ComponentRegistry)
    requires
        !kinds(old(registry)@).contains(ComponentKind::Badge),
    ensures
        final(registry)@.len() == old(registry)@.len() + 1,
        final(registry)@.take(old(registry)@.len() as int) == old(registry)@,
        is_badge_descriptor(final(registry)@[old(registry)@.len() as int]),
{
    let ghost start = registry@;
    let badge = badge_descriptor();
    let badge_registered = registry.register(badge);
    proof {
        assert(badge_registered is Ok);
    }
    proof {
        assert(registry@.take(start.len() as int) =~= start);
    }
}

} // verus!
