//! The `Rating` component: its descriptor and its registration.

use vstd::prelude::*;
use crate::registry::{
    constructor_table, kinds, method_table, ArgumentDescriptor, ArgumentSchema, ComponentDescriptor,
    ComponentKind, ComponentRegistry, ConstructorDescriptor, ConstructorRow, MethodDescriptor,
    MethodRow,
};
use crate::rules::{ChoiceList, ConstructorRule, MethodRule, TextParser};
use crate::calls::{calls_view, MethodCall};
use crate::rules::{ComponentPayload, Payload};

verus! {

/// The value and maximum of a `Rating` after `calls`, applied in order from
/// a value of 0 and a maximum of 5: a `value` call sets the value, kept within
/// the current maximum; a `max` call sets the maximum and lowers the value to
/// it when the value is above it.
pub open spec fn rating_settings_of(calls: Seq<(Seq<char>, Payload)>) -> (u64, u64)
    decreases calls.len(),
{
    if calls.len() == 0 {
        (0, 5)
    } else {
        let (value, max) = rating_settings_of(calls.drop_last());
        let call = calls.last();
        if call.0 == "value"@ {
            match call.1 {
                Payload::Count(next) => (if next < max { next } else { max }, max),
                _ => (value, max),
            }
        } else if call.0 == "max"@ {
            match call.1 {
                Payload::Count(next) => (if value < next { value } else { next }, next),
                _ => (value, max),
            }
        } else {
            (value, max)
        }
    }
}

/// The value and maximum the calls leave.
pub fn rating_settings(calls: &Vec<MethodCall>) -> (settings: (u64, u64))
    ensures
        settings == rating_settings_of(calls_view(calls@)),
{
    let ghost v = calls_view(calls@);
    let mut value: u64 = 0;
    let mut max: u64 = 5;
    let n = calls.len();
    let mut i: usize = 0;
    proof {
        assert(v.take(0) =~= Seq::<(Seq<char>, Payload)>::empty());
    }
    while i < n
        invariant
            n == calls@.len(),
            i <= n,
            v == calls_view(calls@),
            (value, max) == rating_settings_of(v.take(i as int)),
        decreases n - i,
    {
        proof {
            assert(v.take(i + 1).drop_last() =~= v.take(i as int));
            assert(v.take(i + 1).last() == calls@[i as int]@);
        }
        let call = &calls[i];
        if crate::text::str_equal(call.method.as_str(), "value") {
            if let ComponentPayload::Count(next) = &call.payload {
                value = if *next < max {
                    *next
                } else {
                    max
                };
            }
        } else if crate::text::str_equal(call.method.as_str(), "max") {
            if let ComponentPayload::Count(next) = &call.payload {
                if *next < value {
                    value = *next;
                }
                max = *next;
            }
        }
        i = i + 1;
    }
    proof {
        assert(v.take(n as int) =~= v);
    }
    (value, max)
}

/// Whatever the calls, the value never exceeds the maximum.
pub proof fn lemma_rating_value_within_max(calls: Seq<(Seq<char>, Payload)>)
    ensures
        rating_settings_of(calls).0 <= rating_settings_of(calls).1,
    decreases calls.len(),
{
    if calls.len() > 0 {
        lemma_rating_value_within_max(calls.drop_last());
    }
}

/// The constructors of `Rating`: export name, argument slots and rule.
#[verifier::opaque]
pub open spec fn rating_constructors() -> Seq<ConstructorRow> {
    seq![
        (
            "Rating"@,
            seq![("id"@, ArgumentSchema::String)],
            ConstructorRule::NonBlank { component: "Rating", error: "Rating(id) expects a string" },
        ),
    ]
}

/// The methods of `Rating`: name, argument slots, rule and documentation.
#[verifier::opaque]
pub open spec fn rating_methods() -> Seq<MethodRow> {
    seq![
        (
            "value"@,
            seq![("value"@, ArgumentSchema::Number)],
            MethodRule::Natural {
                positive: false,
                max: u64::MAX,
                label: "Rating.value(value)",
                too_large: "Rating.value(value) expects a non-negative integer",
                not_number: "Rating.value(value) expects a number",
                arity: "Rating.value(value) expects a number",
            },
            "Sets the current number of active stars."@,
        ),
        (
            "max"@,
            seq![("max"@, ArgumentSchema::Number)],
            MethodRule::Natural {
                positive: false,
                max: u64::MAX,
                label: "Rating.max(max)",
                too_large: "Rating.max(max) expects a non-negative integer",
                not_number: "Rating.max(max) expects a number",
                arity: "Rating.max(max) expects a number",
            },
            "Sets the maximum number of stars."@,
        ),
        (
            "on_change"@,
            seq![("on_change"@, ArgumentSchema::Callback)],
            MethodRule::Callback { error: "Rating.on_change expects one callback" },
            "Reports the star the reader clicked, so the script can drive `value`."@,
        ),
        (
            "color"@,
            seq![("color"@, ArgumentSchema::String)],
            MethodRule::ParsedText {
                parser: TextParser::Color,
                any_text: false,
                invalid: "invalid Rating color: ",
                echo: true,
                error: "Rating.color(color) expects a color string",
                arity: "Rating.color(color) expects a color string",
            },
            "Sets the active star color."@,
        ),
        (
            "size"@,
            seq![("size"@, ArgumentSchema::Enum(ChoiceList::Size))],
            MethodRule::Choice {
                list: ChoiceList::Size,
                any_text: false,
                unsupported: "unsupported Rating size `",
                echo: true,
                error: "Rating.size expects a semantic size literal",
                arity: "Rating.size expects a semantic size literal",
            },
            "Sets the rating's semantic size."@,
        ),
    ]
}

/// Whether `d` is the `Rating` descriptor: its constructors, methods and documentation.
pub open spec fn is_rating_descriptor(d: ComponentDescriptor) -> bool {
    &&& d.kind == ComponentKind::Rating
    &&& d.documentation@ == "An interactive star rating with configurable value and maximum."@
    &&& constructor_table(d.constructors@) == rating_constructors()
    &&& method_table(d.methods@) == rating_methods()
}

fn rating_descriptor() -> (d: ComponentDescriptor)
    ensures
        is_rating_descriptor(d),
{
    let d = ComponentDescriptor::new(ComponentKind::Rating)
        .with_constructors(
            vec![
                ConstructorDescriptor::new(
                    "Rating",
                    vec![ArgumentDescriptor::new("id", ArgumentSchema::String)],
                    ConstructorRule::NonBlank {
                        component: "Rating",
                        error: "Rating(id) expects a string",
                    },
                ),
            ],
        )
        .with_methods(
            vec![
                MethodDescriptor::new(
                    "value",
                    vec![ArgumentDescriptor::new("value", ArgumentSchema::Number)],
                    MethodRule::Natural {
                        positive: false,
                        max: u64::MAX,
                        label: "Rating.value(value)",
                        too_large: "Rating.value(value) expects a non-negative integer",
                        not_number: "Rating.value(value) expects a number",
                        arity: "Rating.value(value) expects a number",
                    },
                ).with_documentation("Sets the current number of active stars."),
                MethodDescriptor::new(
                    "max",
                    vec![ArgumentDescriptor::new("max", ArgumentSchema::Number)],
                    MethodRule::Natural {
                        positive: false,
                        max: u64::MAX,
                        label: "Rating.max(max)",
                        too_large: "Rating.max(max) expects a non-negative integer",
                        not_number: "Rating.max(max) expects a number",
                        arity: "Rating.max(max) expects a number",
                    },
                ).with_documentation("Sets the maximum number of stars."),
                MethodDescriptor::new(
                    "on_change",
                    vec![ArgumentDescriptor::new("on_change", ArgumentSchema::Callback)],
                    MethodRule::Callback { error: "Rating.on_change expects one callback" },
                ).with_documentation(
                    "Reports the star the reader clicked, so the script can drive `value`.",
                ),
                MethodDescriptor::new(
                    "color",
                    vec![ArgumentDescriptor::new("color", ArgumentSchema::String)],
                    MethodRule::ParsedText {
                        parser: TextParser::Color,
                        any_text: false,
                        invalid: "invalid Rating color: ",
                        echo: true,
                        error: "Rating.color(color) expects a color string",
                        arity: "Rating.color(color) expects a color string",
                    },
                ).with_documentation("Sets the active star color."),
                MethodDescriptor::new(
                    "size",
                    vec![ArgumentDescriptor::new("size", ArgumentSchema::Enum(ChoiceList::Size))],
                    MethodRule::Choice {
                        list: ChoiceList::Size,
                        any_text: false,
                        unsupported: "unsupported Rating size `",
                        echo: true,
                        error: "Rating.size expects a semantic size literal",
                        arity: "Rating.size expects a semantic size literal",
                    },
                ).with_documentation("Sets the rating's semantic size."),
            ],
        )
        .with_documentation("An interactive star rating with configurable value and maximum.");
    proof {
        reveal(rating_constructors);
        assert(constructor_table(d.constructors@) =~~= rating_constructors());
        reveal(rating_methods);
        assert(method_table(d.methods@) =~~= rating_methods());
    }
    d
}

/// Registers `Rating` after the components already registered.
pub fn register(registry: &mut ComponentRegistry)
    requires
        !kinds(old(registry)@).contains(ComponentKind::Rating),
    ensures
        final(registry)@.len() == old(registry)@.len() + 1,
        final(registry)@.take(old(registry)@.len() as int) == old(registry)@,
        is_rating_descriptor(final(registry)@[old(registry)@.len() as int]),
{
    let ghost start = registry@;
    let rating = rating_descriptor();
    let rating_registered = registry.register(rating);
    proof {
        assert(rating_registered is Ok);
    }
    proof {
        assert(registry@.take(start.len() as int) =~= start);
    }
}

} // verus!
