//! `Motion`, which animates toward targets, and `Presence`, which keeps its content mounted through
//! an exit animation.

use vstd::prelude::*;
use crate::registry::{
    constructor_table, kinds, lemma_kinds_push, method_table, ArgumentDescriptor, ArgumentSchema,
    ComponentDescriptor, ComponentKind, ComponentRegistry, ConstructorDescriptor, ConstructorRow,
    MethodDescriptor, MethodRow,
};
use crate::rules::{ChoiceList, ConstructorRule, MethodRule};
use crate::calls::{
    calls_view, flag_or, last_call, last_flag_or, last_number, last_number_or, last_payload, number,
    number_or, MethodCall,
};
use crate::rules::{ComponentPayload, Payload};
use crate::text::str_equal;

verus! {

/// The easing curves an animation may use.
#[derive(PartialEq, Eq, Clone, Copy, Debug, Structural)]
pub enum Easing {
    Linear,
    Ease,
    EaseIn,
    EaseOut,
    EaseInOut,
}

/// The curve a name selects; an unknown name selects `EaseOut`.
pub open spec fn easing_named(name: Seq<char>) -> Easing {
    if name == "linear"@ {
        Easing::Linear
    } else if name == "ease"@ {
        Easing::Ease
    } else if name == "ease_in"@ {
        Easing::EaseIn
    } else if name == "ease_out"@ {
        Easing::EaseOut
    } else if name == "ease_in_out"@ {
        Easing::EaseInOut
    } else {
        Easing::EaseOut
    }
}

/// The curve `name` selects.
pub fn parse_easing(name: &str) -> (easing: Easing)
    ensures
        easing == easing_named(name@),
{
    if str_equal(name, "linear") {
        Easing::Linear
    } else if str_equal(name, "ease") {
        Easing::Ease
    } else if str_equal(name, "ease_in") {
        Easing::EaseIn
    } else if str_equal(name, "ease_out") {
        Easing::EaseOut
    } else if str_equal(name, "ease_in_out") {
        Easing::EaseInOut
    } else {
        Easing::EaseOut
    }
}

/// The curve the last `easing` call named, or `default`.
pub open spec fn last_easing_or(calls: Seq<(Seq<char>, Payload)>, default: Easing) -> Easing {
    match last_call(calls, "easing"@) {
        Some(Payload::Text(name)) => easing_named(name),
        _ => default,
    }
}

fn easing_or(calls: &Vec<MethodCall>, default: Easing) -> (easing: Easing)
    ensures
        easing == last_easing_or(calls_view(calls@), default),
{
    match last_payload(calls, "easing") {
        Some(ComponentPayload::Text(name)) => parse_easing(name.as_str()),
        _ => default,
    }
}

/// The bits of the binary64 values `200.0`, `1.0` and `8.0`.
pub open spec fn bits_200() -> u64 {
    0x4069_0000_0000_0000
}

pub open spec fn bits_1() -> u64 {
    0x3ff0_0000_0000_0000
}

pub open spec fn bits_8() -> u64 {
    0x4020_0000_0000_0000
}

/// What the calls on a `Motion` configure: the animation policy and the
/// targets it animates toward. Numbers are binary64 bits.
pub struct MotionConfig {
    pub duration_ms: u64,
    pub easing: Easing,
    pub opacity: Option<u64>,
    pub translate_x: Option<u64>,
    pub translate_y: Option<u64>,
    pub width: Option<u64>,
    pub height: Option<u64>,
}

/// The configuration the calls leave: the last call of each method wins, the
/// duration defaults to 200 ms and the easing to `EaseOut`; a target no call
/// set is not animated.
pub fn motion_config(calls: &Vec<MethodCall>) -> (config: MotionConfig)
    ensures
        config.duration_ms == last_number_or(calls_view(calls@), "duration_ms"@, bits_200()),
        config.easing == last_easing_or(calls_view(calls@), Easing::EaseOut),
        config.opacity == last_number(calls_view(calls@), "opacity"@),
        config.translate_x == last_number(calls_view(calls@), "translate_x"@),
        config.translate_y == last_number(calls_view(calls@), "translate_y"@),
        config.width == last_number(calls_view(calls@), "width"@),
        config.height == last_number(calls_view(calls@), "height"@),
{
    MotionConfig {
        duration_ms: number_or(calls, "duration_ms", 0x4069_0000_0000_0000),
        easing: easing_or(calls, Easing::EaseOut),
        opacity: number(calls, "opacity"),
        translate_x: number(calls, "translate_x"),
        translate_y: number(calls, "translate_y"),
        width: number(calls, "width"),
        height: number(calls, "height"),
    }
}

/// What the calls on a `Presence` configure. Numbers are binary64 bits.
pub struct PresenceConfig {
    pub present: bool,
    pub duration_ms: u64,
    pub easing: Easing,
    /// Opacity at the start and at the end of the entrance.
    pub fade: (u64, u64),
    /// Vertical offset at the start and at the end of the entrance.
    pub slide: (u64, u64),
}

/// The configuration the calls leave: the last call of each method wins; the
/// content is absent, the duration 200 ms, the easing `EaseInOut`, the fade
/// from 0 to 1 and the slide from 8 to 0 unless a call says otherwise.
pub fn presence_config(calls: &Vec<MethodCall>) -> (config: PresenceConfig)
    ensures
        config.present == last_flag_or(calls_view(calls@), "present"@, false),
        config.duration_ms == last_number_or(calls_view(calls@), "duration_ms"@, bits_200()),
        config.easing == last_easing_or(calls_view(calls@), Easing::EaseInOut),
        config.fade == (
            last_number_or(calls_view(calls@), "fade_from"@, 0),
            last_number_or(calls_view(calls@), "fade_to"@, bits_1()),
        ),
        config.slide == (
            last_number_or(calls_view(calls@), "slide_from"@, bits_8()),
            last_number_or(calls_view(calls@), "slide_to"@, 0),
        ),
{
    PresenceConfig {
        present: flag_or(calls, "present", false),
        duration_ms: number_or(calls, "duration_ms", 0x4069_0000_0000_0000),
        easing: easing_or(calls, Easing::EaseInOut),
        fade: (number_or(calls, "fade_from", 0), number_or(calls, "fade_to", 0x3ff0_0000_0000_0000)),
        slide: (
            number_or(calls, "slide_from", 0x4020_0000_0000_0000),
            number_or(calls, "slide_to", 0),
        ),
    }
}

/// The constructors of `Motion`: export name, argument slots and rule.
#[verifier::opaque]
pub open spec fn motion_constructors() -> Seq<ConstructorRow> {
    seq![
        (
            "Motion"@,
            seq![("id"@, ArgumentSchema::String)],
            ConstructorRule::NonBlankOnly { error: "Motion expects a non-empty id" },
        ),
    ]
}

/// The methods of `Motion`: name, argument slots, rule and documentation.
#[verifier::opaque]
pub open spec fn motion_methods() -> Seq<MethodRow> {
    seq![
        (
            "duration_ms"@,
            seq![("value"@, ArgumentSchema::Number)],
            MethodRule::Finite { error: "duration_ms(value) expects a number" },
            "Sets an animation target."@,
        ),
        (
            "easing"@,
            seq![("easing"@, ArgumentSchema::Enum(ChoiceList::Easing))],
            MethodRule::AnyText {
                error: "easing(name) expects a string",
                arity: "easing(name) expects a string",
            },
            "Sets the easing curve: linear, ease, ease_in, ease_out, ease_in_out."@,
        ),
        (
            "opacity"@,
            seq![("value"@, ArgumentSchema::Number)],
            MethodRule::Finite { error: "opacity(value) expects a number" },
            "Sets an animation target."@,
        ),
        (
            "translate_x"@,
            seq![("value"@, ArgumentSchema::Number)],
            MethodRule::Finite { error: "translate_x(value) expects a number" },
            "Sets an animation target."@,
        ),
        (
            "translate_y"@,
            seq![("value"@, ArgumentSchema::Number)],
            MethodRule::Finite { error: "translate_y(value) expects a number" },
            "Sets an animation target."@,
        ),
        (
            "width"@,
            seq![("value"@, ArgumentSchema::Number)],
            MethodRule::Finite { error: "width(value) expects a number" },
            "Sets an animation target."@,
        ),
        (
            "height"@,
            seq![("value"@, ArgumentSchema::Number)],
            MethodRule::Finite { error: "height(value) expects a number" },
            "Sets an animation target."@,
        ),
    ]
}

/// Whether `d` is the `Motion` descriptor: its constructors, methods and documentation.
pub open spec fn is_motion_descriptor(d: ComponentDescriptor) -> bool {
    &&& d.kind == ComponentKind::Motion
    &&& d.documentation@ == "A container that interpolates opacity/translation/size to targets."@
    &&& constructor_table(d.constructors@) == motion_constructors()
    &&& method_table(d.methods@) == motion_methods()
}

fn motion_descriptor() -> (d: ComponentDescriptor)
    ensures
        is_motion_descriptor(d),
{
    let d = ComponentDescriptor::new(ComponentKind::Motion)
        .with_constructors(
            vec![
                ConstructorDescriptor::new(
                    "Motion",
                    vec![ArgumentDescriptor::new("id", ArgumentSchema::String)],
                    ConstructorRule::NonBlankOnly { error: "Motion expects a non-empty id" },
                ),
            ],
        )
        .with_methods(
            vec![
                MethodDescriptor::new(
                    "duration_ms",
                    vec![ArgumentDescriptor::new("value", ArgumentSchema::Number)],
                    MethodRule::Finite { error: "duration_ms(value) expects a number" },
                ).with_documentation("Sets an animation target."),
                MethodDescriptor::new(
                    "easing",
                    vec![
                        ArgumentDescriptor::new("easing", ArgumentSchema::Enum(ChoiceList::Easing)),
                    ],
                    MethodRule::AnyText {
                        error: "easing(name) expects a string",
                        arity: "easing(name) expects a string",
                    },
                ).with_documentation(
                    "Sets the easing curve: linear, ease, ease_in, ease_out, ease_in_out.",
                ),
                MethodDescriptor::new(
                    "opacity",
                    vec![ArgumentDescriptor::new("value", ArgumentSchema::Number)],
                    MethodRule::Finite { error: "opacity(value) expects a number" },
                ).with_documentation("Sets an animation target."),
                MethodDescriptor::new(
                    "translate_x",
                    vec![ArgumentDescriptor::new("value", ArgumentSchema::Number)],
                    MethodRule::Finite { error: "translate_x(value) expects a number" },
                ).with_documentation("Sets an animation target."),
                MethodDescriptor::new(
                    "translate_y",
                    vec![ArgumentDescriptor::new("value", ArgumentSchema::Number)],
                    MethodRule::Finite { error: "translate_y(value) expects a number" },
                ).with_documentation("Sets an animation target."),
                MethodDescriptor::new(
                    "width",
                    vec![ArgumentDescriptor::new("value", ArgumentSchema::Number)],
                    MethodRule::Finite { error: "width(value) expects a number" },
                ).with_documentation("Sets an animation target."),
                MethodDescriptor::new(
                    "height",
                    vec![ArgumentDescriptor::new("value", ArgumentSchema::Number)],
                    MethodRule::Finite { error: "height(value) expects a number" },
                ).with_documentation("Sets an animation target."),
            ],
        )
        .with_documentation("A container that interpolates opacity/translation/size to targets.");
    proof {
        reveal(motion_constructors);
        assert(constructor_table(d.constructors@) =~~= motion_constructors());
        reveal(motion_methods);
        assert(method_table(d.methods@) =~~= motion_methods());
    }
    d
}

/// The constructors of `Presence`: export name, argument slots and rule.
#[verifier::opaque]
pub open spec fn presence_constructors() -> Seq<ConstructorRow> {
    seq![
        (
            "Presence"@,
            seq![("id"@, ArgumentSchema::String)],
            ConstructorRule::NonBlankOnly { error: "Presence expects a non-empty id" },
        ),
    ]
}

/// The methods of `Presence`: name, argument slots, rule and documentation.
#[verifier::opaque]
pub open spec fn presence_methods() -> Seq<MethodRow> {
    seq![
        (
            "present"@,
            seq![("present"@, ArgumentSchema::Boolean)],
            MethodRule::FlagOrNumber { error: "present(flag) expects a boolean" },
            "Whether the content is present (false animates out)."@,
        ),
        (
            "duration_ms"@,
            seq![("value"@, ArgumentSchema::Number)],
            MethodRule::Finite { error: "duration_ms(value) expects a number" },
            "Sets an animation target."@,
        ),
        (
            "easing"@,
            seq![("easing"@, ArgumentSchema::Enum(ChoiceList::Easing))],
            MethodRule::AnyText {
                error: "easing(name) expects a string",
                arity: "easing(name) expects a string",
            },
            "Sets the easing curve."@,
        ),
        (
            "fade_from"@,
            seq![("value"@, ArgumentSchema::Number)],
            MethodRule::Finite { error: "fade_from(value) expects a number" },
            "Sets an animation target."@,
        ),
        (
            "fade_to"@,
            seq![("value"@, ArgumentSchema::Number)],
            MethodRule::Finite { error: "fade_to(value) expects a number" },
            "Sets an animation target."@,
        ),
        (
            "slide_from"@,
            seq![("value"@, ArgumentSchema::Number)],
            MethodRule::Finite { error: "slide_from(value) expects a number" },
            "Sets an animation target."@,
        ),
        (
            "slide_to"@,
            seq![("value"@, ArgumentSchema::Number)],
            MethodRule::Finite { error: "slide_to(value) expects a number" },
            "Sets an animation target."@,
        ),
    ]
}

/// Whether `d` is the `Presence` descriptor: its constructors, methods and documentation.
pub open spec fn is_presence_descriptor(d: ComponentDescriptor) -> bool {
    &&& d.kind == ComponentKind::Presence
    &&& d.documentation@ == "A container that stays mounted through its exit animation."@
    &&& constructor_table(d.constructors@) == presence_constructors()
    &&& method_table(d.methods@) == presence_methods()
}

fn presence_descriptor() -> (d: ComponentDescriptor)
    ensures
        is_presence_descriptor(d),
{
    let d = ComponentDescriptor::new(ComponentKind::Presence)
        .with_constructors(
            vec![
                ConstructorDescriptor::new(
                    "Presence",
                    vec![ArgumentDescriptor::new("id", ArgumentSchema::String)],
                    ConstructorRule::NonBlankOnly { error: "Presence expects a non-empty id" },
                ),
            ],
        )
        .with_methods(
            vec![
                MethodDescriptor::new(
                    "present",
                    vec![ArgumentDescriptor::new("present", ArgumentSchema::Boolean)],
                    MethodRule::FlagOrNumber { error: "present(flag) expects a boolean" },
                ).with_documentation("Whether the content is present (false animates out)."),
                MethodDescriptor::new(
                    "duration_ms",
                    vec![ArgumentDescriptor::new("value", ArgumentSchema::Number)],
                    MethodRule::Finite { error: "duration_ms(value) expects a number" },
                ).with_documentation("Sets an animation target."),
                MethodDescriptor::new(
                    "easing",
                    vec![
                        ArgumentDescriptor::new("easing", ArgumentSchema::Enum(ChoiceList::Easing)),
                    ],
                    MethodRule::AnyText {
                        error: "easing(name) expects a string",
                        arity: "easing(name) expects a string",
                    },
                ).with_documentation("Sets the easing curve."),
                MethodDescriptor::new(
                    "fade_from",
                    vec![ArgumentDescriptor::new("value", ArgumentSchema::Number)],
                    MethodRule::Finite { error: "fade_from(value) expects a number" },
                ).with_documentation("Sets an animation target."),
                MethodDescriptor::new(
                    "fade_to",
                    vec![ArgumentDescriptor::new("value", ArgumentSchema::Number)],
                    MethodRule::Finite { error: "fade_to(value) expects a number" },
                ).with_documentation("Sets an animation target."),
                MethodDescriptor::new(
                    "slide_from",
                    vec![ArgumentDescriptor::new("value", ArgumentSchema::Number)],
                    MethodRule::Finite { error: "slide_from(value) expects a number" },
                ).with_documentation("Sets an animation target."),
                MethodDescriptor::new(
                    "slide_to",
                    vec![ArgumentDescriptor::new("value", ArgumentSchema::Number)],
                    MethodRule::Finite { error: "slide_to(value) expects a number" },
                ).with_documentation("Sets an animation target."),
            ],
        )
        .with_documentation("A container that stays mounted through its exit animation.");
    proof {
        reveal(presence_constructors);
        assert(constructor_table(d.constructors@) =~~= presence_constructors());
        reveal(presence_methods);
        assert(method_table(d.methods@) =~~= presence_methods());
    }
    d
}

/// Registers `Motion`, `Presence` after the components already registered, in this order.
pub fn register(registry: &mut ComponentRegistry)
    requires
        !kinds(old(registry)@).contains(ComponentKind::Motion),
        !kinds(old(registry)@).contains(ComponentKind::Presence),
    ensures
        final(registry)@.len() == old(registry)@.len() + 2,
        final(registry)@.take(old(registry)@.len() as int) == old(registry)@,
        is_motion_descriptor(final(registry)@[old(registry)@.len() as int]),
        is_presence_descriptor(final(registry)@[old(registry)@.len() as int + 1]),
{
    let ghost start = registry@;
    let ghost before_motion = registry@;
    let motion = motion_descriptor();
    let ghost added_motion = motion;
    let motion_registered = registry.register(motion);
    proof {
        assert(motion_registered is Ok);
        lemma_kinds_push(before_motion, added_motion);
    }
    let presence = presence_descriptor();
    let presence_registered = registry.register(presence);
    proof {
        assert(presence_registered is Ok);
    }
    proof {
        assert(registry@.take(start.len() as int) =~= start);
    }
}

} // verus!
