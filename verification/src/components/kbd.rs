//! The `Kbd` component: its descriptor and its registration.

use vstd::prelude::*;
use crate::registry::{
    constructor_table, kinds, method_table, ArgumentDescriptor, ArgumentSchema, ComponentDescriptor,
    ComponentKind, ComponentRegistry, ConstructorDescriptor, ConstructorRow, MethodDescriptor,
    MethodRow,
};
use crate::rules::{ConstructorRule, MethodRule, TextParser};

verus! {

/// The constructors of `Kbd`: export name, argument slots and rule.
#[verifier::opaque]
pub open spec fn kbd_constructors() -> Seq<ConstructorRow> {
    seq![
        (
            "Kbd"@,
            seq![("keystroke"@, ArgumentSchema::String)],
            ConstructorRule::ParsedText {
                parser: TextParser::Keystroke,
                invalid: "invalid Kbd keystroke: ",
                error: "Kbd expects one keystroke string",
            },
        ),
    ]
}

/// The methods of `Kbd`: name, argument slots, rule and documentation.
#[verifier::opaque]
pub open spec fn kbd_methods() -> Seq<MethodRow> {
    seq![
        (
            "appearance"@,
            seq![("appearance"@, ArgumentSchema::Boolean)],
            MethodRule::Flag {
                error: "Kbd.appearance expects one boolean",
                arity: "Kbd.appearance expects one boolean",
            },
            "Controls whether the keystroke uses keycap presentation."@,
        ),
        ("outline"@, seq![], MethodRule::Unit, "Uses the outlined keycap presentation."@),
    ]
}

/// Whether `d` is the `Kbd` descriptor: its constructors, methods and documentation.
pub open spec fn is_kbd_descriptor(d: ComponentDescriptor) -> bool {
    &&& d.kind == ComponentKind::Kbd
    &&& d.documentation@ == "A platform-formatted keyboard shortcut keycap."@
    &&& constructor_table(d.constructors@) == kbd_constructors()
    &&& method_table(d.methods@) == kbd_methods()
}

fn kbd_descriptor() -> (d: ComponentDescriptor)
    ensures
        is_kbd_descriptor(d),
{
    let d = ComponentDescriptor::new(ComponentKind::Kbd)
        .with_constructors(
            vec![
                ConstructorDescriptor::new(
                    "Kbd",
                    vec![ArgumentDescriptor::new("keystroke", ArgumentSchema::String)],
                    ConstructorRule::ParsedText {
                        parser: TextParser::Keystroke,
                        invalid: "invalid Kbd keystroke: ",
                        error: "Kbd expects one keystroke string",
                    },
                ),
            ],
        )
        .with_methods(
            vec![
                MethodDescriptor::new(
                    "appearance",
                    vec![ArgumentDescriptor::new("appearance", ArgumentSchema::Boolean)],
                    MethodRule::Flag {
                        error: "Kbd.appearance expects one boolean",
                        arity: "Kbd.appearance expects one boolean",
                    },
                ).with_documentation("Controls whether the keystroke uses keycap presentation."),
                MethodDescriptor::new(
                    "outline",
                    Vec::new(),
                    MethodRule::Unit,
                ).with_documentation("Uses the outlined keycap presentation."),
            ],
        )
        .with_documentation("A platform-formatted keyboard shortcut keycap.");
    proof {
        reveal(kbd_constructors);
        assert(constructor_table(d.constructors@) =~~= kbd_constructors());
        reveal(kbd_methods);
        assert(method_table(d.methods@) =~~= kbd_methods());
    }
    d
}

/// Registers `Kbd` after the components already registered.
pub fn register(registry: &mut ComponentRegistry)
    requires
        !kinds(old(registry)@).contains(ComponentKind::Kbd),
    ensures
        final(registry)@.len() == old(registry)@.len() + 1,
        final(registry)@.take(old(registry)@.len() as int) == old(registry)@,
        is_kbd_descriptor(final(registry)@[old(registry)@.len() as int]),
{
    let ghost start = registry@;
    let kbd = kbd_descriptor();
    let kbd_registered = registry.register(kbd);
    proof {
        assert(kbd_registered is Ok);
    }
    proof {
        assert(registry@.take(start.len() as int) =~= start);
    }
}

} // verus!
