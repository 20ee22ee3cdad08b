//! The `Button` component: its descriptor and its registration.

use vstd::prelude::*;
use crate::registry::{
    constructor_table, kinds, method_table, ArgumentDescriptor, ArgumentSchema, ComponentDescriptor,
    ComponentKind, ComponentRegistry, ConstructorDescriptor, ConstructorRow, MethodDescriptor,
    MethodRow,
};
use crate::rules::{ConstructorRule, MethodRule};

verus! {

/// The message an empty id of the `export` constructor is refused with.
pub open spec fn empty_id_message(export: Seq<char>) -> Seq<char> {
    export + " id must not be empty"@
}

/// The id, unless it is empty.
pub fn validate_id(export: &str, id: &str) -> (r: Result<String, String>)
    ensures
        match r {
            Ok(s) => id@.len() > 0 && s@ == id@,
            Err(m) => id@.len() == 0 && m@ == empty_id_message(export@),
        },
{
    if id.unicode_len() == 0 {
        let m = String::from_str(export).concat(" id must not be empty");
        proof {
            assert(m@ =~= empty_id_message(export@));
        }
        return Err(m);
    }
    Ok(String::from_str(id))
}

/// The constructors of `Button`: export name, argument slots and rule.
#[verifier::opaque]
pub open spec fn button_constructors() -> Seq<ConstructorRow> {
    seq![
        (
            "Button"@,
            seq![("id"@, ArgumentSchema::String)],
            ConstructorRule::NonEmpty { export: "Button", error: "Button(id) expects one string" },
        ),
    ]
}

/// The methods of `Button`: name, argument slots, rule and documentation.
#[verifier::opaque]
pub open spec fn button_methods() -> Seq<MethodRow> {
    seq![
        (
            "label"@,
            seq![("label"@, ArgumentSchema::String)],
            MethodRule::Text {
                error: "Button.label expects one string",
                arity: "Button.label expects one string",
            },
            "Sets the visible button label."@,
        ),
        (
            "tooltip"@,
            seq![("tooltip"@, ArgumentSchema::String)],
            MethodRule::Text {
                error: "Button.tooltip expects one string",
                arity: "Button.tooltip expects one string",
            },
            "Sets concise hover help."@,
        ),
        (
            "loading"@,
            seq![("loading"@, ArgumentSchema::Boolean)],
            MethodRule::Truthy,
            "Sets the loading presentation."@,
        ),
        (
            "size"@,
            seq![("size"@, ArgumentSchema::Number)],
            MethodRule::NumberedSize,
            "Sets the semantic control size."@,
        ),
        ("outline"@, seq![], MethodRule::Unit, "Uses the outline presentation."@),
        ("primary"@, seq![], MethodRule::Unit, "Uses the primary action variant."@),
        ("secondary"@, seq![], MethodRule::Unit, "Uses the secondary variant."@),
        ("danger"@, seq![], MethodRule::Unit, "Uses the destructive-action variant."@),
        ("success"@, seq![], MethodRule::Unit, "Uses the success variant."@),
        ("warning"@, seq![], MethodRule::Unit, "Uses the warning variant."@),
        ("ghost"@, seq![], MethodRule::Unit, "Uses the quiet ghost variant."@),
        ("link"@, seq![], MethodRule::Unit, "Uses the link-like visual variant."@),
        ("compact"@, seq![], MethodRule::Unit, "Uses compact internal spacing."@),
    ]
}

/// Whether `d` is the `Button` descriptor: its constructors, methods and documentation.
pub open spec fn is_button_descriptor(d: ComponentDescriptor) -> bool {
    &&& d.kind == ComponentKind::Button
    &&& d.documentation@ == "A stateless command button. Shell disabled, selected, children, style, and on_click are honored."@
    &&& constructor_table(d.constructors@) == button_constructors()
    &&& method_table(d.methods@) == button_methods()
}

fn button_descriptor() -> (d: ComponentDescriptor)
    ensures
        is_button_descriptor(d),
{
    let d = ComponentDescriptor::new(ComponentKind::Button)
        .with_constructors(
            vec![
                ConstructorDescriptor::new(
                    "Button",
                    vec![ArgumentDescriptor::new("id", ArgumentSchema::String)],
                    ConstructorRule::NonEmpty {
                        export: "Button",
                        error: "Button(id) expects one string",
                    },
                ),
            ],
        )
        .with_methods(
            vec![
                MethodDescriptor::new(
                    "label",
                    vec![ArgumentDescriptor::new("label", ArgumentSchema::String)],
                    MethodRule::Text {
                        error: "Button.label expects one string",
                        arity: "Button.label expects one string",
                    },
                ).with_documentation("Sets the visible button label."),
                MethodDescriptor::new(
                    "tooltip",
                    vec![ArgumentDescriptor::new("tooltip", ArgumentSchema::String)],
                    MethodRule::Text {
                        error: "Button.tooltip expects one string",
                        arity: "Button.tooltip expects one string",
                    },
                ).with_documentation("Sets concise hover help."),
                MethodDescriptor::new(
                    "loading",
                    vec![ArgumentDescriptor::new("loading", ArgumentSchema::Boolean)],
                    MethodRule::Truthy,
                ).with_documentation("Sets the loading presentation."),
                MethodDescriptor::new(
                    "size",
                    vec![ArgumentDescriptor::new("size", ArgumentSchema::Number)],
                    MethodRule::NumberedSize,
                ).with_documentation("Sets the semantic control size."),
                MethodDescriptor::new(
                    "outline",
                    Vec::new(),
                    MethodRule::Unit,
                ).with_documentation("Uses the outline presentation."),
                MethodDescriptor::new(
                    "primary",
                    Vec::new(),
                    MethodRule::Unit,
                ).with_documentation("Uses the primary action variant."),
                MethodDescriptor::new(
                    "secondary",
                    Vec::new(),
                    MethodRule::Unit,
                ).with_documentation("Uses the secondary variant."),
                MethodDescriptor::new(
                    "danger",
                    Vec::new(),
                    MethodRule::Unit,
                ).with_documentation("Uses the destructive-action variant."),
                MethodDescriptor::new(
                    "success",
                    Vec::new(),
                    MethodRule::Unit,
                ).with_documentation("Uses the success variant."),
                MethodDescriptor::new(
                    "warning",
                    Vec::new(),
                    MethodRule::Unit,
                ).with_documentation("Uses the warning variant."),
                MethodDescriptor::new(
                    "ghost",
                    Vec::new(),
                    MethodRule::Unit,
                ).with_documentation("Uses the quiet ghost variant."),
                MethodDescriptor::new(
                    "link",
                    Vec::new(),
                    MethodRule::Unit,
                ).with_documentation("Uses the link-like visual variant."),
                MethodDescriptor::new(
                    "compact",
                    Vec::new(),
                    MethodRule::Unit,
                ).with_documentation("Uses compact internal spacing."),
            ],
        )
        .with_documentation(
            "A stateless command button. Shell disabled, selected, children, style, and on_click are honored.",
        );
    proof {
        reveal(button_constructors);
        assert(constructor_table(d.constructors@) =~~= button_constructors());
        reveal(button_methods);
        assert(method_table(d.methods@) =~~= button_methods());
    }
    d
}

/// Registers `Button` after the components already registered.
pub fn register(registry: &mut ComponentRegistry)
    requires
        !kinds(old(registry)@).contains(ComponentKind::Button),
    ensures
        final(registry)@.len() == old(registry)@.len() + 1,
        final(registry)@.take(old(registry)@.len() as int) == old(registry)@,
        is_button_descriptor(final(registry)@[old(registry)@.len() as int]),
{
    let ghost start = registry@;
    let button = button_descriptor();
    let button_registered = registry.register(button);
    proof {
        assert(button_registered is Ok);
    }
    proof {
        assert(registry@.take(start.len() as int) =~= start);
    }
}

} // verus!
