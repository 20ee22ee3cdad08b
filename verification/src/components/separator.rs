//! The `Separator` component: its descriptor and its registration.

use vstd::prelude::*;
use crate::registry::{
    constructor_table, kinds, method_table, ArgumentDescriptor, ArgumentSchema, ComponentDescriptor,
    ComponentKind, ComponentRegistry, ConstructorDescriptor, ConstructorRow, MethodDescriptor,
    MethodRow,
};
use crate::rules::{ConstructorRule, MethodRule, SeparatorKind, TextParser};
use crate::calls::{called, calls_view, was_called, MethodCall};
use crate::rules::{ComponentPayload, Payload};

verus! {

/// The direction a separator runs in.
#[derive(PartialEq, Eq, Clone, Copy, Debug, Structural)]
pub enum SeparatorAxis {
    Horizontal,
    Vertical,
}

/// The axis of each separator presentation.
pub open spec fn axis_of(kind: SeparatorKind) -> SeparatorAxis {
    match kind {
        SeparatorKind::Horizontal | SeparatorKind::HorizontalDashed => SeparatorAxis::Horizontal,
        SeparatorKind::Vertical | SeparatorKind::VerticalDashed => SeparatorAxis::Vertical,
    }
}

/// The axis a separator of `kind` runs along.
pub fn separator_axis(kind: SeparatorKind) -> (axis: SeparatorAxis)
    ensures
        axis == axis_of(kind),
{
    match kind {
        SeparatorKind::Horizontal | SeparatorKind::HorizontalDashed => SeparatorAxis::Horizontal,
        SeparatorKind::Vertical | SeparatorKind::VerticalDashed => SeparatorAxis::Vertical,
    }
}

/// A dashed separator without a label is drawn as a row of quads rather than
/// as the component's dashed path; a labelled one keeps the component so the
/// label overlays the line.
pub fn draws_dashes_as_quads(kind: SeparatorKind, calls: &Vec<MethodCall>) -> (quads: bool)
    ensures
        quads == ((kind == SeparatorKind::HorizontalDashed || kind == SeparatorKind::VerticalDashed)
            && !was_called(calls_view(calls@), "label"@)),
{
    let dashed = match kind {
        SeparatorKind::HorizontalDashed | SeparatorKind::VerticalDashed => true,
        _ => false,
    };
    dashed && !called(calls, "label")
}

/// The presentation a `Separator` is built from: its payload must be the one
/// its constructors record.
pub fn separator_input(payload: &ComponentPayload) -> (r: Result<SeparatorKind, String>)
    ensures
        match payload@ {
            Payload::Separator(kind) => r == Ok::<SeparatorKind, String>(kind),
            _ => r matches Err(m) && m@ == "Separator received an incompatible payload"@,
        },
{
    match payload {
        ComponentPayload::Separator(kind) => Ok(*kind),
        _ => Err(String::from_str("Separator received an incompatible payload")),
    }
}

/// The constructors of `Separator`: export name, argument slots and rule.
#[verifier::opaque]
pub open spec fn separator_constructors() -> Seq<ConstructorRow> {
    seq![
        ("Separator"@, seq![], ConstructorRule::Separator(SeparatorKind::Horizontal)),
        ("VerticalSeparator"@, seq![], ConstructorRule::Separator(SeparatorKind::Vertical)),
        ("DashedSeparator"@, seq![], ConstructorRule::Separator(SeparatorKind::HorizontalDashed)),
        (
            "VerticalDashedSeparator"@,
            seq![],
            ConstructorRule::Separator(SeparatorKind::VerticalDashed),
        ),
    ]
}

/// The methods of `Separator`: name, argument slots, rule and documentation.
#[verifier::opaque]
pub open spec fn separator_methods() -> Seq<MethodRow> {
    seq![
        (
            "label"@,
            seq![("label"@, ArgumentSchema::String)],
            MethodRule::Text {
                error: "Separator.label(label) expects a string",
                arity: "Separator.label(label) expects a string",
            },
            "Displays text centered over the separator line."@,
        ),
        (
            "color"@,
            seq![("color"@, ArgumentSchema::String)],
            MethodRule::ParsedText {
                parser: TextParser::Color,
                any_text: false,
                invalid: "invalid Separator color: ",
                echo: true,
                error: "Separator.color(color) expects a color string",
                arity: "Separator.color(color) expects a color string",
            },
            "Sets the separator line color."@,
        ),
        ("dashed"@, seq![], MethodRule::Unit, "Uses a dashed separator line."@),
    ]
}

/// Whether `d` is the `Separator` descriptor: its constructors, methods and documentation.
pub open spec fn is_separator_descriptor(d: ComponentDescriptor) -> bool {
    &&& d.kind == ComponentKind::Separator
    &&& d.documentation@ == "A horizontal or vertical, solid or dashed separator."@
    &&& constructor_table(d.constructors@) == separator_constructors()
    &&& method_table(d.methods@) == separator_methods()
}

fn separator_descriptor() -> (d: ComponentDescriptor)
    ensures
        is_separator_descriptor(d),
{
    let d = ComponentDescriptor::new(ComponentKind::Separator)
        .with_constructors(
            vec![
                ConstructorDescriptor::new(
                    "Separator",
                    Vec::new(),
                    ConstructorRule::Separator(SeparatorKind::Horizontal),
                ),
                ConstructorDescriptor::new(
                    "VerticalSeparator",
                    Vec::new(),
                    ConstructorRule::Separator(SeparatorKind::Vertical),
                ),
                ConstructorDescriptor::new(
                    "DashedSeparator",
                    Vec::new(),
                    ConstructorRule::Separator(SeparatorKind::HorizontalDashed),
                ),
                ConstructorDescriptor::new(
                    "VerticalDashedSeparator",
                    Vec::new(),
                    ConstructorRule::Separator(SeparatorKind::VerticalDashed),
                ),
            ],
        )
        .with_methods(
            vec![
                MethodDescriptor::new(
                    "label",
                    vec![ArgumentDescriptor::new("label", ArgumentSchema::String)],
                    MethodRule::Text {
                        error: "Separator.label(label) expects a string",
                        arity: "Separator.label(label) expects a string",
                    },
                ).with_documentation("Displays text centered over the separator line."),
                MethodDescriptor::new(
                    "color",
                    vec![ArgumentDescriptor::new("color", ArgumentSchema::String)],
                    MethodRule::ParsedText {
                        parser: TextParser::Color,
                        any_text: false,
                        invalid: "invalid Separator color: ",
                        echo: true,
                        error: "Separator.color(color) expects a color string",
                        arity: "Separator.color(color) expects a color string",
                    },
                ).with_documentation("Sets the separator line color."),
                MethodDescriptor::new(
                    "dashed",
                    Vec::new(),
                    MethodRule::Unit,
                ).with_documentation("Uses a dashed separator line."),
            ],
        )
        .with_documentation("A horizontal or vertical, solid or dashed separator.");
    proof {
        reveal(separator_constructors);
        assert(constructor_table(d.constructors@) =~~= separator_constructors());
        reveal(separator_methods);
        assert(method_table(d.methods@) =~~= separator_methods());
    }
    d
}

/// Registers `Separator` after the components already registered.
pub fn register(registry: &mut ComponentRegistry)
    requires
        !kinds(old(registry)@).contains(ComponentKind::Separator),
    ensures
        final(registry)@.len() == old(registry)@.len() + 1,
        final(registry)@.take(old(registry)@.len() as int) == old(registry)@,
        is_separator_descriptor(final(registry)@[old(registry)@.len() as int]),
{
    let ghost start = registry@;
    let separator = separator_descriptor();
    let separator_registered = registry.register(separator);
    proof {
        assert(separator_registered is Ok);
    }
    proof {
        assert(registry@.take(start.len() as int) =~= start);
    }
}

} // verus!
