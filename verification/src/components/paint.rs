//! The paint primitives and hit regions a `Canvas` consumes as children.

use vstd::prelude::*;
use crate::registry::{
    constructor_table, kinds, method_table, ArgumentDescriptor, ArgumentSchema, ComponentDescriptor,
    ComponentKind, ComponentRegistry, ConstructorDescriptor, ConstructorRow, MethodDescriptor,
    MethodRow,
};
use crate::rules::{ChoiceList, ConstructorRule, MethodRule, TextParser};
use crate::registry::lemma_grew_by_one;
use crate::rules::{ComponentPayload, Payload};
use crate::calls::copy_lines;
use crate::text::{decimal, decimal_string, strings_view};

verus! {

/// The refusal of a paint primitive whose constructor recorded `count`
/// arguments where it takes `arity`.
pub open spec fn arity_message(arity: nat, count: nat) -> Seq<char> {
    "paint primitive expects "@ + decimal(arity) + " arguments, got "@ + decimal(count)
}

/// The recorded constructor arguments of a paint primitive, when there are as
/// many as it takes.
pub fn paint_arguments(recorded: &Vec<String>, arity: usize) -> (r: Result<Vec<String>, String>)
    ensures
        r is Ok <==> recorded@.len() == arity,
        match r {
            Ok(v) => strings_view(v@) == strings_view(recorded@),
            Err(m) => m@ == arity_message(arity as nat, recorded@.len()),
        },
{
    if recorded.len() != arity {
        let m = String::from_str("paint primitive expects ").concat(
            decimal_string(arity as u64).as_str(),
        ).concat(" arguments, got ").concat(decimal_string(recorded.len() as u64).as_str());
        proof {
            assert(m@ =~= arity_message(arity as nat, recorded@.len()));
        }
        return Err(m);
    }
    Ok(copy_lines(recorded))
}

/// The constructor arguments a paint primitive is drawn from: its payload
/// must be the argument texts its constructor records, as many as it takes.
pub fn paint_input(payload: &ComponentPayload, arity: usize) -> (r: Result<Vec<String>, String>)
    ensures
        match payload@ {
            Payload::Lines(texts) => if texts.len() == arity {
                r matches Ok(v) && strings_view(v@) == texts
            } else {
                r matches Err(m) && m@ == arity_message(arity as nat, texts.len())
            },
            _ => r matches Err(m) && m@ == "paint primitive received an incompatible payload"@,
        },
{
    match payload {
        ComponentPayload::Lines(texts) => paint_arguments(texts, arity),
        _ => Err(String::from_str("paint primitive received an incompatible payload")),
    }
}

/// The constructors of `PaintRect`: export name, argument slots and rule.
#[verifier::opaque]
pub open spec fn paint_rect_constructors() -> Seq<ConstructorRow> {
    seq![
        (
            "PaintRect"@,
            seq![
                ("x"@, ArgumentSchema::String),
                ("y"@, ArgumentSchema::String),
                ("w"@, ArgumentSchema::String),
                ("h"@, ArgumentSchema::String),
            ],
            ConstructorRule::PaintArgs,
        ),
    ]
}

/// The methods of `PaintRect`: name, argument slots, rule and documentation.
#[verifier::opaque]
pub open spec fn paint_rect_methods() -> Seq<MethodRow> {
    seq![
        (
            "fill"@,
            seq![("color"@, ArgumentSchema::String)],
            MethodRule::ParsedText {
                parser: TextParser::Color,
                any_text: true,
                invalid: "fill: expected a color",
                echo: false,
                error: "fill: expected a color",
                arity: "fill(color) expects one color",
            },
            "Fills the rectangle."@,
        ),
        (
            "stroke"@,
            seq![("value"@, ArgumentSchema::Number)],
            MethodRule::Finite { error: "stroke(value) expects a number" },
            "Sets the border width, in pixels."@,
        ),
        (
            "color"@,
            seq![("color"@, ArgumentSchema::String)],
            MethodRule::ParsedText {
                parser: TextParser::Color,
                any_text: true,
                invalid: "color: expected a color",
                echo: false,
                error: "color: expected a color",
                arity: "color(color) expects one color",
            },
            "Sets the border color."@,
        ),
        (
            "radius"@,
            seq![("value"@, ArgumentSchema::Number)],
            MethodRule::Finite { error: "radius(value) expects a number" },
            "Sets the corner radius, in pixels."@,
        ),
    ]
}

/// Whether `d` is the `PaintRect` descriptor: its constructors, methods and documentation.
pub open spec fn is_paint_rect_descriptor(d: ComponentDescriptor) -> bool {
    &&& d.kind == ComponentKind::PaintRect
    &&& d.documentation@ == "A filled/outlined rectangle painted on a Canvas."@
    &&& constructor_table(d.constructors@) == paint_rect_constructors()
    &&& method_table(d.methods@) == paint_rect_methods()
}

fn paint_rect_descriptor() -> (d: ComponentDescriptor)
    ensures
        is_paint_rect_descriptor(d),
{
    let d = ComponentDescriptor::new(ComponentKind::PaintRect)
        .with_constructors(
            vec![
                ConstructorDescriptor::new(
                    "PaintRect",
                    vec![
                        ArgumentDescriptor::new("x", ArgumentSchema::String),
                        ArgumentDescriptor::new("y", ArgumentSchema::String),
                        ArgumentDescriptor::new("w", ArgumentSchema::String),
                        ArgumentDescriptor::new("h", ArgumentSchema::String),
                    ],
                    ConstructorRule::PaintArgs,
                ),
            ],
        )
        .with_methods(
            vec![
                MethodDescriptor::new(
                    "fill",
                    vec![ArgumentDescriptor::new("color", ArgumentSchema::String)],
                    MethodRule::ParsedText {
                        parser: TextParser::Color,
                        any_text: true,
                        invalid: "fill: expected a color",
                        echo: false,
                        error: "fill: expected a color",
                        arity: "fill(color) expects one color",
                    },
                ).with_documentation("Fills the rectangle."),
                MethodDescriptor::new(
                    "stroke",
                    vec![ArgumentDescriptor::new("value", ArgumentSchema::Number)],
                    MethodRule::Finite { error: "stroke(value) expects a number" },
                ).with_documentation("Sets the border width, in pixels."),
                MethodDescriptor::new(
                    "color",
                    vec![ArgumentDescriptor::new("color", ArgumentSchema::String)],
                    MethodRule::ParsedText {
                        parser: TextParser::Color,
                        any_text: true,
                        invalid: "color: expected a color",
                        echo: false,
                        error: "color: expected a color",
                        arity: "color(color) expects one color",
                    },
                ).with_documentation("Sets the border color."),
                MethodDescriptor::new(
                    "radius",
                    vec![ArgumentDescriptor::new("value", ArgumentSchema::Number)],
                    MethodRule::Finite { error: "radius(value) expects a number" },
                ).with_documentation("Sets the corner radius, in pixels."),
            ],
        )
        .with_documentation("A filled/outlined rectangle painted on a Canvas.");
    proof {
        reveal(paint_rect_constructors);
        assert(constructor_table(d.constructors@) =~~= paint_rect_constructors());
        reveal(paint_rect_methods);
        assert(method_table(d.methods@) =~~= paint_rect_methods());
    }
    d
}

/// The constructors of `PaintLine`: export name, argument slots and rule.
#[verifier::opaque]
pub open spec fn paint_line_constructors() -> Seq<ConstructorRow> {
    seq![
        (
            "PaintLine"@,
            seq![
                ("x1"@, ArgumentSchema::String),
                ("y1"@, ArgumentSchema::String),
                ("x2"@, ArgumentSchema::String),
                ("y2"@, ArgumentSchema::String),
            ],
            ConstructorRule::PaintArgs,
        ),
    ]
}

/// The methods of `PaintLine`: name, argument slots, rule and documentation.
#[verifier::opaque]
pub open spec fn paint_line_methods() -> Seq<MethodRow> {
    seq![
        (
            "stroke"@,
            seq![("value"@, ArgumentSchema::Number)],
            MethodRule::Finite { error: "stroke(value) expects a number" },
            "Sets the line width, in pixels."@,
        ),
        (
            "color"@,
            seq![("color"@, ArgumentSchema::String)],
            MethodRule::ParsedText {
                parser: TextParser::Color,
                any_text: true,
                invalid: "color: expected a color",
                echo: false,
                error: "color: expected a color",
                arity: "color(color) expects one color",
            },
            "Sets the line color."@,
        ),
        (
            "dash"@,
            seq![("pattern"@, ArgumentSchema::String)],
            MethodRule::ParsedText {
                parser: TextParser::DashPattern,
                any_text: true,
                invalid: "dash: expected `on off`",
                echo: false,
                error: "dash: expected a pattern",
                arity: "dash(pattern) expects a string",
            },
            "Sets a dash pattern, in pixels."@,
        ),
    ]
}

/// Whether `d` is the `PaintLine` descriptor: its constructors, methods and documentation.
pub open spec fn is_paint_line_descriptor(d: ComponentDescriptor) -> bool {
    &&& d.kind == ComponentKind::PaintLine
    &&& d.documentation@ == "A straight line painted on a Canvas."@
    &&& constructor_table(d.constructors@) == paint_line_constructors()
    &&& method_table(d.methods@) == paint_line_methods()
}

fn paint_line_descriptor() -> (d: ComponentDescriptor)
    ensures
        is_paint_line_descriptor(d),
{
    let d = ComponentDescriptor::new(ComponentKind::PaintLine)
        .with_constructors(
            vec![
                ConstructorDescriptor::new(
                    "PaintLine",
                    vec![
                        ArgumentDescriptor::new("x1", ArgumentSchema::String),
                        ArgumentDescriptor::new("y1", ArgumentSchema::String),
                        ArgumentDescriptor::new("x2", ArgumentSchema::String),
                        ArgumentDescriptor::new("y2", ArgumentSchema::String),
                    ],
                    ConstructorRule::PaintArgs,
                ),
            ],
        )
        .with_methods(
            vec![
                MethodDescriptor::new(
                    "stroke",
                    vec![ArgumentDescriptor::new("value", ArgumentSchema::Number)],
                    MethodRule::Finite { error: "stroke(value) expects a number" },
                ).with_documentation("Sets the line width, in pixels."),
                MethodDescriptor::new(
                    "color",
                    vec![ArgumentDescriptor::new("color", ArgumentSchema::String)],
                    MethodRule::ParsedText {
                        parser: TextParser::Color,
                        any_text: true,
                        invalid: "color: expected a color",
                        echo: false,
                        error: "color: expected a color",
                        arity: "color(color) expects one color",
                    },
                ).with_documentation("Sets the line color."),
                MethodDescriptor::new(
                    "dash",
                    vec![ArgumentDescriptor::new("pattern", ArgumentSchema::String)],
                    MethodRule::ParsedText {
                        parser: TextParser::DashPattern,
                        any_text: true,
                        invalid: "dash: expected `on off`",
                        echo: false,
                        error: "dash: expected a pattern",
                        arity: "dash(pattern) expects a string",
                    },
                ).with_documentation("Sets a dash pattern, in pixels."),
            ],
        )
        .with_documentation("A straight line painted on a Canvas.");
    proof {
        reveal(paint_line_constructors);
        assert(constructor_table(d.constructors@) =~~= paint_line_constructors());
        reveal(paint_line_methods);
        assert(method_table(d.methods@) =~~= paint_line_methods());
    }
    d
}

/// The constructors of `PaintPath`: export name, argument slots and rule.
#[verifier::opaque]
pub open spec fn paint_path_constructors() -> Seq<ConstructorRow> {
    seq![("PaintPath"@, seq![("dsl"@, ArgumentSchema::String)], ConstructorRule::PaintArgs)]
}

/// The methods of `PaintPath`: name, argument slots, rule and documentation.
#[verifier::opaque]
pub open spec fn paint_path_methods() -> Seq<MethodRow> {
    seq![
        (
            "fill"@,
            seq![("color"@, ArgumentSchema::String)],
            MethodRule::ParsedText {
                parser: TextParser::Color,
                any_text: true,
                invalid: "fill: expected a color",
                echo: false,
                error: "fill: expected a color",
                arity: "fill(color) expects one color",
            },
            "Fills the path."@,
        ),
        (
            "stroke"@,
            seq![("value"@, ArgumentSchema::Number)],
            MethodRule::Finite { error: "stroke(value) expects a number" },
            "Strokes the path, in pixels."@,
        ),
        (
            "color"@,
            seq![("color"@, ArgumentSchema::String)],
            MethodRule::ParsedText {
                parser: TextParser::Color,
                any_text: true,
                invalid: "color: expected a color",
                echo: false,
                error: "color: expected a color",
                arity: "color(color) expects one color",
            },
            "Sets the stroke color."@,
        ),
        (
            "dash"@,
            seq![("pattern"@, ArgumentSchema::String)],
            MethodRule::ParsedText {
                parser: TextParser::DashPattern,
                any_text: true,
                invalid: "dash: expected `on off`",
                echo: false,
                error: "dash: expected a pattern",
                arity: "dash(pattern) expects a string",
            },
            "Sets a dash pattern, in pixels."@,
        ),
    ]
}

/// Whether `d` is the `PaintPath` descriptor: its constructors, methods and documentation.
pub open spec fn is_paint_path_descriptor(d: ComponentDescriptor) -> bool {
    &&& d.kind == ComponentKind::PaintPath
    &&& d.documentation@ == "A path painted on a Canvas, from a compact DSL."@
    &&& constructor_table(d.constructors@) == paint_path_constructors()
    &&& method_table(d.methods@) == paint_path_methods()
}

fn paint_path_descriptor() -> (d: ComponentDescriptor)
    ensures
        is_paint_path_descriptor(d),
{
    let d = ComponentDescriptor::new(ComponentKind::PaintPath)
        .with_constructors(
            vec![
                ConstructorDescriptor::new(
                    "PaintPath",
                    vec![ArgumentDescriptor::new("dsl", ArgumentSchema::String)],
                    ConstructorRule::PaintArgs,
                ),
            ],
        )
        .with_methods(
            vec![
                MethodDescriptor::new(
                    "fill",
                    vec![ArgumentDescriptor::new("color", ArgumentSchema::String)],
                    MethodRule::ParsedText {
                        parser: TextParser::Color,
                        any_text: true,
                        invalid: "fill: expected a color",
                        echo: false,
                        error: "fill: expected a color",
                        arity: "fill(color) expects one color",
                    },
                ).with_documentation("Fills the path."),
                MethodDescriptor::new(
                    "stroke",
                    vec![ArgumentDescriptor::new("value", ArgumentSchema::Number)],
                    MethodRule::Finite { error: "stroke(value) expects a number" },
                ).with_documentation("Strokes the path, in pixels."),
                MethodDescriptor::new(
                    "color",
                    vec![ArgumentDescriptor::new("color", ArgumentSchema::String)],
                    MethodRule::ParsedText {
                        parser: TextParser::Color,
                        any_text: true,
                        invalid: "color: expected a color",
                        echo: false,
                        error: "color: expected a color",
                        arity: "color(color) expects one color",
                    },
                ).with_documentation("Sets the stroke color."),
                MethodDescriptor::new(
                    "dash",
                    vec![ArgumentDescriptor::new("pattern", ArgumentSchema::String)],
                    MethodRule::ParsedText {
                        parser: TextParser::DashPattern,
                        any_text: true,
                        invalid: "dash: expected `on off`",
                        echo: false,
                        error: "dash: expected a pattern",
                        arity: "dash(pattern) expects a string",
                    },
                ).with_documentation("Sets a dash pattern, in pixels."),
            ],
        )
        .with_documentation("A path painted on a Canvas, from a compact DSL.");
    proof {
        reveal(paint_path_constructors);
        assert(constructor_table(d.constructors@) =~~= paint_path_constructors());
        reveal(paint_path_methods);
        assert(method_table(d.methods@) =~~= paint_path_methods());
    }
    d
}

/// The constructors of `PaintGradient`: export name, argument slots and rule.
#[verifier::opaque]
pub open spec fn paint_gradient_constructors() -> Seq<ConstructorRow> {
    seq![
        (
            "PaintGradient"@,
            seq![
                ("x"@, ArgumentSchema::String),
                ("y"@, ArgumentSchema::String),
                ("w"@, ArgumentSchema::String),
                ("h"@, ArgumentSchema::String),
                ("angle"@, ArgumentSchema::String),
                ("from"@, ArgumentSchema::String),
                ("to"@, ArgumentSchema::String),
            ],
            ConstructorRule::PaintArgs,
        ),
    ]
}

/// The methods of `PaintGradient`: name, argument slots, rule and documentation.
#[verifier::opaque]
pub open spec fn paint_gradient_methods() -> Seq<MethodRow> {
    seq![
        (
            "radius"@,
            seq![("value"@, ArgumentSchema::Number)],
            MethodRule::Finite { error: "radius(value) expects a number" },
            "Sets the corner radius, in pixels."@,
        ),
    ]
}

/// Whether `d` is the `PaintGradient` descriptor: its constructors, methods and documentation.
pub open spec fn is_paint_gradient_descriptor(d: ComponentDescriptor) -> bool {
    &&& d.kind == ComponentKind::PaintGradient
    &&& d.documentation@ == "A two-stop linear gradient rectangle painted on a Canvas."@
    &&& constructor_table(d.constructors@) == paint_gradient_constructors()
    &&& method_table(d.methods@) == paint_gradient_methods()
}

fn paint_gradient_descriptor() -> (d: ComponentDescriptor)
    ensures
        is_paint_gradient_descriptor(d),
{
    let d = ComponentDescriptor::new(ComponentKind::PaintGradient)
        .with_constructors(
            vec![
                ConstructorDescriptor::new(
                    "PaintGradient",
                    vec![
                        ArgumentDescriptor::new("x", ArgumentSchema::String),
                        ArgumentDescriptor::new("y", ArgumentSchema::String),
                        ArgumentDescriptor::new("w", ArgumentSchema::String),
                        ArgumentDescriptor::new("h", ArgumentSchema::String),
                        ArgumentDescriptor::new("angle", ArgumentSchema::String),
                        ArgumentDescriptor::new("from", ArgumentSchema::String),
                        ArgumentDescriptor::new("to", ArgumentSchema::String),
                    ],
                    ConstructorRule::PaintArgs,
                ),
            ],
        )
        .with_methods(
            vec![
                MethodDescriptor::new(
                    "radius",
                    vec![ArgumentDescriptor::new("value", ArgumentSchema::Number)],
                    MethodRule::Finite { error: "radius(value) expects a number" },
                ).with_documentation("Sets the corner radius, in pixels."),
            ],
        )
        .with_documentation("A two-stop linear gradient rectangle painted on a Canvas.");
    proof {
        reveal(paint_gradient_constructors);
        assert(constructor_table(d.constructors@) =~~= paint_gradient_constructors());
        reveal(paint_gradient_methods);
        assert(method_table(d.methods@) =~~= paint_gradient_methods());
    }
    d
}

/// The constructors of `PaintShadow`: export name, argument slots and rule.
#[verifier::opaque]
pub open spec fn paint_shadow_constructors() -> Seq<ConstructorRow> {
    seq![
        (
            "PaintShadow"@,
            seq![
                ("x"@, ArgumentSchema::String),
                ("y"@, ArgumentSchema::String),
                ("w"@, ArgumentSchema::String),
                ("h"@, ArgumentSchema::String),
                ("offset_x"@, ArgumentSchema::String),
                ("offset_y"@, ArgumentSchema::String),
                ("blur"@, ArgumentSchema::String),
                ("color"@, ArgumentSchema::String),
            ],
            ConstructorRule::PaintArgs,
        ),
    ]
}

/// The methods of `PaintShadow`: name, argument slots, rule and documentation.
#[verifier::opaque]
pub open spec fn paint_shadow_methods() -> Seq<MethodRow> {
    seq![
        (
            "inset"@,
            seq![("inset"@, ArgumentSchema::Boolean)],
            MethodRule::FlagOrNumber { error: "inset(flag) expects a boolean" },
            "Draws the shadow inside the bounds."@,
        ),
        (
            "radius"@,
            seq![("value"@, ArgumentSchema::Number)],
            MethodRule::Finite { error: "radius(value) expects a number" },
            "Sets the corner radius, in pixels."@,
        ),
    ]
}

/// Whether `d` is the `PaintShadow` descriptor: its constructors, methods and documentation.
pub open spec fn is_paint_shadow_descriptor(d: ComponentDescriptor) -> bool {
    &&& d.kind == ComponentKind::PaintShadow
    &&& d.documentation@ == "A drop/inset shadow painted on a Canvas."@
    &&& constructor_table(d.constructors@) == paint_shadow_constructors()
    &&& method_table(d.methods@) == paint_shadow_methods()
}

fn paint_shadow_descriptor() -> (d: ComponentDescriptor)
    ensures
        is_paint_shadow_descriptor(d),
{
    let d = ComponentDescriptor::new(ComponentKind::PaintShadow)
        .with_constructors(
            vec![
                ConstructorDescriptor::new(
                    "PaintShadow",
                    vec![
                        ArgumentDescriptor::new("x", ArgumentSchema::String),
                        ArgumentDescriptor::new("y", ArgumentSchema::String),
                        ArgumentDescriptor::new("w", ArgumentSchema::String),
                        ArgumentDescriptor::new("h", ArgumentSchema::String),
                        ArgumentDescriptor::new("offset_x", ArgumentSchema::String),
                        ArgumentDescriptor::new("offset_y", ArgumentSchema::String),
                        ArgumentDescriptor::new("blur", ArgumentSchema::String),
                        ArgumentDescriptor::new("color", ArgumentSchema::String),
                    ],
                    ConstructorRule::PaintArgs,
                ),
            ],
        )
        .with_methods(
            vec![
                MethodDescriptor::new(
                    "inset",
                    vec![ArgumentDescriptor::new("inset", ArgumentSchema::Boolean)],
                    MethodRule::FlagOrNumber { error: "inset(flag) expects a boolean" },
                ).with_documentation("Draws the shadow inside the bounds."),
                MethodDescriptor::new(
                    "radius",
                    vec![ArgumentDescriptor::new("value", ArgumentSchema::Number)],
                    MethodRule::Finite { error: "radius(value) expects a number" },
                ).with_documentation("Sets the corner radius, in pixels."),
            ],
        )
        .with_documentation("A drop/inset shadow painted on a Canvas.");
    proof {
        reveal(paint_shadow_constructors);
        assert(constructor_table(d.constructors@) =~~= paint_shadow_constructors());
        reveal(paint_shadow_methods);
        assert(method_table(d.methods@) =~~= paint_shadow_methods());
    }
    d
}

/// The constructors of `HitRegion`: export name, argument slots and rule.
#[verifier::opaque]
pub open spec fn hit_region_constructors() -> Seq<ConstructorRow> {
    seq![
        (
            "HitRegion"@,
            seq![
                ("id"@, ArgumentSchema::String),
                ("x"@, ArgumentSchema::String),
                ("y"@, ArgumentSchema::String),
                ("w"@, ArgumentSchema::String),
                ("h"@, ArgumentSchema::String),
            ],
            ConstructorRule::PaintArgs,
        ),
    ]
}

/// The methods of `HitRegion`: name, argument slots, rule and documentation.
#[verifier::opaque]
pub open spec fn hit_region_methods() -> Seq<MethodRow> {
    seq![
        (
            "block_mouse"@,
            seq![("block"@, ArgumentSchema::Boolean)],
            MethodRule::FlagOrNumber { error: "block_mouse(flag) expects a boolean" },
            "Blocks mouse events from reaching regions beneath."@,
        ),
        (
            "block_mouse_except_scroll"@,
            seq![("block"@, ArgumentSchema::Boolean)],
            MethodRule::FlagOrNumber { error: "block_mouse_except_scroll(flag) expects a boolean" },
            "Blocks mouse events but allows scroll to pass through."@,
        ),
        (
            "cursor"@,
            seq![("cursor"@, ArgumentSchema::Enum(ChoiceList::CursorSchema))],
            MethodRule::Choice {
                list: ChoiceList::Cursor,
                any_text: true,
                unsupported: "cursor: unknown cursor name",
                echo: false,
                error: "cursor: unknown cursor name",
                arity: "cursor(name) expects a string",
            },
            "Sets the cursor while hovering the region."@,
        ),
        (
            "on_hover_enter"@,
            seq![("callback"@, ArgumentSchema::Callback)],
            MethodRule::Callback { error: "on_hover_enter(callback) expects a callback" },
            "Runs when the pointer enters the region."@,
        ),
        (
            "on_hover_exit"@,
            seq![("callback"@, ArgumentSchema::Callback)],
            MethodRule::Callback { error: "on_hover_exit(callback) expects a callback" },
            "Runs when the pointer leaves the region."@,
        ),
        (
            "on_press"@,
            seq![("callback"@, ArgumentSchema::Callback)],
            MethodRule::Callback { error: "on_press(callback) expects a callback" },
            "Runs when the region is pressed."@,
        ),
        (
            "on_release"@,
            seq![("callback"@, ArgumentSchema::Callback)],
            MethodRule::Callback { error: "on_release(callback) expects a callback" },
            "Runs when the region is released."@,
        ),
        (
            "on_move"@,
            seq![("callback"@, ArgumentSchema::Callback)],
            MethodRule::Callback { error: "on_move(callback) expects a callback" },
            "Runs as the pointer moves over the region, with local coordinates."@,
        ),
        (
            "on_scroll"@,
            seq![("callback"@, ArgumentSchema::Callback)],
            MethodRule::Callback { error: "on_scroll(callback) expects a callback" },
            "Runs when the region is scrolled, with the scroll delta."@,
        ),
    ]
}

/// Whether `d` is the `HitRegion` descriptor: its constructors, methods and documentation.
pub open spec fn is_hit_region_descriptor(d: ComponentDescriptor) -> bool {
    &&& d.kind == ComponentKind::HitRegion
    &&& d.documentation@ == "A clickable region on a Canvas."@
    &&& constructor_table(d.constructors@) == hit_region_constructors()
    &&& method_table(d.methods@) == hit_region_methods()
}

fn hit_region_descriptor() -> (d: ComponentDescriptor)
    ensures
        is_hit_region_descriptor(d),
{
    let d = ComponentDescriptor::new(ComponentKind::HitRegion)
        .with_constructors(
            vec![
                ConstructorDescriptor::new(
                    "HitRegion",
                    vec![
                        ArgumentDescriptor::new("id", ArgumentSchema::String),
                        ArgumentDescriptor::new("x", ArgumentSchema::String),
                        ArgumentDescriptor::new("y", ArgumentSchema::String),
                        ArgumentDescriptor::new("w", ArgumentSchema::String),
                        ArgumentDescriptor::new("h", ArgumentSchema::String),
                    ],
                    ConstructorRule::PaintArgs,
                ),
            ],
        )
        .with_methods(
            vec![
                MethodDescriptor::new(
                    "block_mouse",
                    vec![ArgumentDescriptor::new("block", ArgumentSchema::Boolean)],
                    MethodRule::FlagOrNumber { error: "block_mouse(flag) expects a boolean" },
                ).with_documentation("Blocks mouse events from reaching regions beneath."),
                MethodDescriptor::new(
                    "block_mouse_except_scroll",
                    vec![ArgumentDescriptor::new("block", ArgumentSchema::Boolean)],
                    MethodRule::FlagOrNumber {
                        error: "block_mouse_except_scroll(flag) expects a boolean",
                    },
                ).with_documentation("Blocks mouse events but allows scroll to pass through."),
                MethodDescriptor::new(
                    "cursor",
                    vec![
                        ArgumentDescriptor::new(
                            "cursor",
                            ArgumentSchema::Enum(ChoiceList::CursorSchema),
                        ),
                    ],
                    MethodRule::Choice {
                        list: ChoiceList::Cursor,
                        any_text: true,
                        unsupported: "cursor: unknown cursor name",
                        echo: false,
                        error: "cursor: unknown cursor name",
                        arity: "cursor(name) expects a string",
                    },
                ).with_documentation("Sets the cursor while hovering the region."),
                MethodDescriptor::new(
                    "on_hover_enter",
                    vec![ArgumentDescriptor::new("callback", ArgumentSchema::Callback)],
                    MethodRule::Callback { error: "on_hover_enter(callback) expects a callback" },
                ).with_documentation("Runs when the pointer enters the region."),
                MethodDescriptor::new(
                    "on_hover_exit",
                    vec![ArgumentDescriptor::new("callback", ArgumentSchema::Callback)],
                    MethodRule::Callback { error: "on_hover_exit(callback) expects a callback" },
                ).with_documentation("Runs when the pointer leaves the region."),
                MethodDescriptor::new(
                    "on_press",
                    vec![ArgumentDescriptor::new("callback", ArgumentSchema::Callback)],
                    MethodRule::Callback { error: "on_press(callback) expects a callback" },
                ).with_documentation("Runs when the region is pressed."),
                MethodDescriptor::new(
                    "on_release",
                    vec![ArgumentDescriptor::new("callback", ArgumentSchema::Callback)],
                    MethodRule::Callback { error: "on_release(callback) expects a callback" },
                ).with_documentation("Runs when the region is released."),
                MethodDescriptor::new(
                    "on_move",
                    vec![ArgumentDescriptor::new("callback", ArgumentSchema::Callback)],
                    MethodRule::Callback { error: "on_move(callback) expects a callback" },
                ).with_documentation(
                    "Runs as the pointer moves over the region, with local coordinates.",
                ),
                MethodDescriptor::new(
                    "on_scroll",
                    vec![ArgumentDescriptor::new("callback", ArgumentSchema::Callback)],
                    MethodRule::Callback { error: "on_scroll(callback) expects a callback" },
                ).with_documentation("Runs when the region is scrolled, with the scroll delta."),
            ],
        )
        .with_documentation("A clickable region on a Canvas.");
    proof {
        reveal(hit_region_constructors);
        assert(constructor_table(d.constructors@) =~~= hit_region_constructors());
        reveal(hit_region_methods);
        assert(method_table(d.methods@) =~~= hit_region_methods());
    }
    d
}

/// The constructors of `PaintImage`: export name, argument slots and rule.
#[verifier::opaque]
pub open spec fn paint_image_constructors() -> Seq<ConstructorRow> {
    seq![
        (
            "PaintImage"@,
            seq![
                ("x"@, ArgumentSchema::String),
                ("y"@, ArgumentSchema::String),
                ("w"@, ArgumentSchema::String),
                ("h"@, ArgumentSchema::String),
                ("source"@, ArgumentSchema::String),
            ],
            ConstructorRule::PaintArgs,
        ),
    ]
}

/// The methods of `PaintImage`: name, argument slots, rule and documentation.
#[verifier::opaque]
pub open spec fn paint_image_methods() -> Seq<MethodRow> {
    seq![
        (
            "tint"@,
            seq![("color"@, ArgumentSchema::String)],
            MethodRule::ParsedText {
                parser: TextParser::Color,
                any_text: true,
                invalid: "tint: expected a color",
                echo: false,
                error: "tint: expected a color",
                arity: "tint(color) expects one color",
            },
            "Tints the SVG."@,
        ),
    ]
}

/// Whether `d` is the `PaintImage` descriptor: its constructors, methods and documentation.
pub open spec fn is_paint_image_descriptor(d: ComponentDescriptor) -> bool {
    &&& d.kind == ComponentKind::PaintImage
    &&& d.documentation@ == "An SVG painted on a Canvas."@
    &&& constructor_table(d.constructors@) == paint_image_constructors()
    &&& method_table(d.methods@) == paint_image_methods()
}

fn paint_image_descriptor() -> (d: ComponentDescriptor)
    ensures
        is_paint_image_descriptor(d),
{
    let d = ComponentDescriptor::new(ComponentKind::PaintImage)
        .with_constructors(
            vec![
                ConstructorDescriptor::new(
                    "PaintImage",
                    vec![
                        ArgumentDescriptor::new("x", ArgumentSchema::String),
                        ArgumentDescriptor::new("y", ArgumentSchema::String),
                        ArgumentDescriptor::new("w", ArgumentSchema::String),
                        ArgumentDescriptor::new("h", ArgumentSchema::String),
                        ArgumentDescriptor::new("source", ArgumentSchema::String),
                    ],
                    ConstructorRule::PaintArgs,
                ),
            ],
        )
        .with_methods(
            vec![
                MethodDescriptor::new(
                    "tint",
                    vec![ArgumentDescriptor::new("color", ArgumentSchema::String)],
                    MethodRule::ParsedText {
                        parser: TextParser::Color,
                        any_text: true,
                        invalid: "tint: expected a color",
                        echo: false,
                        error: "tint: expected a color",
                        arity: "tint(color) expects one color",
                    },
                ).with_documentation("Tints the SVG."),
            ],
        )
        .with_documentation("An SVG painted on a Canvas.");
    proof {
        reveal(paint_image_constructors);
        assert(constructor_table(d.constructors@) =~~= paint_image_constructors());
        reveal(paint_image_methods);
        assert(method_table(d.methods@) =~~= paint_image_methods());
    }
    d
}

/// Registers `PaintRect` after the components already registered.
fn register_rect(registry: &mut ComponentRegistry)
    requires
        !kinds(old(registry)@).contains(ComponentKind::PaintRect),
    ensures
        final(registry)@.len() == old(registry)@.len() + 1,
        final(registry)@.take(old(registry)@.len() as int) == old(registry)@,
        is_paint_rect_descriptor(final(registry)@[old(registry)@.len() as int]),
{
    let ghost start = registry@;
    let paint_rect = paint_rect_descriptor();
    let paint_rect_registered = registry.register(paint_rect);
    proof {
        assert(paint_rect_registered is Ok);
    }
    proof {
        assert(registry@.take(start.len() as int) =~= start);
    }
}

/// Registers `PaintLine` after the components already registered.
fn register_line(registry: &mut ComponentRegistry)
    requires
        !kinds(old(registry)@).contains(ComponentKind::PaintLine),
    ensures
        final(registry)@.len() == old(registry)@.len() + 1,
        final(registry)@.take(old(registry)@.len() as int) == old(registry)@,
        is_paint_line_descriptor(final(registry)@[old(registry)@.len() as int]),
{
    let ghost start = registry@;
    let paint_line = paint_line_descriptor();
    let paint_line_registered = registry.register(paint_line);
    proof {
        assert(paint_line_registered is Ok);
    }
    proof {
        assert(registry@.take(start.len() as int) =~= start);
    }
}

/// Registers `PaintPath` after the components already registered.
fn register_path(registry: &mut ComponentRegistry)
    requires
        !kinds(old(registry)@).contains(ComponentKind::PaintPath),
    ensures
        final(registry)@.len() == old(registry)@.len() + 1,
        final(registry)@.take(old(registry)@.len() as int) == old(registry)@,
        is_paint_path_descriptor(final(registry)@[old(registry)@.len() as int]),
{
    let ghost start = registry@;
    let paint_path = paint_path_descriptor();
    let paint_path_registered = registry.register(paint_path);
    proof {
        assert(paint_path_registered is Ok);
    }
    proof {
        assert(registry@.take(start.len() as int) =~= start);
    }
}

/// Registers `PaintGradient` after the components already registered.
fn register_gradient(registry: &mut ComponentRegistry)
    requires
        !kinds(old(registry)@).contains(ComponentKind::PaintGradient),
    ensures
        final(registry)@.len() == old(registry)@.len() + 1,
        final(registry)@.take(old(registry)@.len() as int) == old(registry)@,
        is_paint_gradient_descriptor(final(registry)@[old(registry)@.len() as int]),
{
    let ghost start = registry@;
    let paint_gradient = paint_gradient_descriptor();
    let paint_gradient_registered = registry.register(paint_gradient);
    proof {
        assert(paint_gradient_registered is Ok);
    }
    proof {
        assert(registry@.take(start.len() as int) =~= start);
    }
}

/// Registers `PaintShadow` after the components already registered.
fn register_shadow(registry: &mut ComponentRegistry)
    requires
        !kinds(old(registry)@).contains(ComponentKind::PaintShadow),
    ensures
        final(registry)@.len() == old(registry)@.len() + 1,
        final(registry)@.take(old(registry)@.len() as int) == old(registry)@,
        is_paint_shadow_descriptor(final(registry)@[old(registry)@.len() as int]),
{
    let ghost start = registry@;
    let paint_shadow = paint_shadow_descriptor();
    let paint_shadow_registered = registry.register(paint_shadow);
    proof {
        assert(paint_shadow_registered is Ok);
    }
    proof {
        assert(registry@.take(start.len() as int) =~= start);
    }
}

/// Registers `HitRegion` after the components already registered.
fn register_hit_region(registry: &mut ComponentRegistry)
    requires
        !kinds(old(registry)@).contains(ComponentKind::HitRegion),
    ensures
        final(registry)@.len() == old(registry)@.len() + 1,
        final(registry)@.take(old(registry)@.len() as int) == old(registry)@,
        is_hit_region_descriptor(final(registry)@[old(registry)@.len() as int]),
{
    let ghost start = registry@;
    let hit_region = hit_region_descriptor();
    let hit_region_registered = registry.register(hit_region);
    proof {
        assert(hit_region_registered is Ok);
    }
    proof {
        assert(registry@.take(start.len() as int) =~= start);
    }
}

/// Registers the paint primitives and `HitRegion` after the components already
/// registered, in this order: `PaintRect`, `PaintLine`, `PaintPath`,
/// `PaintGradient`, `PaintShadow`, `HitRegion`.
pub fn register(registry: &mut ComponentRegistry)
    requires
        !kinds(old(registry)@).contains(ComponentKind::PaintRect),
        !kinds(old(registry)@).contains(ComponentKind::PaintLine),
        !kinds(old(registry)@).contains(ComponentKind::PaintPath),
        !kinds(old(registry)@).contains(ComponentKind::PaintGradient),
        !kinds(old(registry)@).contains(ComponentKind::PaintShadow),
        !kinds(old(registry)@).contains(ComponentKind::HitRegion),
    ensures
        final(registry)@.len() == old(registry)@.len() + 6,
        final(registry)@.take(old(registry)@.len() as int) == old(registry)@,
        is_paint_rect_descriptor(final(registry)@[old(registry)@.len() as int]),
        is_paint_line_descriptor(final(registry)@[old(registry)@.len() as int + 1]),
        is_paint_path_descriptor(final(registry)@[old(registry)@.len() as int + 2]),
        is_paint_gradient_descriptor(final(registry)@[old(registry)@.len() as int + 3]),
        is_paint_shadow_descriptor(final(registry)@[old(registry)@.len() as int + 4]),
        is_hit_region_descriptor(final(registry)@[old(registry)@.len() as int + 5]),
{
    let ghost start = registry@;
    register_rect(registry);
    proof {
        lemma_grew_by_one(start, registry@);
    }
    let ghost rect = registry@;
    register_line(registry);
    proof {
        lemma_grew_by_one(rect, registry@);
    }
    let ghost line = registry@;
    register_path(registry);
    proof {
        lemma_grew_by_one(line, registry@);
    }
    let ghost path = registry@;
    register_gradient(registry);
    proof {
        lemma_grew_by_one(path, registry@);
    }
    let ghost gradient = registry@;
    register_shadow(registry);
    proof {
        lemma_grew_by_one(gradient, registry@);
    }
    let ghost shadow = registry@;
    register_hit_region(registry);
    proof {
        lemma_grew_by_one(shadow, registry@);
        assert(registry@.take(start.len() as int) =~= start);
    }
}

/// Registers `PaintImage`, apart from the other primitives so that it takes the last id.
pub fn register_image(registry: &mut ComponentRegistry)
    requires
        !kinds(old(registry)@).contains(ComponentKind::PaintImage),
    ensures
        final(registry)@.len() == old(registry)@.len() + 1,
        final(registry)@.take(old(registry)@.len() as int) == old(registry)@,
        is_paint_image_descriptor(final(registry)@[old(registry)@.len() as int]),
{
    let ghost start = registry@;
    let paint_image = paint_image_descriptor();
    let paint_image_registered = registry.register(paint_image);
    proof {
        assert(paint_image_registered is Ok);
    }
    proof {
        assert(registry@.take(start.len() as int) =~= start);
    }
}

} // verus!
