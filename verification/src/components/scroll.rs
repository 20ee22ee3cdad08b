//! The `Scroll` area and the `Scrollbar` that drives the area sharing its id.

use vstd::prelude::*;
use crate::registry::{
    constructor_table, kinds, lemma_kinds_push, method_table, ArgumentDescriptor, ArgumentSchema,
    ComponentDescriptor, ComponentKind, ComponentRegistry, ConstructorDescriptor, ConstructorRow,
    MethodDescriptor, MethodRow,
};
use crate::rules::{ChoiceList, ConstructorRule, MethodRule};
use crate::calls::{
    calls_view, choice, flag_or, last_choice, last_flag_or, last_number, number, MethodCall,
};
use crate::rules::choice_literals;

verus! {

/// The axes a scroll area scrolls along.
#[derive(PartialEq, Eq, Clone, Copy, Debug, Structural)]
pub enum ScrollAxis {
    Vertical,
    Horizontal,
    Both,
}

/// When a scrollbar shows.
#[derive(PartialEq, Eq, Clone, Copy, Debug, Structural)]
pub enum ScrollbarMode {
    Scrolling,
    Hover,
    Always,
}

/// The axis named by the index of its literal (`vertical`, `horizontal`,
/// `both`).
pub open spec fn axis_of_choice(index: Option<u64>) -> Option<ScrollAxis> {
    match index {
        Some(0) => Some(ScrollAxis::Vertical),
        Some(1) => Some(ScrollAxis::Horizontal),
        Some(2) => Some(ScrollAxis::Both),
        _ => None,
    }
}

/// The mode named by the index of its literal (`scrolling`, `hover`,
/// `always`).
pub open spec fn mode_of_choice(index: Option<u64>) -> Option<ScrollbarMode> {
    match index {
        Some(0) => Some(ScrollbarMode::Scrolling),
        Some(1) => Some(ScrollbarMode::Hover),
        Some(2) => Some(ScrollbarMode::Always),
        _ => None,
    }
}

/// What the calls on a `Scroll` or `Scrollbar` configure.
pub struct ScrollSettings {
    pub axis: Option<ScrollAxis>,
    pub mode: Option<ScrollbarMode>,
    pub viewport_from_layout: bool,
    /// The bits of the binary64 pixel amount of a `scroll_by` nudge.
    pub by: Option<u64>,
}

/// The settings the calls leave, the last call of each method winning.
pub fn resolve_ops(calls: &Vec<MethodCall>) -> (settings: ScrollSettings)
    ensures
        settings.axis == axis_of_choice(last_choice(calls_view(calls@), "scroll_axis"@)),
        settings.mode == mode_of_choice(last_choice(calls_view(calls@), "mode"@)),
        settings.viewport_from_layout == last_flag_or(
            calls_view(calls@),
            "viewport_from_layout"@,
            false,
        ),
        settings.by == last_number(calls_view(calls@), "scroll_by"@),
{
    let axis = match choice(calls, "scroll_axis") {
        Some(0) => Some(ScrollAxis::Vertical),
        Some(1) => Some(ScrollAxis::Horizontal),
        Some(2) => Some(ScrollAxis::Both),
        _ => None,
    };
    let mode = match choice(calls, "mode") {
        Some(0) => Some(ScrollbarMode::Scrolling),
        Some(1) => Some(ScrollbarMode::Hover),
        Some(2) => Some(ScrollbarMode::Always),
        _ => None,
    };
    ScrollSettings {
        axis,
        mode,
        viewport_from_layout: flag_or(calls, "viewport_from_layout", false),
        by: number(calls, "scroll_by"),
    }
}

/// The axis a `scroll_axis` call sets is the one its literal names:
/// `vertical`, `horizontal` or `both`, whatever position the literal has.
pub proof fn lemma_axis_follows_its_literal(i: u64)
    requires
        i < choice_literals(ChoiceList::ScrollAxis).len(),
    ensures
        choice_literals(ChoiceList::ScrollAxis)[i as int] == "vertical"@ ==> axis_of_choice(
            Some(i),
        ) == Some(ScrollAxis::Vertical),
        choice_literals(ChoiceList::ScrollAxis)[i as int] == "horizontal"@ ==> axis_of_choice(
            Some(i),
        ) == Some(ScrollAxis::Horizontal),
        choice_literals(ChoiceList::ScrollAxis)[i as int] == "both"@ ==> axis_of_choice(Some(i))
            == Some(ScrollAxis::Both),
{
    reveal_strlit("vertical");
    reveal_strlit("horizontal");
    reveal_strlit("both");
    assert("vertical"@.len() == 8 && "horizontal"@.len() == 10 && "both"@.len() == 4);
}

/// The scrollbar mode a `mode` call sets is the one its literal names:
/// `scrolling`, `hover` or `always`, whatever position the literal has.
pub proof fn lemma_mode_follows_its_literal(i: u64)
    requires
        i < choice_literals(ChoiceList::ScrollbarMode).len(),
    ensures
        choice_literals(ChoiceList::ScrollbarMode)[i as int] == "scrolling"@ ==> mode_of_choice(
            Some(i),
        ) == Some(ScrollbarMode::Scrolling),
        choice_literals(ChoiceList::ScrollbarMode)[i as int] == "hover"@ ==> mode_of_choice(
            Some(i),
        ) == Some(ScrollbarMode::Hover),
        choice_literals(ChoiceList::ScrollbarMode)[i as int] == "always"@ ==> mode_of_choice(
            Some(i),
        ) == Some(ScrollbarMode::Always),
{
    reveal_strlit("scrolling");
    reveal_strlit("hover");
    reveal_strlit("always");
    assert("scrolling"@.len() == 9 && "hover"@.len() == 5 && "always"@.len() == 6);
}

/// The constructors of `Scroll`: export name, argument slots and rule.
#[verifier::opaque]
pub open spec fn scroll_constructors() -> Seq<ConstructorRow> {
    seq![
        (
            "Scroll"@,
            seq![("id"@, ArgumentSchema::String)],
            ConstructorRule::Text { error: "Scroll(id) expects one string" },
        ),
    ]
}

/// The methods of `Scroll`: name, argument slots, rule and documentation.
#[verifier::opaque]
pub open spec fn scroll_methods() -> Seq<MethodRow> {
    seq![
        (
            "scroll_axis"@,
            seq![("axis"@, ArgumentSchema::Enum(ChoiceList::ScrollAxis))],
            MethodRule::Choice {
                list: ChoiceList::ScrollAxis,
                any_text: false,
                unsupported: "axis expects vertical, horizontal, or both",
                echo: false,
                error: "axis expects one enum string",
                arity: "axis expects one enum string",
            },
            "Selects the native scroll axes."@,
        ),
        (
            "scroll_by"@,
            seq![("pixels"@, ArgumentSchema::Number)],
            MethodRule::Scalar { error: "Scroll.scroll_by expects one number" },
            "Nudges the scroll area horizontally by a pixel amount. Emit it only on the frame a nudge is requested; the offset persists on the retained handle."@,
        ),
    ]
}

/// Whether `d` is the `Scroll` descriptor: its constructors, methods and documentation.
pub open spec fn is_scroll_descriptor(d: ComponentDescriptor) -> bool {
    &&& d.kind == ComponentKind::Scroll
    &&& d.documentation@ == "A scrollable area; a Scrollbar of the same id drives it. Defaults to vertical scrolling and accepts ordinary children and shell style."@
    &&& constructor_table(d.constructors@) == scroll_constructors()
    &&& method_table(d.methods@) == scroll_methods()
}

fn scroll_descriptor() -> (d: ComponentDescriptor)
    ensures
        is_scroll_descriptor(d),
{
    let d = ComponentDescriptor::new(ComponentKind::Scroll)
        .with_constructors(
            vec![
                ConstructorDescriptor::new(
                    "Scroll",
                    vec![ArgumentDescriptor::new("id", ArgumentSchema::String)],
                    ConstructorRule::Text { error: "Scroll(id) expects one string" },
                ),
            ],
        )
        .with_methods(
            vec![
                MethodDescriptor::new(
                    "scroll_axis",
                    vec![
                        ArgumentDescriptor::new(
                            "axis",
                            ArgumentSchema::Enum(ChoiceList::ScrollAxis),
                        ),
                    ],
                    MethodRule::Choice {
                        list: ChoiceList::ScrollAxis,
                        any_text: false,
                        unsupported: "axis expects vertical, horizontal, or both",
                        echo: false,
                        error: "axis expects one enum string",
                        arity: "axis expects one enum string",
                    },
                ).with_documentation("Selects the native scroll axes."),
                MethodDescriptor::new(
                    "scroll_by",
                    vec![ArgumentDescriptor::new("pixels", ArgumentSchema::Number)],
                    MethodRule::Scalar { error: "Scroll.scroll_by expects one number" },
                ).with_documentation(
                    "Nudges the scroll area horizontally by a pixel amount. Emit it only on the frame a nudge is requested; the offset persists on the retained handle.",
                ),
            ],
        )
        .with_documentation(
            "A scrollable area; a Scrollbar of the same id drives it. Defaults to vertical scrolling and accepts ordinary children and shell style.",
        );
    proof {
        reveal(scroll_constructors);
        assert(constructor_table(d.constructors@) =~~= scroll_constructors());
        reveal(scroll_methods);
        assert(method_table(d.methods@) =~~= scroll_methods());
    }
    d
}

/// The constructors of `Scrollbar`: export name, argument slots and rule.
#[verifier::opaque]
pub open spec fn scrollbar_constructors() -> Seq<ConstructorRow> {
    seq![
        (
            "Scrollbar"@,
            seq![("target"@, ArgumentSchema::String)],
            ConstructorRule::Text { error: "Scroll(id) expects one string" },
        ),
    ]
}

/// The methods of `Scrollbar`: name, argument slots, rule and documentation.
#[verifier::opaque]
pub open spec fn scrollbar_methods() -> Seq<MethodRow> {
    seq![
        (
            "scroll_axis"@,
            seq![("axis"@, ArgumentSchema::Enum(ChoiceList::ScrollAxis))],
            MethodRule::Choice {
                list: ChoiceList::ScrollAxis,
                any_text: false,
                unsupported: "axis expects vertical, horizontal, or both",
                echo: false,
                error: "axis expects one enum string",
                arity: "axis expects one enum string",
            },
            "Selects the native scroll axes."@,
        ),
        (
            "mode"@,
            seq![("mode"@, ArgumentSchema::Enum(ChoiceList::ScrollbarMode))],
            MethodRule::Choice {
                list: ChoiceList::ScrollbarMode,
                any_text: false,
                unsupported: "Scrollbar.mode expects scrolling, hover, or always",
                echo: false,
                error: "Scrollbar.mode expects one enum string",
                arity: "Scrollbar.mode expects one enum string",
            },
            "Sets the native scrollbar visibility policy."@,
        ),
        (
            "viewport_from_layout"@,
            seq![("enabled"@, ArgumentSchema::Boolean)],
            MethodRule::Flag {
                error: "Scrollbar.viewport_from_layout expects boolean",
                arity: "Scrollbar.viewport_from_layout expects boolean",
            },
            "Uses this element's layout bounds as the native viewport."@,
        ),
    ]
}

/// Whether `d` is the `Scrollbar` descriptor: its constructors, methods and documentation.
pub open spec fn is_scrollbar_descriptor(d: ComponentDescriptor) -> bool {
    &&& d.kind == ComponentKind::Scrollbar
    &&& d.documentation@ == "A bar that drives the Scroll area sharing its id."@
    &&& constructor_table(d.constructors@) == scrollbar_constructors()
    &&& method_table(d.methods@) == scrollbar_methods()
}

fn scrollbar_descriptor() -> (d: ComponentDescriptor)
    ensures
        is_scrollbar_descriptor(d),
{
    let d = ComponentDescriptor::new(ComponentKind::Scrollbar)
        .with_constructors(
            vec![
                ConstructorDescriptor::new(
                    "Scrollbar",
                    vec![ArgumentDescriptor::new("target", ArgumentSchema::String)],
                    ConstructorRule::Text { error: "Scroll(id) expects one string" },
                ),
            ],
        )
        .with_methods(
            vec![
                MethodDescriptor::new(
                    "scroll_axis",
                    vec![
                        ArgumentDescriptor::new(
                            "axis",
                            ArgumentSchema::Enum(ChoiceList::ScrollAxis),
                        ),
                    ],
                    MethodRule::Choice {
                        list: ChoiceList::ScrollAxis,
                        any_text: false,
                        unsupported: "axis expects vertical, horizontal, or both",
                        echo: false,
                        error: "axis expects one enum string",
                        arity: "axis expects one enum string",
                    },
                ).with_documentation("Selects the native scroll axes."),
                MethodDescriptor::new(
                    "mode",
                    vec![
                        ArgumentDescriptor::new(
                            "mode",
                            ArgumentSchema::Enum(ChoiceList::ScrollbarMode),
                        ),
                    ],
                    MethodRule::Choice {
                        list: ChoiceList::ScrollbarMode,
                        any_text: false,
                        unsupported: "Scrollbar.mode expects scrolling, hover, or always",
                        echo: false,
                        error: "Scrollbar.mode expects one enum string",
                        arity: "Scrollbar.mode expects one enum string",
                    },
                ).with_documentation("Sets the native scrollbar visibility policy."),
                MethodDescriptor::new(
                    "viewport_from_layout",
                    vec![ArgumentDescriptor::new("enabled", ArgumentSchema::Boolean)],
                    MethodRule::Flag {
                        error: "Scrollbar.viewport_from_layout expects boolean",
                        arity: "Scrollbar.viewport_from_layout expects boolean",
                    },
                ).with_documentation("Uses this element's layout bounds as the native viewport."),
            ],
        )
        .with_documentation("A bar that drives the Scroll area sharing its id.");
    proof {
        reveal(scrollbar_constructors);
        assert(constructor_table(d.constructors@) =~~= scrollbar_constructors());
        reveal(scrollbar_methods);
        assert(method_table(d.methods@) =~~= scrollbar_methods());
    }
    d
}

/// Registers `Scroll`, `Scrollbar` after the components already registered, in this order.
pub fn register(registry: &mut ComponentRegistry)
    requires
        !kinds(old(registry)@).contains(ComponentKind::Scroll),
        !kinds(old(registry)@).contains(ComponentKind::Scrollbar),
    ensures
        final(registry)@.len() == old(registry)@.len() + 2,
        final(registry)@.take(old(registry)@.len() as int) == old(registry)@,
        is_scroll_descriptor(final(registry)@[old(registry)@.len() as int]),
        is_scrollbar_descriptor(final(registry)@[old(registry)@.len() as int + 1]),
{
    let ghost start = registry@;
    let ghost before_scroll = registry@;
    let scroll = scroll_descriptor();
    let ghost added_scroll = scroll;
    let scroll_registered = registry.register(scroll);
    proof {
        assert(scroll_registered is Ok);
        lemma_kinds_push(before_scroll, added_scroll);
    }
    let scrollbar = scrollbar_descriptor();
    let scrollbar_registered = registry.register(scrollbar);
    proof {
        assert(scrollbar_registered is Ok);
    }
    proof {
        assert(registry@.take(start.len() as int) =~= start);
    }
}

} // verus!
