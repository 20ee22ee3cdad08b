//! The chat family: `Attachment`, `Bubble`, `Marker`, `Message`, `ShimmerText` and the
//! `MessageScroller` transcript.

use vstd::prelude::*;
use crate::registry::{
    constructor_table, kinds, lemma_kinds_push, method_table, ArgumentDescriptor, ArgumentSchema,
    ComponentDescriptor, ComponentKind, ComponentRegistry, ConstructorDescriptor, ConstructorRow,
    MethodDescriptor, MethodRow,
};
use crate::rules::{ChoiceList, ConstructorRule, MethodRule};

verus! {

/// The constructors of `Attachment`: export name, argument slots and rule.
#[verifier::opaque]
pub open spec fn attachment_constructors() -> Seq<ConstructorRow> {
    seq![
        (
            "Attachment"@,
            seq![("id"@, ArgumentSchema::String)],
            ConstructorRule::NonBlankOnly { error: "Attachment expects a non-empty stable id" },
        ),
    ]
}

/// The methods of `Attachment`: name, argument slots, rule and documentation.
#[verifier::opaque]
pub open spec fn attachment_methods() -> Seq<MethodRow> {
    seq![
        (
            "status"@,
            seq![("status"@, ArgumentSchema::Enum(ChoiceList::AttachmentStatus))],
            MethodRule::Choice {
                list: ChoiceList::AttachmentStatus,
                any_text: false,
                unsupported: "unsupported Attachment.status value `",
                echo: true,
                error: "Attachment.status expects one enum literal",
                arity: "Attachment.status expects one enum literal",
            },
            "Sets a native Chat family option."@,
        ),
        (
            "axis"@,
            seq![("axis"@, ArgumentSchema::Enum(ChoiceList::Axis))],
            MethodRule::Choice {
                list: ChoiceList::Axis,
                any_text: false,
                unsupported: "unsupported Attachment.axis value `",
                echo: true,
                error: "Attachment.axis expects one enum literal",
                arity: "Attachment.axis expects one enum literal",
            },
            "Sets a native Chat family option."@,
        ),
        (
            "size"@,
            seq![("size"@, ArgumentSchema::Enum(ChoiceList::Size))],
            MethodRule::Choice {
                list: ChoiceList::Size,
                any_text: false,
                unsupported: "unsupported Attachment.size value `",
                echo: true,
                error: "Attachment.size expects one enum literal",
                arity: "Attachment.size expects one enum literal",
            },
            "Sets a native Chat family option."@,
        ),
    ]
}

/// Whether `d` is the `Attachment` descriptor: its constructors, methods and documentation.
pub open spec fn is_attachment_descriptor(d: ComponentDescriptor) -> bool {
    &&& d.kind == ComponentKind::Attachment
    &&& d.documentation@ == "A file or image attachment composing ordinary children into its content."@
    &&& constructor_table(d.constructors@) == attachment_constructors()
    &&& method_table(d.methods@) == attachment_methods()
}

fn attachment_descriptor() -> (d: ComponentDescriptor)
    ensures
        is_attachment_descriptor(d),
{
    let d = ComponentDescriptor::new(ComponentKind::Attachment)
        .with_constructors(
            vec![
                ConstructorDescriptor::new(
                    "Attachment",
                    vec![ArgumentDescriptor::new("id", ArgumentSchema::String)],
                    ConstructorRule::NonBlankOnly {
                        error: "Attachment expects a non-empty stable id",
                    },
                ),
            ],
        )
        .with_methods(
            vec![
                MethodDescriptor::new(
                    "status",
                    vec![
                        ArgumentDescriptor::new(
                            "status",
                            ArgumentSchema::Enum(ChoiceList::AttachmentStatus),
                        ),
                    ],
                    MethodRule::Choice {
                        list: ChoiceList::AttachmentStatus,
                        any_text: false,
                        unsupported: "unsupported Attachment.status value `",
                        echo: true,
                        error: "Attachment.status expects one enum literal",
                        arity: "Attachment.status expects one enum literal",
                    },
                ).with_documentation("Sets a native Chat family option."),
                MethodDescriptor::new(
                    "axis",
                    vec![ArgumentDescriptor::new("axis", ArgumentSchema::Enum(ChoiceList::Axis))],
                    MethodRule::Choice {
                        list: ChoiceList::Axis,
                        any_text: false,
                        unsupported: "unsupported Attachment.axis value `",
                        echo: true,
                        error: "Attachment.axis expects one enum literal",
                        arity: "Attachment.axis expects one enum literal",
                    },
                ).with_documentation("Sets a native Chat family option."),
                MethodDescriptor::new(
                    "size",
                    vec![ArgumentDescriptor::new("size", ArgumentSchema::Enum(ChoiceList::Size))],
                    MethodRule::Choice {
                        list: ChoiceList::Size,
                        any_text: false,
                        unsupported: "unsupported Attachment.size value `",
                        echo: true,
                        error: "Attachment.size expects one enum literal",
                        arity: "Attachment.size expects one enum literal",
                    },
                ).with_documentation("Sets a native Chat family option."),
            ],
        )
        .with_documentation(
            "A file or image attachment composing ordinary children into its content.",
        );
    proof {
        reveal(attachment_constructors);
        assert(constructor_table(d.constructors@) =~~= attachment_constructors());
        reveal(attachment_methods);
        assert(method_table(d.methods@) =~~= attachment_methods());
    }
    d
}

/// The constructors of `Bubble`: export name, argument slots and rule.
#[verifier::opaque]
pub open spec fn bubble_constructors() -> Seq<ConstructorRow> {
    seq![("Bubble"@, seq![], ConstructorRule::Unit)]
}

/// The methods of `Bubble`: name, argument slots, rule and documentation.
#[verifier::opaque]
pub open spec fn bubble_methods() -> Seq<MethodRow> {
    seq![
        (
            "alignment"@,
            seq![("alignment"@, ArgumentSchema::Enum(ChoiceList::Alignment))],
            MethodRule::Choice {
                list: ChoiceList::Alignment,
                any_text: false,
                unsupported: "unsupported Bubble.alignment value `",
                echo: true,
                error: "Bubble.alignment expects one enum literal",
                arity: "Bubble.alignment expects one enum literal",
            },
            "Sets a native Chat family option."@,
        ),
        (
            "variant"@,
            seq![("variant"@, ArgumentSchema::Enum(ChoiceList::BubbleVariant))],
            MethodRule::Choice {
                list: ChoiceList::BubbleVariant,
                any_text: false,
                unsupported: "unsupported Bubble.variant value `",
                echo: true,
                error: "Bubble.variant expects one enum literal",
                arity: "Bubble.variant expects one enum literal",
            },
            "Sets a native Chat family option."@,
        ),
    ]
}

/// Whether `d` is the `Bubble` descriptor: its constructors, methods and documentation.
pub open spec fn is_bubble_descriptor(d: ComponentDescriptor) -> bool {
    &&& d.kind == ComponentKind::Bubble
    &&& d.documentation@ == "A message bubble whose ordinary children form its content."@
    &&& constructor_table(d.constructors@) == bubble_constructors()
    &&& method_table(d.methods@) == bubble_methods()
}

fn bubble_descriptor() -> (d: ComponentDescriptor)
    ensures
        is_bubble_descriptor(d),
{
    let d = ComponentDescriptor::new(ComponentKind::Bubble)
        .with_constructors(
            vec![ConstructorDescriptor::new("Bubble", Vec::new(), ConstructorRule::Unit)],
        )
        .with_methods(
            vec![
                MethodDescriptor::new(
                    "alignment",
                    vec![
                        ArgumentDescriptor::new(
                            "alignment",
                            ArgumentSchema::Enum(ChoiceList::Alignment),
                        ),
                    ],
                    MethodRule::Choice {
                        list: ChoiceList::Alignment,
                        any_text: false,
                        unsupported: "unsupported Bubble.alignment value `",
                        echo: true,
                        error: "Bubble.alignment expects one enum literal",
                        arity: "Bubble.alignment expects one enum literal",
                    },
                ).with_documentation("Sets a native Chat family option."),
                MethodDescriptor::new(
                    "variant",
                    vec![
                        ArgumentDescriptor::new(
                            "variant",
                            ArgumentSchema::Enum(ChoiceList::BubbleVariant),
                        ),
                    ],
                    MethodRule::Choice {
                        list: ChoiceList::BubbleVariant,
                        any_text: false,
                        unsupported: "unsupported Bubble.variant value `",
                        echo: true,
                        error: "Bubble.variant expects one enum literal",
                        arity: "Bubble.variant expects one enum literal",
                    },
                ).with_documentation("Sets a native Chat family option."),
            ],
        )
        .with_documentation("A message bubble whose ordinary children form its content.");
    proof {
        reveal(bubble_constructors);
        assert(constructor_table(d.constructors@) =~~= bubble_constructors());
        reveal(bubble_methods);
        assert(method_table(d.methods@) =~~= bubble_methods());
    }
    d
}

/// The constructors of `Marker`: export name, argument slots and rule.
#[verifier::opaque]
pub open spec fn marker_constructors() -> Seq<ConstructorRow> {
    seq![
        (
            "Marker"@,
            seq![("id"@, ArgumentSchema::String)],
            ConstructorRule::NonBlankOnly { error: "Marker expects a non-empty stable id" },
        ),
    ]
}

/// The methods of `Marker`: name, argument slots, rule and documentation.
#[verifier::opaque]
pub open spec fn marker_methods() -> Seq<MethodRow> {
    seq![
        (
            "variant"@,
            seq![("variant"@, ArgumentSchema::Enum(ChoiceList::MarkerVariant))],
            MethodRule::Choice {
                list: ChoiceList::MarkerVariant,
                any_text: false,
                unsupported: "unsupported Marker.variant value `",
                echo: true,
                error: "Marker.variant expects one enum literal",
                arity: "Marker.variant expects one enum literal",
            },
            "Sets a native Chat family option."@,
        ),
        (
            "loading"@,
            seq![("loading"@, ArgumentSchema::Boolean)],
            MethodRule::Flag {
                error: "Marker.loading expects one boolean",
                arity: "Marker.loading expects one boolean",
            },
            "Sets a native Chat family option."@,
        ),
        (
            "loading_style"@,
            seq![("loading_style"@, ArgumentSchema::Enum(ChoiceList::LoadingStyle))],
            MethodRule::Choice {
                list: ChoiceList::LoadingStyle,
                any_text: false,
                unsupported: "unsupported Marker.loading_style value `",
                echo: true,
                error: "Marker.loading_style expects one enum literal",
                arity: "Marker.loading_style expects one enum literal",
            },
            "Sets a native Chat family option."@,
        ),
    ]
}

/// Whether `d` is the `Marker` descriptor: its constructors, methods and documentation.
pub open spec fn is_marker_descriptor(d: ComponentDescriptor) -> bool {
    &&& d.kind == ComponentKind::Marker
    &&& d.documentation@ == "A compact conversation status marker with composable children."@
    &&& constructor_table(d.constructors@) == marker_constructors()
    &&& method_table(d.methods@) == marker_methods()
}

fn marker_descriptor() -> (d: ComponentDescriptor)
    ensures
        is_marker_descriptor(d),
{
    let d = ComponentDescriptor::new(ComponentKind::Marker)
        .with_constructors(
            vec![
                ConstructorDescriptor::new(
                    "Marker",
                    vec![ArgumentDescriptor::new("id", ArgumentSchema::String)],
                    ConstructorRule::NonBlankOnly { error: "Marker expects a non-empty stable id" },
                ),
            ],
        )
        .with_methods(
            vec![
                MethodDescriptor::new(
                    "variant",
                    vec![
                        ArgumentDescriptor::new(
                            "variant",
                            ArgumentSchema::Enum(ChoiceList::MarkerVariant),
                        ),
                    ],
                    MethodRule::Choice {
                        list: ChoiceList::MarkerVariant,
                        any_text: false,
                        unsupported: "unsupported Marker.variant value `",
                        echo: true,
                        error: "Marker.variant expects one enum literal",
                        arity: "Marker.variant expects one enum literal",
                    },
                ).with_documentation("Sets a native Chat family option."),
                MethodDescriptor::new(
                    "loading",
                    vec![ArgumentDescriptor::new("loading", ArgumentSchema::Boolean)],
                    MethodRule::Flag {
                        error: "Marker.loading expects one boolean",
                        arity: "Marker.loading expects one boolean",
                    },
                ).with_documentation("Sets a native Chat family option."),
                MethodDescriptor::new(
                    "loading_style",
                    vec![
                        ArgumentDescriptor::new(
                            "loading_style",
                            ArgumentSchema::Enum(ChoiceList::LoadingStyle),
                        ),
                    ],
                    MethodRule::Choice {
                        list: ChoiceList::LoadingStyle,
                        any_text: false,
                        unsupported: "unsupported Marker.loading_style value `",
                        echo: true,
                        error: "Marker.loading_style expects one enum literal",
                        arity: "Marker.loading_style expects one enum literal",
                    },
                ).with_documentation("Sets a native Chat family option."),
            ],
        )
        .with_documentation("A compact conversation status marker with composable children.");
    proof {
        reveal(marker_constructors);
        assert(constructor_table(d.constructors@) =~~= marker_constructors());
        reveal(marker_methods);
        assert(method_table(d.methods@) =~~= marker_methods());
    }
    d
}

/// The constructors of `Message`: export name, argument slots and rule.
#[verifier::opaque]
pub open spec fn message_constructors() -> Seq<ConstructorRow> {
    seq![("Message"@, seq![], ConstructorRule::Unit)]
}

/// The methods of `Message`: name, argument slots, rule and documentation.
#[verifier::opaque]
pub open spec fn message_methods() -> Seq<MethodRow> {
    seq![
        (
            "alignment"@,
            seq![("alignment"@, ArgumentSchema::Enum(ChoiceList::Alignment))],
            MethodRule::Choice {
                list: ChoiceList::Alignment,
                any_text: false,
                unsupported: "unsupported Message.alignment value `",
                echo: true,
                error: "Message.alignment expects one enum literal",
                arity: "Message.alignment expects one enum literal",
            },
            "Sets a native Chat family option."@,
        ),
        (
            "name"@,
            seq![("name"@, ArgumentSchema::String)],
            MethodRule::NonBlankText { error: "Message.name expects non-empty text" },
            "Sets a native Chat family option."@,
        ),
        (
            "time"@,
            seq![("time"@, ArgumentSchema::String)],
            MethodRule::NonBlankText { error: "Message.time expects non-empty text" },
            "Sets a native Chat family option."@,
        ),
        (
            "avatar"@,
            seq![("avatar"@, ArgumentSchema::String)],
            MethodRule::NonBlankText { error: "Message.avatar expects non-empty text" },
            "Sets a native Chat family option."@,
        ),
    ]
}

/// Whether `d` is the `Message` descriptor: its constructors, methods and documentation.
pub open spec fn is_message_descriptor(d: ComponentDescriptor) -> bool {
    &&& d.kind == ComponentKind::Message
    &&& d.documentation@ == "A message row with an avatar, sender header, content, and footer slots."@
    &&& constructor_table(d.constructors@) == message_constructors()
    &&& method_table(d.methods@) == message_methods()
}

fn message_descriptor() -> (d: ComponentDescriptor)
    ensures
        is_message_descriptor(d),
{
    let d = ComponentDescriptor::new(ComponentKind::Message)
        .with_constructors(
            vec![ConstructorDescriptor::new("Message", Vec::new(), ConstructorRule::Unit)],
        )
        .with_methods(
            vec![
                MethodDescriptor::new(
                    "alignment",
                    vec![
                        ArgumentDescriptor::new(
                            "alignment",
                            ArgumentSchema::Enum(ChoiceList::Alignment),
                        ),
                    ],
                    MethodRule::Choice {
                        list: ChoiceList::Alignment,
                        any_text: false,
                        unsupported: "unsupported Message.alignment value `",
                        echo: true,
                        error: "Message.alignment expects one enum literal",
                        arity: "Message.alignment expects one enum literal",
                    },
                ).with_documentation("Sets a native Chat family option."),
                MethodDescriptor::new(
                    "name",
                    vec![ArgumentDescriptor::new("name", ArgumentSchema::String)],
                    MethodRule::NonBlankText { error: "Message.name expects non-empty text" },
                ).with_documentation("Sets a native Chat family option."),
                MethodDescriptor::new(
                    "time",
                    vec![ArgumentDescriptor::new("time", ArgumentSchema::String)],
                    MethodRule::NonBlankText { error: "Message.time expects non-empty text" },
                ).with_documentation("Sets a native Chat family option."),
                MethodDescriptor::new(
                    "avatar",
                    vec![ArgumentDescriptor::new("avatar", ArgumentSchema::String)],
                    MethodRule::NonBlankText { error: "Message.avatar expects non-empty text" },
                ).with_documentation("Sets a native Chat family option."),
            ],
        )
        .with_documentation(
            "A message row with an avatar, sender header, content, and footer slots.",
        );
    proof {
        reveal(message_constructors);
        assert(constructor_table(d.constructors@) =~~= message_constructors());
        reveal(message_methods);
        assert(method_table(d.methods@) =~~= message_methods());
    }
    d
}

/// The constructors of `ShimmerText`: export name, argument slots and rule.
#[verifier::opaque]
pub open spec fn shimmer_text_constructors() -> Seq<ConstructorRow> {
    seq![
        (
            "ShimmerText"@,
            seq![("text"@, ArgumentSchema::String)],
            ConstructorRule::Text { error: "ShimmerText expects text" },
        ),
    ]
}

/// The methods of `ShimmerText`: name, argument slots, rule and documentation.
#[verifier::opaque]
pub open spec fn shimmer_text_methods() -> Seq<MethodRow> {
    seq![
        (
            "id"@,
            seq![("id"@, ArgumentSchema::String)],
            MethodRule::NonBlankText { error: "ShimmerText.id expects a non-empty stable id" },
            "Sets an explicit stable animation identity."@,
        ),
        (
            "duration_ms"@,
            seq![("duration_ms"@, ArgumentSchema::Number)],
            MethodRule::Millis {
                error: "ShimmerText.duration_ms expects a finite non-negative duration",
            },
            "Sets one shimmer sweep duration in milliseconds."@,
        ),
        (
            "spread"@,
            seq![("spread"@, ArgumentSchema::Number)],
            MethodRule::F32Range { error: "ShimmerText.spread expects a finite f32 fraction" },
            "Sets the relative highlight half-width."@,
        ),
        (
            "reverse"@,
            seq![("reverse"@, ArgumentSchema::Boolean)],
            MethodRule::Flag {
                error: "ShimmerText.reverse expects one boolean",
                arity: "ShimmerText.reverse expects one boolean",
            },
            "Sets a native Chat family option."@,
        ),
        (
            "once"@,
            seq![("once"@, ArgumentSchema::Boolean)],
            MethodRule::Flag {
                error: "ShimmerText.once expects one boolean",
                arity: "ShimmerText.once expects one boolean",
            },
            "Sets a native Chat family option."@,
        ),
    ]
}

/// Whether `d` is the `ShimmerText` descriptor: its constructors, methods and documentation.
pub open spec fn is_shimmer_text_descriptor(d: ComponentDescriptor) -> bool {
    &&& d.kind == ComponentKind::ShimmerText
    &&& d.documentation@ == "Theme-aware animated loading text."@
    &&& constructor_table(d.constructors@) == shimmer_text_constructors()
    &&& method_table(d.methods@) == shimmer_text_methods()
}

fn shimmer_text_descriptor() -> (d: ComponentDescriptor)
    ensures
        is_shimmer_text_descriptor(d),
{
    let d = ComponentDescriptor::new(ComponentKind::ShimmerText)
        .with_constructors(
            vec![
                ConstructorDescriptor::new(
                    "ShimmerText",
                    vec![ArgumentDescriptor::new("text", ArgumentSchema::String)],
                    ConstructorRule::Text { error: "ShimmerText expects text" },
                ),
            ],
        )
        .with_methods(
            vec![
                MethodDescriptor::new(
                    "id",
                    vec![ArgumentDescriptor::new("id", ArgumentSchema::String)],
                    MethodRule::NonBlankText {
                        error: "ShimmerText.id expects a non-empty stable id",
                    },
                ).with_documentation("Sets an explicit stable animation identity."),
                MethodDescriptor::new(
                    "duration_ms",
                    vec![ArgumentDescriptor::new("duration_ms", ArgumentSchema::Number)],
                    MethodRule::Millis {
                        error: "ShimmerText.duration_ms expects a finite non-negative duration",
                    },
                ).with_documentation("Sets one shimmer sweep duration in milliseconds."),
                MethodDescriptor::new(
                    "spread",
                    vec![ArgumentDescriptor::new("spread", ArgumentSchema::Number)],
                    MethodRule::F32Range {
                        error: "ShimmerText.spread expects a finite f32 fraction",
                    },
                ).with_documentation("Sets the relative highlight half-width."),
                MethodDescriptor::new(
                    "reverse",
                    vec![ArgumentDescriptor::new("reverse", ArgumentSchema::Boolean)],
                    MethodRule::Flag {
                        error: "ShimmerText.reverse expects one boolean",
                        arity: "ShimmerText.reverse expects one boolean",
                    },
                ).with_documentation("Sets a native Chat family option."),
                MethodDescriptor::new(
                    "once",
                    vec![ArgumentDescriptor::new("once", ArgumentSchema::Boolean)],
                    MethodRule::Flag {
                        error: "ShimmerText.once expects one boolean",
                        arity: "ShimmerText.once expects one boolean",
                    },
                ).with_documentation("Sets a native Chat family option."),
            ],
        )
        .with_documentation("Theme-aware animated loading text.");
    proof {
        reveal(shimmer_text_constructors);
        assert(constructor_table(d.constructors@) =~~= shimmer_text_constructors());
        reveal(shimmer_text_methods);
        assert(method_table(d.methods@) =~~= shimmer_text_methods());
    }
    d
}

/// The constructors of `MessageScroller`: export name, argument slots and rule.
#[verifier::opaque]
pub open spec fn message_scroller_constructors() -> Seq<ConstructorRow> {
    seq![
        (
            "MessageScroller"@,
            seq![("id"@, ArgumentSchema::String), ("item_count"@, ArgumentSchema::Number)],
            ConstructorRule::Table {
                error: "MessageScroller expects a non-empty id and an item_count",
                count: "MessageScroller item_count must be a non-negative integer",
            },
        ),
    ]
}

/// The methods of `MessageScroller`: name, argument slots, rule and documentation.
#[verifier::opaque]
pub open spec fn message_scroller_methods() -> Seq<MethodRow> {
    seq![
        (
            "scrollbar"@,
            seq![("scrollbar"@, ArgumentSchema::Boolean)],
            MethodRule::Flag {
                error: "MessageScroller.scrollbar expects one boolean",
                arity: "MessageScroller.scrollbar expects one boolean",
            },
            "Sets a native Chat family option."@,
        ),
        (
            "jump_button"@,
            seq![("jump_button"@, ArgumentSchema::Boolean)],
            MethodRule::Flag {
                error: "MessageScroller.jump_button expects one boolean",
                arity: "MessageScroller.jump_button expects one boolean",
            },
            "Sets a native Chat family option."@,
        ),
        (
            "jump_button_label"@,
            seq![("jump_button_label"@, ArgumentSchema::String)],
            MethodRule::NonBlankText {
                error: "MessageScroller.jump_button_label expects non-empty text",
            },
            "Sets the jump-to-latest button label."@,
        ),
        (
            "render_item"@,
            seq![("callback"@, ArgumentSchema::Callback)],
            MethodRule::Callback {
                error: "MessageScroller.render_item(callback) expects a callback",
            },
            "Renders each transcript row with managed code, receiving its index."@,
        ),
    ]
}

/// Whether `d` is the `MessageScroller` descriptor: its constructors, methods and documentation.
pub open spec fn is_message_scroller_descriptor(d: ComponentDescriptor) -> bool {
    &&& d.kind == ComponentKind::MessageScroller
    &&& d.documentation@ == "A virtualized message transcript with retained scroll and tail-following state, rendered through a managed row callback."@
    &&& constructor_table(d.constructors@) == message_scroller_constructors()
    &&& method_table(d.methods@) == message_scroller_methods()
}

fn message_scroller_descriptor() -> (d: ComponentDescriptor)
    ensures
        is_message_scroller_descriptor(d),
{
    let d = ComponentDescriptor::new(ComponentKind::MessageScroller)
        .with_constructors(
            vec![
                ConstructorDescriptor::new(
                    "MessageScroller",
                    vec![
                        ArgumentDescriptor::new("id", ArgumentSchema::String),
                        ArgumentDescriptor::new("item_count", ArgumentSchema::Number),
                    ],
                    ConstructorRule::Table {
                        error: "MessageScroller expects a non-empty id and an item_count",
                        count: "MessageScroller item_count must be a non-negative integer",
                    },
                ),
            ],
        )
        .with_methods(
            vec![
                MethodDescriptor::new(
                    "scrollbar",
                    vec![ArgumentDescriptor::new("scrollbar", ArgumentSchema::Boolean)],
                    MethodRule::Flag {
                        error: "MessageScroller.scrollbar expects one boolean",
                        arity: "MessageScroller.scrollbar expects one boolean",
                    },
                ).with_documentation("Sets a native Chat family option."),
                MethodDescriptor::new(
                    "jump_button",
                    vec![ArgumentDescriptor::new("jump_button", ArgumentSchema::Boolean)],
                    MethodRule::Flag {
                        error: "MessageScroller.jump_button expects one boolean",
                        arity: "MessageScroller.jump_button expects one boolean",
                    },
                ).with_documentation("Sets a native Chat family option."),
                MethodDescriptor::new(
                    "jump_button_label",
                    vec![ArgumentDescriptor::new("jump_button_label", ArgumentSchema::String)],
                    MethodRule::NonBlankText {
                        error: "MessageScroller.jump_button_label expects non-empty text",
                    },
                ).with_documentation("Sets the jump-to-latest button label."),
                MethodDescriptor::new(
                    "render_item",
                    vec![ArgumentDescriptor::new("callback", ArgumentSchema::Callback)],
                    MethodRule::Callback {
                        error: "MessageScroller.render_item(callback) expects a callback",
                    },
                ).with_documentation(
                    "Renders each transcript row with managed code, receiving its index.",
                ),
            ],
        )
        .with_documentation(
            "A virtualized message transcript with retained scroll and tail-following state, rendered through a managed row callback.",
        );
    proof {
        reveal(message_scroller_constructors);
        assert(constructor_table(d.constructors@) =~~= message_scroller_constructors());
        reveal(message_scroller_methods);
        assert(method_table(d.methods@) =~~= message_scroller_methods());
    }
    d
}

/// Registers `Attachment`, `Bubble`, `Marker`, `Message`, `ShimmerText`, `MessageScroller` after
/// the components already registered, in this order.
pub fn register(registry: &mut ComponentRegistry)
    requires
        !kinds(old(registry)@).contains(ComponentKind::Attachment),
        !kinds(old(registry)@).contains(ComponentKind::Bubble),
        !kinds(old(registry)@).contains(ComponentKind::Marker),
        !kinds(old(registry)@).contains(ComponentKind::Message),
        !kinds(old(registry)@).contains(ComponentKind::ShimmerText),
        !kinds(old(registry)@).contains(ComponentKind::MessageScroller),
    ensures
        final(registry)@.len() == old(registry)@.len() + 6,
        final(registry)@.take(old(registry)@.len() as int) == old(registry)@,
        is_attachment_descriptor(final(registry)@[old(registry)@.len() as int]),
        is_bubble_descriptor(final(registry)@[old(registry)@.len() as int + 1]),
        is_marker_descriptor(final(registry)@[old(registry)@.len() as int + 2]),
        is_message_descriptor(final(registry)@[old(registry)@.len() as int + 3]),
        is_shimmer_text_descriptor(final(registry)@[old(registry)@.len() as int + 4]),
        is_message_scroller_descriptor(final(registry)@[old(registry)@.len() as int + 5]),
{
    let ghost start = registry@;
    let ghost before_attachment = registry@;
    let attachment = attachment_descriptor();
    let ghost added_attachment = attachment;
    let attachment_registered = registry.register(attachment);
    proof {
        assert(attachment_registered is Ok);
        lemma_kinds_push(before_attachment, added_attachment);
    }
    let ghost before_bubble = registry@;
    let bubble = bubble_descriptor();
    let ghost added_bubble = bubble;
    let bubble_registered = registry.register(bubble);
    proof {
        assert(bubble_registered is Ok);
        lemma_kinds_push(before_bubble, added_bubble);
    }
    let ghost before_marker = registry@;
    let marker = marker_descriptor();
    let ghost added_marker = marker;
    let marker_registered = registry.register(marker);
    proof {
        assert(marker_registered is Ok);
        lemma_kinds_push(before_marker, added_marker);
    }
    let ghost before_message = registry@;
    let message = message_descriptor();
    let ghost added_message = message;
    let message_registered = registry.register(message);
    proof {
        assert(message_registered is Ok);
        lemma_kinds_push(before_message, added_message);
    }
    let ghost before_shimmer_text = registry@;
    let shimmer_text = shimmer_text_descriptor();
    let ghost added_shimmer_text = shimmer_text;
    let shimmer_text_registered = registry.register(shimmer_text);
    proof {
        assert(shimmer_text_registered is Ok);
        lemma_kinds_push(before_shimmer_text, added_shimmer_text);
    }
    let message_scroller = message_scroller_descriptor();
    let message_scroller_registered = registry.register(message_scroller);
    proof {
        assert(message_scroller_registered is Ok);
    }
    proof {
        assert(registry@.take(start.len() as int) =~= start);
    }
}

} // verus!
