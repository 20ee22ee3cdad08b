//! The `Accordion` and the `AccordionItem` children it accepts.

use vstd::prelude::*;
use crate::registry::{
    constructor_table, kinds, lemma_kinds_push, method_table, ArgumentDescriptor, ArgumentSchema,
    ComponentDescriptor, ComponentKind, ComponentRegistry, ConstructorDescriptor, ConstructorRow,
    MethodDescriptor, MethodRow,
};
use crate::rules::{ChoiceList, ConstructorRule, MethodRule};

verus! {

/// The constructors of `AccordionItem`: export name, argument slots and rule.
#[verifier::opaque]
pub open spec fn accordion_item_constructors() -> Seq<ConstructorRow> {
    seq![("AccordionItem"@, seq![], ConstructorRule::Unit)]
}

/// The methods of `AccordionItem`: name, argument slots, rule and documentation.
#[verifier::opaque]
pub open spec fn accordion_item_methods() -> Seq<MethodRow> {
    seq![
        (
            "title"@,
            seq![("title"@, ArgumentSchema::Element)],
            MethodRule::Element { error: "AccordionItem.title(title) expects an element" },
            "Sets the interactive title row element."@,
        ),
        (
            "open"@,
            seq![("open"@, ArgumentSchema::Boolean)],
            MethodRule::Flag {
                error: "AccordionItem.open(open) expects one boolean",
                arity: "AccordionItem.open(open) expects one boolean",
            },
            "Controls expanded state."@,
        ),
        (
            "disabled"@,
            seq![("disabled"@, ArgumentSchema::Boolean)],
            MethodRule::Flag {
                error: "AccordionItem.disabled(disabled) expects one boolean",
                arity: "AccordionItem.disabled(disabled) expects one boolean",
            },
            "Disables this item."@,
        ),
    ]
}

/// Whether `d` is the `AccordionItem` descriptor: its constructors, methods and documentation.
pub open spec fn is_accordion_item_descriptor(d: ComponentDescriptor) -> bool {
    &&& d.kind == ComponentKind::AccordionItem
    &&& d.documentation@ == "An accordion part accepted only as a direct Accordion child."@
    &&& constructor_table(d.constructors@) == accordion_item_constructors()
    &&& method_table(d.methods@) == accordion_item_methods()
}

fn accordion_item_descriptor() -> (d: ComponentDescriptor)
    ensures
        is_accordion_item_descriptor(d),
{
    let d = ComponentDescriptor::new(ComponentKind::AccordionItem)
        .with_constructors(
            vec![ConstructorDescriptor::new("AccordionItem", Vec::new(), ConstructorRule::Unit)],
        )
        .with_methods(
            vec![
                MethodDescriptor::new(
                    "title",
                    vec![ArgumentDescriptor::new("title", ArgumentSchema::Element)],
                    MethodRule::Element { error: "AccordionItem.title(title) expects an element" },
                ).with_documentation("Sets the interactive title row element."),
                MethodDescriptor::new(
                    "open",
                    vec![ArgumentDescriptor::new("open", ArgumentSchema::Boolean)],
                    MethodRule::Flag {
                        error: "AccordionItem.open(open) expects one boolean",
                        arity: "AccordionItem.open(open) expects one boolean",
                    },
                ).with_documentation("Controls expanded state."),
                MethodDescriptor::new(
                    "disabled",
                    vec![ArgumentDescriptor::new("disabled", ArgumentSchema::Boolean)],
                    MethodRule::Flag {
                        error: "AccordionItem.disabled(disabled) expects one boolean",
                        arity: "AccordionItem.disabled(disabled) expects one boolean",
                    },
                ).with_documentation("Disables this item."),
            ],
        )
        .with_documentation("An accordion part accepted only as a direct Accordion child.");
    proof {
        reveal(accordion_item_constructors);
        assert(constructor_table(d.constructors@) =~~= accordion_item_constructors());
        reveal(accordion_item_methods);
        assert(method_table(d.methods@) =~~= accordion_item_methods());
    }
    d
}

/// The constructors of `Accordion`: export name, argument slots and rule.
#[verifier::opaque]
pub open spec fn accordion_constructors() -> Seq<ConstructorRow> {
    seq![
        (
            "Accordion"@,
            seq![("id"@, ArgumentSchema::String)],
            ConstructorRule::NonBlankOnly { error: "Accordion(id) expects a nonempty string id" },
        ),
    ]
}

/// The methods of `Accordion`: name, argument slots, rule and documentation.
#[verifier::opaque]
pub open spec fn accordion_methods() -> Seq<MethodRow> {
    seq![
        (
            "multiple"@,
            seq![("multiple"@, ArgumentSchema::Boolean)],
            MethodRule::Flag {
                error: "Accordion.multiple(multiple) expects one boolean",
                arity: "Accordion.multiple(multiple) expects one boolean",
            },
            "Allows multiple items to remain open."@,
        ),
        (
            "bordered"@,
            seq![("bordered"@, ArgumentSchema::Boolean)],
            MethodRule::Flag {
                error: "Accordion.bordered(bordered) expects one boolean",
                arity: "Accordion.bordered(bordered) expects one boolean",
            },
            "Controls the joined outer border."@,
        ),
        (
            "size"@,
            seq![("size"@, ArgumentSchema::Enum(ChoiceList::Size))],
            MethodRule::Choice {
                list: ChoiceList::Size,
                any_text: false,
                unsupported: "Accordion.size(size) expects a semantic size",
                echo: false,
                error: "Accordion.size(size) expects a semantic size",
                arity: "Accordion.size(size) expects a semantic size",
            },
            "Sets the semantic component size."@,
        ),
    ]
}

/// Whether `d` is the `Accordion` descriptor: its constructors, methods and documentation.
pub open spec fn is_accordion_descriptor(d: ComponentDescriptor) -> bool {
    &&& d.kind == ComponentKind::Accordion
    &&& d.documentation@ == "A typed accordion container accepting only AccordionItem children."@
    &&& constructor_table(d.constructors@) == accordion_constructors()
    &&& method_table(d.methods@) == accordion_methods()
}

fn accordion_descriptor() -> (d: ComponentDescriptor)
    ensures
        is_accordion_descriptor(d),
{
    let d = ComponentDescriptor::new(ComponentKind::Accordion)
        .with_constructors(
            vec![
                ConstructorDescriptor::new(
                    "Accordion",
                    vec![ArgumentDescriptor::new("id", ArgumentSchema::String)],
                    ConstructorRule::NonBlankOnly {
                        error: "Accordion(id) expects a nonempty string id",
                    },
                ),
            ],
        )
        .with_methods(
            vec![
                MethodDescriptor::new(
                    "multiple",
                    vec![ArgumentDescriptor::new("multiple", ArgumentSchema::Boolean)],
                    MethodRule::Flag {
                        error: "Accordion.multiple(multiple) expects one boolean",
                        arity: "Accordion.multiple(multiple) expects one boolean",
                    },
                ).with_documentation("Allows multiple items to remain open."),
                MethodDescriptor::new(
                    "bordered",
                    vec![ArgumentDescriptor::new("bordered", ArgumentSchema::Boolean)],
                    MethodRule::Flag {
                        error: "Accordion.bordered(bordered) expects one boolean",
                        arity: "Accordion.bordered(bordered) expects one boolean",
                    },
                ).with_documentation("Controls the joined outer border."),
                MethodDescriptor::new(
                    "size",
                    vec![ArgumentDescriptor::new("size", ArgumentSchema::Enum(ChoiceList::Size))],
                    MethodRule::Choice {
                        list: ChoiceList::Size,
                        any_text: false,
                        unsupported: "Accordion.size(size) expects a semantic size",
                        echo: false,
                        error: "Accordion.size(size) expects a semantic size",
                        arity: "Accordion.size(size) expects a semantic size",
                    },
                ).with_documentation("Sets the semantic component size."),
            ],
        )
        .with_documentation("A typed accordion container accepting only AccordionItem children.");
    proof {
        reveal(accordion_constructors);
        assert(constructor_table(d.constructors@) =~~= accordion_constructors());
        reveal(accordion_methods);
        assert(method_table(d.methods@) =~~= accordion_methods());
    }
    d
}

/// Registers `AccordionItem`, `Accordion` after the components already registered, in this order.
pub fn register(registry: &mut ComponentRegistry)
    requires
        !kinds(old(registry)@).contains(ComponentKind::AccordionItem),
        !kinds(old(registry)@).contains(ComponentKind::Accordion),
    ensures
        final(registry)@.len() == old(registry)@.len() + 2,
        final(registry)@.take(old(registry)@.len() as int) == old(registry)@,
        is_accordion_item_descriptor(final(registry)@[old(registry)@.len() as int]),
        is_accordion_descriptor(final(registry)@[old(registry)@.len() as int + 1]),
{
    let ghost start = registry@;
    let ghost before_accordion_item = registry@;
    let accordion_item = accordion_item_descriptor();
    let ghost added_accordion_item = accordion_item;
    let accordion_item_registered = registry.register(accordion_item);
    proof {
        assert(accordion_item_registered is Ok);
        lemma_kinds_push(before_accordion_item, added_accordion_item);
    }
    let accordion = accordion_descriptor();
    let accordion_registered = registry.register(accordion);
    proof {
        assert(accordion_registered is Ok);
    }
    proof {
        assert(registry@.take(start.len() as int) =~= start);
    }
}

} // verus!
