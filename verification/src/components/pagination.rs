//! The `Pagination` component: its descriptor and its registration.

use vstd::prelude::*;
use crate::registry::{
    constructor_table, kinds, method_table, ArgumentDescriptor, ArgumentSchema, ComponentDescriptor,
    ComponentKind, ComponentRegistry, ConstructorDescriptor, ConstructorRow, MethodDescriptor,
    MethodRow,
};
use crate::rules::{ChoiceList, ConstructorRule, MethodRule};

verus! {

/// The constructors of `Pagination`: export name, argument slots and rule.
#[verifier::opaque]
pub open spec fn pagination_constructors() -> Seq<ConstructorRow> {
    seq![
        (
            "Pagination"@,
            seq![("id"@, ArgumentSchema::String)],
            ConstructorRule::NonBlank {
                component: "Pagination",
                error: "Pagination(id) expects a string id",
            },
        ),
    ]
}

/// The methods of `Pagination`: name, argument slots, rule and documentation.
#[verifier::opaque]
pub open spec fn pagination_methods() -> Seq<MethodRow> {
    seq![
        (
            "current_page"@,
            seq![("current_page"@, ArgumentSchema::Number)],
            MethodRule::Natural {
                positive: true,
                max: u64::MAX,
                label: "Pagination.current_page(current_page)",
                too_large: "Pagination.current_page(current_page) expects a positive integer",
                not_number: "Pagination.current_page(current_page) expects a positive integer",
                arity: "Pagination.current_page(current_page) expects one argument",
            },
            "Sets the current 1-based page."@,
        ),
        (
            "total_pages"@,
            seq![("total_pages"@, ArgumentSchema::Number)],
            MethodRule::Natural {
                positive: true,
                max: u64::MAX,
                label: "Pagination.total_pages(total_pages)",
                too_large: "Pagination.total_pages(total_pages) expects a positive integer",
                not_number: "Pagination.total_pages(total_pages) expects a positive integer",
                arity: "Pagination.total_pages(total_pages) expects one argument",
            },
            "Sets the positive page count."@,
        ),
        (
            "visible_pages"@,
            seq![("visible_pages"@, ArgumentSchema::Number)],
            MethodRule::Natural {
                positive: true,
                max: u64::MAX,
                label: "Pagination.visible_pages(visible_pages)",
                too_large: "Pagination.visible_pages(visible_pages) expects a positive integer",
                not_number: "Pagination.visible_pages(visible_pages) expects a positive integer",
                arity: "Pagination.visible_pages(visible_pages) expects one argument",
            },
            "Sets the maximum visible page buttons."@,
        ),
        (
            "on_change"@,
            seq![("on_change"@, ArgumentSchema::Callback)],
            MethodRule::Callback { error: "Pagination.on_change expects one callback" },
            "Reports the page the reader asked for, so the script can drive `current_page`."@,
        ),
        ("compact"@, seq![], MethodRule::Unit, "Shows only previous and next icon buttons."@),
        (
            "size"@,
            seq![("size"@, ArgumentSchema::Enum(ChoiceList::Size))],
            MethodRule::Choice {
                list: ChoiceList::Size,
                any_text: false,
                unsupported: "unsupported Pagination size `",
                echo: true,
                error: "Pagination.size(size) expects a size literal",
                arity: "Pagination.size(size) expects a size literal",
            },
            "Sets semantic size."@,
        ),
    ]
}

/// Whether `d` is the `Pagination` descriptor: its constructors, methods and documentation.
pub open spec fn is_pagination_descriptor(d: ComponentDescriptor) -> bool {
    &&& d.kind == ComponentKind::Pagination
    &&& d.documentation@ == "Controlled page navigation; disabled common behavior is supported."@
    &&& constructor_table(d.constructors@) == pagination_constructors()
    &&& method_table(d.methods@) == pagination_methods()
}

fn pagination_descriptor() -> (d: ComponentDescriptor)
    ensures
        is_pagination_descriptor(d),
{
    let d = ComponentDescriptor::new(ComponentKind::Pagination)
        .with_constructors(
            vec![
                ConstructorDescriptor::new(
                    "Pagination",
                    vec![ArgumentDescriptor::new("id", ArgumentSchema::String)],
                    ConstructorRule::NonBlank {
                        component: "Pagination",
                        error: "Pagination(id) expects a string id",
                    },
                ),
            ],
        )
        .with_methods(
            vec![
                MethodDescriptor::new(
                    "current_page",
                    vec![ArgumentDescriptor::new("current_page", ArgumentSchema::Number)],
                    MethodRule::Natural {
                        positive: true,
                        max: u64::MAX,
                        label: "Pagination.current_page(current_page)",
                        too_large: "Pagination.current_page(current_page) expects a positive integer",
                        not_number: "Pagination.current_page(current_page) expects a positive integer",
                        arity: "Pagination.current_page(current_page) expects one argument",
                    },
                ).with_documentation("Sets the current 1-based page."),
                MethodDescriptor::new(
                    "total_pages",
                    vec![ArgumentDescriptor::new("total_pages", ArgumentSchema::Number)],
                    MethodRule::Natural {
                        positive: true,
                        max: u64::MAX,
                        label: "Pagination.total_pages(total_pages)",
                        too_large: "Pagination.total_pages(total_pages) expects a positive integer",
                        not_number: "Pagination.total_pages(total_pages) expects a positive integer",
                        arity: "Pagination.total_pages(total_pages) expects one argument",
                    },
                ).with_documentation("Sets the positive page count."),
                MethodDescriptor::new(
                    "visible_pages",
                    vec![ArgumentDescriptor::new("visible_pages", ArgumentSchema::Number)],
                    MethodRule::Natural {
                        positive: true,
                        max: u64::MAX,
                        label: "Pagination.visible_pages(visible_pages)",
                        too_large: "Pagination.visible_pages(visible_pages) expects a positive integer",
                        not_number: "Pagination.visible_pages(visible_pages) expects a positive integer",
                        arity: "Pagination.visible_pages(visible_pages) expects one argument",
                    },
                ).with_documentation("Sets the maximum visible page buttons."),
                MethodDescriptor::new(
                    "on_change",
                    vec![ArgumentDescriptor::new("on_change", ArgumentSchema::Callback)],
                    MethodRule::Callback { error: "Pagination.on_change expects one callback" },
                ).with_documentation(
                    "Reports the page the reader asked for, so the script can drive `current_page`.",
                ),
                MethodDescriptor::new(
                    "compact",
                    Vec::new(),
                    MethodRule::Unit,
                ).with_documentation("Shows only previous and next icon buttons."),
                MethodDescriptor::new(
                    "size",
                    vec![ArgumentDescriptor::new("size", ArgumentSchema::Enum(ChoiceList::Size))],
                    MethodRule::Choice {
                        list: ChoiceList::Size,
                        any_text: false,
                        unsupported: "unsupported Pagination size `",
                        echo: true,
                        error: "Pagination.size(size) expects a size literal",
                        arity: "Pagination.size(size) expects a size literal",
                    },
                ).with_documentation("Sets semantic size."),
            ],
        )
        .with_documentation("Controlled page navigation; disabled common behavior is supported.");
    proof {
        reveal(pagination_constructors);
        assert(constructor_table(d.constructors@) =~~= pagination_constructors());
        reveal(pagination_methods);
        assert(method_table(d.methods@) =~~= pagination_methods());
    }
    d
}

/// Registers `Pagination` after the components already registered.
pub fn register(registry: &mut ComponentRegistry)
    requires
        !kinds(old(registry)@).contains(ComponentKind::Pagination),
    ensures
        final(registry)@.len() == old(registry)@.len() + 1,
        final(registry)@.take(old(registry)@.len() as int) == old(registry)@,
        is_pagination_descriptor(final(registry)@[old(registry)@.len() as int]),
{
    let ghost start = registry@;
    let pagination = pagination_descriptor();
    let pagination_registered = registry.register(pagination);
    proof {
        assert(pagination_registered is Ok);
    }
    proof {
        assert(registry@.take(start.len() as int) =~= start);
    }
}

} // verus!
