//! The `Command` palette and the `CommandItem`, `CommandGroup` and `CommandSeparator` entries it
//! consumes.

use vstd::prelude::*;
use crate::registry::{
    constructor_table, kinds, lemma_kinds_push, method_table, ArgumentDescriptor, ArgumentSchema,
    ComponentDescriptor, ComponentKind, ComponentRegistry, ConstructorDescriptor, ConstructorRow,
    MethodDescriptor, MethodRow,
};
use crate::rules::{ConstructorRule, MethodRule};
use crate::text::{decimal, decimal_string, strings_view};
use crate::children::{accept_only, first_refused};

verus! {

/// The text a selection in the palette reports: the section and the row of
/// the chosen item, in decimal, separated by a comma.
pub fn selection_path(section: u64, row: u64) -> (path: String)
    ensures
        path@ == decimal(section as nat) + ","@ + decimal(row as nat),
{
    let path = decimal_string(section).concat(",").concat(decimal_string(row).as_str());
    proof {
        reveal_strlit(",");
    }
    path
}

/// The children a `Command` palette takes, by component name.
pub open spec fn command_child_names() -> Seq<Seq<char>> {
    seq!["CommandItem"@, "CommandGroup"@, "CommandSeparator"@]
}

/// Checks the children of a `Command` palette: items, groups and separators
/// only; the first child of another kind is refused by name.
pub fn command_children(names: &Vec<String>) -> (r: Result<(), String>)
    ensures
        match first_refused(strings_view(names@), command_child_names()) {
            Some(i) => r matches Err(m) && m@
                == "Command accepts only CommandItem, CommandGroup, or CommandSeparator children; received "@
                + strings_view(names@)[i],
            None => r is Ok,
        },
{
    let accepted: Vec<&str> = vec!["CommandItem", "CommandGroup", "CommandSeparator"];
    proof {
        assert(accepted@.map_values(|a: &str| a@) =~= command_child_names());
    }
    accept_only(
        names,
        &accepted,
        "Command accepts only CommandItem, CommandGroup, or CommandSeparator children; received ",
    )
}

/// The constructors of `CommandItem`: export name, argument slots and rule.
#[verifier::opaque]
pub open spec fn command_item_constructors() -> Seq<ConstructorRow> {
    seq![
        (
            "CommandItem"@,
            seq![("label"@, ArgumentSchema::String)],
            ConstructorRule::NonBlankOnly { error: "CommandItem expects a non-empty label" },
        ),
    ]
}

/// The methods of `CommandItem`: name, argument slots, rule and documentation.
#[verifier::opaque]
pub open spec fn command_item_methods() -> Seq<MethodRow> {
    seq![
        (
            "keyword"@,
            seq![("keyword"@, ArgumentSchema::String)],
            MethodRule::NonBlankText { error: "CommandItem.keyword expects non-empty text" },
            "Sets the item search keyword."@,
        ),
        (
            "checked"@,
            seq![("checked"@, ArgumentSchema::Boolean)],
            MethodRule::Flag {
                error: "CommandItem.checked expects a boolean",
                arity: "CommandItem.checked expects a boolean",
            },
            "Sets the item checked state."@,
        ),
    ]
}

/// Whether `d` is the `CommandItem` descriptor: its constructors, methods and documentation.
pub open spec fn is_command_item_descriptor(d: ComponentDescriptor) -> bool {
    &&& d.kind == ComponentKind::CommandItem
    &&& d.documentation@ == "Typed native CommandItem data."@
    &&& constructor_table(d.constructors@) == command_item_constructors()
    &&& method_table(d.methods@) == command_item_methods()
}

fn command_item_descriptor() -> (d: ComponentDescriptor)
    ensures
        is_command_item_descriptor(d),
{
    let d = ComponentDescriptor::new(ComponentKind::CommandItem)
        .with_constructors(
            vec![
                ConstructorDescriptor::new(
                    "CommandItem",
                    vec![ArgumentDescriptor::new("label", ArgumentSchema::String)],
                    ConstructorRule::NonBlankOnly {
                        error: "CommandItem expects a non-empty label",
                    },
                ),
            ],
        )
        .with_methods(
            vec![
                MethodDescriptor::new(
                    "keyword",
                    vec![ArgumentDescriptor::new("keyword", ArgumentSchema::String)],
                    MethodRule::NonBlankText {
                        error: "CommandItem.keyword expects non-empty text",
                    },
                ).with_documentation("Sets the item search keyword."),
                MethodDescriptor::new(
                    "checked",
                    vec![ArgumentDescriptor::new("checked", ArgumentSchema::Boolean)],
                    MethodRule::Flag {
                        error: "CommandItem.checked expects a boolean",
                        arity: "CommandItem.checked expects a boolean",
                    },
                ).with_documentation("Sets the item checked state."),
            ],
        )
        .with_documentation("Typed native CommandItem data.");
    proof {
        reveal(command_item_constructors);
        assert(constructor_table(d.constructors@) =~~= command_item_constructors());
        reveal(command_item_methods);
        assert(method_table(d.methods@) =~~= command_item_methods());
    }
    d
}

/// The constructors of `CommandGroup`: export name, argument slots and rule.
#[verifier::opaque]
pub open spec fn command_group_constructors() -> Seq<ConstructorRow> {
    seq![
        (
            "CommandGroup"@,
            seq![("label"@, ArgumentSchema::String)],
            ConstructorRule::NonBlankOnly { error: "CommandGroup expects a non-empty label" },
        ),
    ]
}

/// Whether `d` is the `CommandGroup` descriptor: its constructors, methods and documentation.
pub open spec fn is_command_group_descriptor(d: ComponentDescriptor) -> bool {
    &&& d.kind == ComponentKind::CommandGroup
    &&& d.documentation@ == "Typed native CommandGroup data accepting only CommandItem children."@
    &&& constructor_table(d.constructors@) == command_group_constructors()
    &&& d.methods@.len() == 0
}

fn command_group_descriptor() -> (d: ComponentDescriptor)
    ensures
        is_command_group_descriptor(d),
{
    let d = ComponentDescriptor::new(ComponentKind::CommandGroup)
        .with_constructors(
            vec![
                ConstructorDescriptor::new(
                    "CommandGroup",
                    vec![ArgumentDescriptor::new("label", ArgumentSchema::String)],
                    ConstructorRule::NonBlankOnly {
                        error: "CommandGroup expects a non-empty label",
                    },
                ),
            ],
        )
        .with_documentation("Typed native CommandGroup data accepting only CommandItem children.");
    proof {
        reveal(command_group_constructors);
        assert(constructor_table(d.constructors@) =~~= command_group_constructors());
    }
    d
}

/// The constructors of `CommandSeparator`: export name, argument slots and rule.
#[verifier::opaque]
pub open spec fn command_separator_constructors() -> Seq<ConstructorRow> {
    seq![("CommandSeparator"@, seq![], ConstructorRule::Unit)]
}

/// Whether `d` is the `CommandSeparator` descriptor: its constructors, methods and documentation.
pub open spec fn is_command_separator_descriptor(d: ComponentDescriptor) -> bool {
    &&& d.kind == ComponentKind::CommandSeparator
    &&& d.documentation@ == "Typed Command separator data."@
    &&& constructor_table(d.constructors@) == command_separator_constructors()
    &&& d.methods@.len() == 0
}

fn command_separator_descriptor() -> (d: ComponentDescriptor)
    ensures
        is_command_separator_descriptor(d),
{
    let d = ComponentDescriptor::new(ComponentKind::CommandSeparator)
        .with_constructors(
            vec![ConstructorDescriptor::new("CommandSeparator", Vec::new(), ConstructorRule::Unit)],
        )
        .with_documentation("Typed Command separator data.");
    proof {
        reveal(command_separator_constructors);
        assert(constructor_table(d.constructors@) =~~= command_separator_constructors());
    }
    d
}

/// The constructors of `Command`: export name, argument slots and rule.
#[verifier::opaque]
pub open spec fn command_constructors() -> Seq<ConstructorRow> {
    seq![
        (
            "Command"@,
            seq![("id"@, ArgumentSchema::String)],
            ConstructorRule::NonBlankOnly { error: "Command expects a non-empty id" },
        ),
    ]
}

/// The methods of `Command`: name, argument slots, rule and documentation.
#[verifier::opaque]
pub open spec fn command_methods() -> Seq<MethodRow> {
    seq![
        (
            "searchable"@,
            seq![("searchable"@, ArgumentSchema::Boolean)],
            MethodRule::Flag {
                error: "Command.searchable(searchable) expects a boolean",
                arity: "Command.searchable(searchable) expects a boolean",
            },
            "Sets native Command behavior."@,
        ),
        (
            "filterable"@,
            seq![("filterable"@, ArgumentSchema::Boolean)],
            MethodRule::Flag {
                error: "Command.filterable(filterable) expects a boolean",
                arity: "Command.filterable(filterable) expects a boolean",
            },
            "Sets native Command behavior."@,
        ),
        (
            "bordered"@,
            seq![("bordered"@, ArgumentSchema::Boolean)],
            MethodRule::Flag {
                error: "Command.bordered(bordered) expects a boolean",
                arity: "Command.bordered(bordered) expects a boolean",
            },
            "Sets native Command behavior."@,
        ),
        (
            "placeholder"@,
            seq![("placeholder"@, ArgumentSchema::String)],
            MethodRule::Text {
                error: "Command.placeholder expects text",
                arity: "Command.placeholder expects text",
            },
            "Sets the command search placeholder."@,
        ),
        (
            "max_height"@,
            seq![("pixels"@, ArgumentSchema::Number)],
            MethodRule::PositiveFinite {
                error: "Command.max_height expects positive finite pixels",
            },
            "Sets the command results maximum height."@,
        ),
        (
            "on_query"@,
            seq![("callback"@, ArgumentSchema::Callback)],
            MethodRule::Callback { error: "Command.on_query expects a callback" },
            "Runs after the native Command state releases its update lease."@,
        ),
        (
            "on_select"@,
            seq![("callback"@, ArgumentSchema::Callback)],
            MethodRule::Callback { error: "Command.on_select expects a callback" },
            "Runs after the native Command state releases its update lease."@,
        ),
        (
            "on_cancel"@,
            seq![("callback"@, ArgumentSchema::Callback)],
            MethodRule::Callback { error: "Command.on_cancel expects a callback" },
            "Runs after the native Command state releases its update lease."@,
        ),
    ]
}

/// Whether `d` is the `Command` descriptor: its constructors, methods and documentation.
pub open spec fn is_command_descriptor(d: ComponentDescriptor) -> bool {
    &&& d.kind == ComponentKind::Command
    &&& d.documentation@ == "Styled retained native Command palette consuming CommandItem, CommandGroup and CommandSeparator in order."@
    &&& constructor_table(d.constructors@) == command_constructors()
    &&& method_table(d.methods@) == command_methods()
}

fn command_descriptor() -> (d: ComponentDescriptor)
    ensures
        is_command_descriptor(d),
{
    let d = ComponentDescriptor::new(ComponentKind::Command)
        .with_constructors(
            vec![
                ConstructorDescriptor::new(
                    "Command",
                    vec![ArgumentDescriptor::new("id", ArgumentSchema::String)],
                    ConstructorRule::NonBlankOnly { error: "Command expects a non-empty id" },
                ),
            ],
        )
        .with_methods(
            vec![
                MethodDescriptor::new(
                    "searchable",
                    vec![ArgumentDescriptor::new("searchable", ArgumentSchema::Boolean)],
                    MethodRule::Flag {
                        error: "Command.searchable(searchable) expects a boolean",
                        arity: "Command.searchable(searchable) expects a boolean",
                    },
                ).with_documentation("Sets native Command behavior."),
                MethodDescriptor::new(
                    "filterable",
                    vec![ArgumentDescriptor::new("filterable", ArgumentSchema::Boolean)],
                    MethodRule::Flag {
                        error: "Command.filterable(filterable) expects a boolean",
                        arity: "Command.filterable(filterable) expects a boolean",
                    },
                ).with_documentation("Sets native Command behavior."),
                MethodDescriptor::new(
                    "bordered",
                    vec![ArgumentDescriptor::new("bordered", ArgumentSchema::Boolean)],
                    MethodRule::Flag {
                        error: "Command.bordered(bordered) expects a boolean",
                        arity: "Command.bordered(bordered) expects a boolean",
                    },
                ).with_documentation("Sets native Command behavior."),
                MethodDescriptor::new(
                    "placeholder",
                    vec![ArgumentDescriptor::new("placeholder", ArgumentSchema::String)],
                    MethodRule::Text {
                        error: "Command.placeholder expects text",
                        arity: "Command.placeholder expects text",
                    },
                ).with_documentation("Sets the command search placeholder."),
                MethodDescriptor::new(
                    "max_height",
                    vec![ArgumentDescriptor::new("pixels", ArgumentSchema::Number)],
                    MethodRule::PositiveFinite {
                        error: "Command.max_height expects positive finite pixels",
                    },
                ).with_documentation("Sets the command results maximum height."),
                MethodDescriptor::new(
                    "on_query",
                    vec![ArgumentDescriptor::new("callback", ArgumentSchema::Callback)],
                    MethodRule::Callback { error: "Command.on_query expects a callback" },
                ).with_documentation(
                    "Runs after the native Command state releases its update lease.",
                ),
                MethodDescriptor::new(
                    "on_select",
                    vec![ArgumentDescriptor::new("callback", ArgumentSchema::Callback)],
                    MethodRule::Callback { error: "Command.on_select expects a callback" },
                ).with_documentation(
                    "Runs after the native Command state releases its update lease.",
                ),
                MethodDescriptor::new(
                    "on_cancel",
                    vec![ArgumentDescriptor::new("callback", ArgumentSchema::Callback)],
                    MethodRule::Callback { error: "Command.on_cancel expects a callback" },
                ).with_documentation(
                    "Runs after the native Command state releases its update lease.",
                ),
            ],
        )
        .with_documentation(
            "Styled retained native Command palette consuming CommandItem, CommandGroup and CommandSeparator in order.",
        );
    proof {
        reveal(command_constructors);
        assert(constructor_table(d.constructors@) =~~= command_constructors());
        reveal(command_methods);
        assert(method_table(d.methods@) =~~= command_methods());
    }
    d
}

/// Registers `CommandItem`, `CommandGroup`, `CommandSeparator`, `Command` after the components
/// already registered, in this order.
pub fn register(registry: &mut ComponentRegistry)
    requires
        !kinds(old(registry)@).contains(ComponentKind::CommandItem),
        !kinds(old(registry)@).contains(ComponentKind::CommandGroup),
        !kinds(old(registry)@).contains(ComponentKind::CommandSeparator),
        !kinds(old(registry)@).contains(ComponentKind::Command),
    ensures
        final(registry)@.len() == old(registry)@.len() + 4,
        final(registry)@.take(old(registry)@.len() as int) == old(registry)@,
        is_command_item_descriptor(final(registry)@[old(registry)@.len() as int]),
        is_command_group_descriptor(final(registry)@[old(registry)@.len() as int + 1]),
        is_command_separator_descriptor(final(registry)@[old(registry)@.len() as int + 2]),
        is_command_descriptor(final(registry)@[old(registry)@.len() as int + 3]),
{
    let ghost start = registry@;
    let ghost before_command_item = registry@;
    let command_item = command_item_descriptor();
    let ghost added_command_item = command_item;
    let command_item_registered = registry.register(command_item);
    proof {
        assert(command_item_registered is Ok);
        lemma_kinds_push(before_command_item, added_command_item);
    }
    let ghost before_command_group = registry@;
    let command_group = command_group_descriptor();
    let ghost added_command_group = command_group;
    let command_group_registered = registry.register(command_group);
    proof {
        assert(command_group_registered is Ok);
        lemma_kinds_push(before_command_group, added_command_group);
    }
    let ghost before_command_separator = registry@;
    let command_separator = command_separator_descriptor();
    let ghost added_command_separator = command_separator;
    let command_separator_registered = registry.register(command_separator);
    proof {
        assert(command_separator_registered is Ok);
        lemma_kinds_push(before_command_separator, added_command_separator);
    }
    let command = command_descriptor();
    let command_registered = registry.register(command);
    proof {
        assert(command_registered is Ok);
    }
    proof {
        assert(registry@.take(start.len() as int) =~= start);
    }
}

} // verus!
