//! The `DescriptionList` and the `DescriptionItem` children it accepts.

use vstd::prelude::*;
use crate::registry::{
    constructor_table, kinds, lemma_kinds_push, method_table, ArgumentDescriptor, ArgumentSchema,
    ComponentDescriptor, ComponentKind, ComponentRegistry, ConstructorDescriptor, ConstructorRow,
    MethodDescriptor, MethodRow,
};
use crate::rules::{ChoiceList, ConstructorRule, MethodRule};
use crate::calls::{
    called, calls_view, choice, count, flag_or, last_choice, last_count, last_flag_or, was_called,
    MethodCall,
};

verus! {

/// The layout of a `DescriptionList`.
pub struct ListConfig {
    pub vertical: bool,
    pub bordered: bool,
    pub columns: u64,
    /// The index of the size among `xsmall`, `small`, `medium`, `large`.
    pub size: u64,
}

impl Default for ListConfig {
    /// Horizontal, bordered, three columns, medium.
    fn default() -> (config: Self)
        ensures
            !config.vertical,
            config.bordered,
            config.columns == 3,
            config.size == 2,
    {
        ListConfig { vertical: false, bordered: true, columns: 3, size: 2 }
    }
}

/// The layout the calls leave: `vertical` holds once called, the last call of
/// each other method wins, and the defaults fill in the rest.
pub fn list_config(calls: &Vec<MethodCall>) -> (config: ListConfig)
    ensures
        config.vertical == was_called(calls_view(calls@), "vertical"@),
        config.bordered == last_flag_or(calls_view(calls@), "bordered"@, true),
        config.columns == (match last_count(calls_view(calls@), "columns"@) {
            Some(n) => n,
            None => 3,
        }),
        config.size == (match last_choice(calls_view(calls@), "size"@) {
            Some(i) => i,
            None => 2,
        }),
{
    let mut config = ListConfig::default();
    config.vertical = called(calls, "vertical");
    config.bordered = flag_or(calls, "bordered", config.bordered);
    if let Some(n) = count(calls, "columns") {
        config.columns = n;
    }
    if let Some(i) = choice(calls, "size") {
        config.size = i;
    }
    config
}

/// The constructors of `DescriptionItem`: export name, argument slots and rule.
#[verifier::opaque]
pub open spec fn description_item_constructors() -> Seq<ConstructorRow> {
    seq![
        (
            "DescriptionItem"@,
            seq![("label"@, ArgumentSchema::String)],
            ConstructorRule::Text { error: "DescriptionItem(label) expects a string" },
        ),
    ]
}

/// The methods of `DescriptionItem`: name, argument slots, rule and documentation.
#[verifier::opaque]
pub open spec fn description_item_methods() -> Seq<MethodRow> {
    seq![
        (
            "value"@,
            seq![("value"@, ArgumentSchema::String)],
            MethodRule::Text {
                error: "DescriptionItem.value(value) expects a string",
                arity: "DescriptionItem.value(value) expects a string",
            },
            "Sets the item's textual value."@,
        ),
        (
            "span"@,
            seq![("span"@, ArgumentSchema::Number)],
            MethodRule::Natural {
                positive: true,
                max: u64::MAX,
                label: "DescriptionItem.span",
                too_large: "DescriptionItem.span expects a positive integer",
                not_number: "DescriptionItem.span expects a positive integer",
                arity: "DescriptionItem.span expects a positive integer",
            },
            "Sets how many description-list columns the item spans."@,
        ),
    ]
}

/// Whether `d` is the `DescriptionItem` descriptor: its constructors, methods and documentation.
pub open spec fn is_description_item_descriptor(d: ComponentDescriptor) -> bool {
    &&& d.kind == ComponentKind::DescriptionItem
    &&& d.documentation@ == "A typed label/value child for DescriptionList. It accepts value(string) and span(number), but no children or common style methods."@
    &&& constructor_table(d.constructors@) == description_item_constructors()
    &&& method_table(d.methods@) == description_item_methods()
}

fn description_item_descriptor() -> (d: ComponentDescriptor)
    ensures
        is_description_item_descriptor(d),
{
    let d = ComponentDescriptor::new(ComponentKind::DescriptionItem)
        .with_constructors(
            vec![
                ConstructorDescriptor::new(
                    "DescriptionItem",
                    vec![ArgumentDescriptor::new("label", ArgumentSchema::String)],
                    ConstructorRule::Text { error: "DescriptionItem(label) expects a string" },
                ),
            ],
        )
        .with_methods(
            vec![
                MethodDescriptor::new(
                    "value",
                    vec![ArgumentDescriptor::new("value", ArgumentSchema::String)],
                    MethodRule::Text {
                        error: "DescriptionItem.value(value) expects a string",
                        arity: "DescriptionItem.value(value) expects a string",
                    },
                ).with_documentation("Sets the item's textual value."),
                MethodDescriptor::new(
                    "span",
                    vec![ArgumentDescriptor::new("span", ArgumentSchema::Number)],
                    MethodRule::Natural {
                        positive: true,
                        max: u64::MAX,
                        label: "DescriptionItem.span",
                        too_large: "DescriptionItem.span expects a positive integer",
                        not_number: "DescriptionItem.span expects a positive integer",
                        arity: "DescriptionItem.span expects a positive integer",
                    },
                ).with_documentation("Sets how many description-list columns the item spans."),
            ],
        )
        .with_documentation(
            "A typed label/value child for DescriptionList. It accepts value(string) and span(number), but no children or common style methods.",
        );
    proof {
        reveal(description_item_constructors);
        assert(constructor_table(d.constructors@) =~~= description_item_constructors());
        reveal(description_item_methods);
        assert(method_table(d.methods@) =~~= description_item_methods());
    }
    d
}

/// The constructors of `DescriptionList`: export name, argument slots and rule.
#[verifier::opaque]
pub open spec fn description_list_constructors() -> Seq<ConstructorRow> {
    seq![("DescriptionList"@, seq![], ConstructorRule::Unit)]
}

/// The methods of `DescriptionList`: name, argument slots, rule and documentation.
#[verifier::opaque]
pub open spec fn description_list_methods() -> Seq<MethodRow> {
    seq![
        ("vertical"@, seq![], MethodRule::Unit, "Uses the vertical label/value layout."@),
        (
            "bordered"@,
            seq![("bordered"@, ArgumentSchema::Boolean)],
            MethodRule::Flag {
                error: "DescriptionList.bordered expects a boolean",
                arity: "DescriptionList.bordered expects a boolean",
            },
            "Controls the horizontal-layout border."@,
        ),
        (
            "columns"@,
            seq![("columns"@, ArgumentSchema::Number)],
            MethodRule::Natural {
                positive: true,
                max: 10,
                label: "DescriptionList.columns",
                too_large: "DescriptionList.columns expects an integer from 1 through 10",
                not_number: "DescriptionList.columns expects an integer from 1 through 10",
                arity: "DescriptionList.columns expects an integer from 1 through 10",
            },
            "Sets the column count from 1 through 10."@,
        ),
        (
            "size"@,
            seq![("size"@, ArgumentSchema::Enum(ChoiceList::Size))],
            MethodRule::Choice {
                list: ChoiceList::Size,
                any_text: false,
                unsupported: "unsupported DescriptionList size `",
                echo: true,
                error: "DescriptionList.size expects a size literal",
                arity: "DescriptionList.size expects a size literal",
            },
            "Sets the description-list density."@,
        ),
    ]
}

/// Whether `d` is the `DescriptionList` descriptor: its constructors, methods and documentation.
pub open spec fn is_description_list_descriptor(d: ComponentDescriptor) -> bool {
    &&& d.kind == ComponentKind::DescriptionList
    &&& d.documentation@ == "A structured label/value list accepting DescriptionItem children."@
    &&& constructor_table(d.constructors@) == description_list_constructors()
    &&& method_table(d.methods@) == description_list_methods()
}

fn description_list_descriptor() -> (d: ComponentDescriptor)
    ensures
        is_description_list_descriptor(d),
{
    let d = ComponentDescriptor::new(ComponentKind::DescriptionList)
        .with_constructors(
            vec![ConstructorDescriptor::new("DescriptionList", Vec::new(), ConstructorRule::Unit)],
        )
        .with_methods(
            vec![
                MethodDescriptor::new(
                    "vertical",
                    Vec::new(),
                    MethodRule::Unit,
                ).with_documentation("Uses the vertical label/value layout."),
                MethodDescriptor::new(
                    "bordered",
                    vec![ArgumentDescriptor::new("bordered", ArgumentSchema::Boolean)],
                    MethodRule::Flag {
                        error: "DescriptionList.bordered expects a boolean",
                        arity: "DescriptionList.bordered expects a boolean",
                    },
                ).with_documentation("Controls the horizontal-layout border."),
                MethodDescriptor::new(
                    "columns",
                    vec![ArgumentDescriptor::new("columns", ArgumentSchema::Number)],
                    MethodRule::Natural {
                        positive: true,
                        max: 10,
                        label: "DescriptionList.columns",
                        too_large: "DescriptionList.columns expects an integer from 1 through 10",
                        not_number: "DescriptionList.columns expects an integer from 1 through 10",
                        arity: "DescriptionList.columns expects an integer from 1 through 10",
                    },
                ).with_documentation("Sets the column count from 1 through 10."),
                MethodDescriptor::new(
                    "size",
                    vec![ArgumentDescriptor::new("size", ArgumentSchema::Enum(ChoiceList::Size))],
                    MethodRule::Choice {
                        list: ChoiceList::Size,
                        any_text: false,
                        unsupported: "unsupported DescriptionList size `",
                        echo: true,
                        error: "DescriptionList.size expects a size literal",
                        arity: "DescriptionList.size expects a size literal",
                    },
                ).with_documentation("Sets the description-list density."),
            ],
        )
        .with_documentation("A structured label/value list accepting DescriptionItem children.");
    proof {
        reveal(description_list_constructors);
        assert(constructor_table(d.constructors@) =~~= description_list_constructors());
        reveal(description_list_methods);
        assert(method_table(d.methods@) =~~= description_list_methods());
    }
    d
}

/// Registers `DescriptionItem`, `DescriptionList` after the components already registered, in this
/// order.
pub fn register(registry: &mut ComponentRegistry)
    requires
        !kinds(old(registry)@).contains(ComponentKind::DescriptionItem),
        !kinds(old(registry)@).contains(ComponentKind::DescriptionList),
    ensures
        final(registry)@.len() == old(registry)@.len() + 2,
        final(registry)@.take(old(registry)@.len() as int) == old(registry)@,
        is_description_item_descriptor(final(registry)@[old(registry)@.len() as int]),
        is_description_list_descriptor(final(registry)@[old(registry)@.len() as int + 1]),
{
    let ghost start = registry@;
    let ghost before_description_item = registry@;
    let description_item = description_item_descriptor();
    let ghost added_description_item = description_item;
    let description_item_registered = registry.register(description_item);
    proof {
        assert(description_item_registered is Ok);
        lemma_kinds_push(before_description_item, added_description_item);
    }
    let description_list = description_list_descriptor();
    let description_list_registered = registry.register(description_list);
    proof {
        assert(description_list_registered is Ok);
    }
    proof {
        assert(registry@.take(start.len() as int) =~= start);
    }
}

} // verus!
