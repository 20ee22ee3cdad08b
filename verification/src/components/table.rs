//! The simple `Table` and the structural parts it is composed from.

use vstd::prelude::*;
use crate::registry::{
    constructor_table, kinds, lemma_kinds_push, method_table, ArgumentDescriptor, ArgumentSchema,
    ComponentDescriptor, ComponentKind, ComponentRegistry, ConstructorDescriptor, ConstructorRow,
    MethodDescriptor, MethodRow,
};
use crate::rules::{ChoiceList, ConstructorRule, MethodRule};

verus! {

/// The constructors of `TableHeader`: export name, argument slots and rule.
#[verifier::opaque]
pub open spec fn table_header_constructors() -> Seq<ConstructorRow> {
    seq![("TableHeader"@, seq![], ConstructorRule::Unit)]
}

/// Whether `d` is the `TableHeader` descriptor: its constructors, methods and documentation.
pub open spec fn is_table_header_descriptor(d: ComponentDescriptor) -> bool {
    &&& d.kind == ComponentKind::TableHeader
    &&& d.documentation@ == "A typed structural child in a simple Table."@
    &&& constructor_table(d.constructors@) == table_header_constructors()
    &&& d.methods@.len() == 0
}

fn table_header_descriptor() -> (d: ComponentDescriptor)
    ensures
        is_table_header_descriptor(d),
{
    let d = ComponentDescriptor::new(ComponentKind::TableHeader)
        .with_constructors(
            vec![ConstructorDescriptor::new("TableHeader", Vec::new(), ConstructorRule::Unit)],
        )
        .with_documentation("A typed structural child in a simple Table.");
    proof {
        reveal(table_header_constructors);
        assert(constructor_table(d.constructors@) =~~= table_header_constructors());
    }
    d
}

/// The constructors of `TableBody`: export name, argument slots and rule.
#[verifier::opaque]
pub open spec fn table_body_constructors() -> Seq<ConstructorRow> {
    seq![("TableBody"@, seq![], ConstructorRule::Unit)]
}

/// Whether `d` is the `TableBody` descriptor: its constructors, methods and documentation.
pub open spec fn is_table_body_descriptor(d: ComponentDescriptor) -> bool {
    &&& d.kind == ComponentKind::TableBody
    &&& d.documentation@ == "A typed structural child in a simple Table."@
    &&& constructor_table(d.constructors@) == table_body_constructors()
    &&& d.methods@.len() == 0
}

fn table_body_descriptor() -> (d: ComponentDescriptor)
    ensures
        is_table_body_descriptor(d),
{
    let d = ComponentDescriptor::new(ComponentKind::TableBody)
        .with_constructors(
            vec![ConstructorDescriptor::new("TableBody", Vec::new(), ConstructorRule::Unit)],
        )
        .with_documentation("A typed structural child in a simple Table.");
    proof {
        reveal(table_body_constructors);
        assert(constructor_table(d.constructors@) =~~= table_body_constructors());
    }
    d
}

/// The constructors of `TableFooter`: export name, argument slots and rule.
#[verifier::opaque]
pub open spec fn table_footer_constructors() -> Seq<ConstructorRow> {
    seq![("TableFooter"@, seq![], ConstructorRule::Unit)]
}

/// Whether `d` is the `TableFooter` descriptor: its constructors, methods and documentation.
pub open spec fn is_table_footer_descriptor(d: ComponentDescriptor) -> bool {
    &&& d.kind == ComponentKind::TableFooter
    &&& d.documentation@ == "A typed structural child in a simple Table."@
    &&& constructor_table(d.constructors@) == table_footer_constructors()
    &&& d.methods@.len() == 0
}

fn table_footer_descriptor() -> (d: ComponentDescriptor)
    ensures
        is_table_footer_descriptor(d),
{
    let d = ComponentDescriptor::new(ComponentKind::TableFooter)
        .with_constructors(
            vec![ConstructorDescriptor::new("TableFooter", Vec::new(), ConstructorRule::Unit)],
        )
        .with_documentation("A typed structural child in a simple Table.");
    proof {
        reveal(table_footer_constructors);
        assert(constructor_table(d.constructors@) =~~= table_footer_constructors());
    }
    d
}

/// The constructors of `TableRow`: export name, argument slots and rule.
#[verifier::opaque]
pub open spec fn table_row_constructors() -> Seq<ConstructorRow> {
    seq![("TableRow"@, seq![], ConstructorRule::Unit)]
}

/// Whether `d` is the `TableRow` descriptor: its constructors, methods and documentation.
pub open spec fn is_table_row_descriptor(d: ComponentDescriptor) -> bool {
    &&& d.kind == ComponentKind::TableRow
    &&& d.documentation@ == "A typed structural child in a simple Table."@
    &&& constructor_table(d.constructors@) == table_row_constructors()
    &&& d.methods@.len() == 0
}

fn table_row_descriptor() -> (d: ComponentDescriptor)
    ensures
        is_table_row_descriptor(d),
{
    let d = ComponentDescriptor::new(ComponentKind::TableRow)
        .with_constructors(
            vec![ConstructorDescriptor::new("TableRow", Vec::new(), ConstructorRule::Unit)],
        )
        .with_documentation("A typed structural child in a simple Table.");
    proof {
        reveal(table_row_constructors);
        assert(constructor_table(d.constructors@) =~~= table_row_constructors());
    }
    d
}

/// The constructors of `TableHead`: export name, argument slots and rule.
#[verifier::opaque]
pub open spec fn table_head_constructors() -> Seq<ConstructorRow> {
    seq![("TableHead"@, seq![], ConstructorRule::Unit)]
}

/// The methods of `TableHead`: name, argument slots, rule and documentation.
#[verifier::opaque]
pub open spec fn table_head_methods() -> Seq<MethodRow> {
    seq![
        (
            "col_span"@,
            seq![("span"@, ArgumentSchema::Number)],
            MethodRule::Count { error: "col_span(span) expects a positive integer" },
            "Sets the number of columns occupied by the cell."@,
        ),
        ("text_center"@, seq![], MethodRule::Unit, "Centers the cell content."@),
        ("text_right"@, seq![], MethodRule::Unit, "Right-aligns the cell content."@),
    ]
}

/// Whether `d` is the `TableHead` descriptor: its constructors, methods and documentation.
pub open spec fn is_table_head_descriptor(d: ComponentDescriptor) -> bool {
    &&& d.kind == ComponentKind::TableHead
    &&& d.documentation@ == "A typed structural child in a simple Table."@
    &&& constructor_table(d.constructors@) == table_head_constructors()
    &&& method_table(d.methods@) == table_head_methods()
}

fn table_head_descriptor() -> (d: ComponentDescriptor)
    ensures
        is_table_head_descriptor(d),
{
    let d = ComponentDescriptor::new(ComponentKind::TableHead)
        .with_constructors(
            vec![ConstructorDescriptor::new("TableHead", Vec::new(), ConstructorRule::Unit)],
        )
        .with_methods(
            vec![
                MethodDescriptor::new(
                    "col_span",
                    vec![ArgumentDescriptor::new("span", ArgumentSchema::Number)],
                    MethodRule::Count { error: "col_span(span) expects a positive integer" },
                ).with_documentation("Sets the number of columns occupied by the cell."),
                MethodDescriptor::new(
                    "text_center",
                    Vec::new(),
                    MethodRule::Unit,
                ).with_documentation("Centers the cell content."),
                MethodDescriptor::new(
                    "text_right",
                    Vec::new(),
                    MethodRule::Unit,
                ).with_documentation("Right-aligns the cell content."),
            ],
        )
        .with_documentation("A typed structural child in a simple Table.");
    proof {
        reveal(table_head_constructors);
        assert(constructor_table(d.constructors@) =~~= table_head_constructors());
        reveal(table_head_methods);
        assert(method_table(d.methods@) =~~= table_head_methods());
    }
    d
}

/// The constructors of `TableCell`: export name, argument slots and rule.
#[verifier::opaque]
pub open spec fn table_cell_constructors() -> Seq<ConstructorRow> {
    seq![("TableCell"@, seq![], ConstructorRule::Unit)]
}

/// The methods of `TableCell`: name, argument slots, rule and documentation.
#[verifier::opaque]
pub open spec fn table_cell_methods() -> Seq<MethodRow> {
    seq![
        (
            "col_span"@,
            seq![("span"@, ArgumentSchema::Number)],
            MethodRule::Count { error: "col_span(span) expects a positive integer" },
            "Sets the number of columns occupied by the cell."@,
        ),
        ("text_center"@, seq![], MethodRule::Unit, "Centers the cell content."@),
        ("text_right"@, seq![], MethodRule::Unit, "Right-aligns the cell content."@),
    ]
}

/// Whether `d` is the `TableCell` descriptor: its constructors, methods and documentation.
pub open spec fn is_table_cell_descriptor(d: ComponentDescriptor) -> bool {
    &&& d.kind == ComponentKind::TableCell
    &&& d.documentation@ == "A typed structural child in a simple Table."@
    &&& constructor_table(d.constructors@) == table_cell_constructors()
    &&& method_table(d.methods@) == table_cell_methods()
}

fn table_cell_descriptor() -> (d: ComponentDescriptor)
    ensures
        is_table_cell_descriptor(d),
{
    let d = ComponentDescriptor::new(ComponentKind::TableCell)
        .with_constructors(
            vec![ConstructorDescriptor::new("TableCell", Vec::new(), ConstructorRule::Unit)],
        )
        .with_methods(
            vec![
                MethodDescriptor::new(
                    "col_span",
                    vec![ArgumentDescriptor::new("span", ArgumentSchema::Number)],
                    MethodRule::Count { error: "col_span(span) expects a positive integer" },
                ).with_documentation("Sets the number of columns occupied by the cell."),
                MethodDescriptor::new(
                    "text_center",
                    Vec::new(),
                    MethodRule::Unit,
                ).with_documentation("Centers the cell content."),
                MethodDescriptor::new(
                    "text_right",
                    Vec::new(),
                    MethodRule::Unit,
                ).with_documentation("Right-aligns the cell content."),
            ],
        )
        .with_documentation("A typed structural child in a simple Table.");
    proof {
        reveal(table_cell_constructors);
        assert(constructor_table(d.constructors@) =~~= table_cell_constructors());
        reveal(table_cell_methods);
        assert(method_table(d.methods@) =~~= table_cell_methods());
    }
    d
}

/// The constructors of `TableCaption`: export name, argument slots and rule.
#[verifier::opaque]
pub open spec fn table_caption_constructors() -> Seq<ConstructorRow> {
    seq![("TableCaption"@, seq![], ConstructorRule::Unit)]
}

/// Whether `d` is the `TableCaption` descriptor: its constructors, methods and documentation.
pub open spec fn is_table_caption_descriptor(d: ComponentDescriptor) -> bool {
    &&& d.kind == ComponentKind::TableCaption
    &&& d.documentation@ == "A typed structural child in a simple Table."@
    &&& constructor_table(d.constructors@) == table_caption_constructors()
    &&& d.methods@.len() == 0
}

fn table_caption_descriptor() -> (d: ComponentDescriptor)
    ensures
        is_table_caption_descriptor(d),
{
    let d = ComponentDescriptor::new(ComponentKind::TableCaption)
        .with_constructors(
            vec![ConstructorDescriptor::new("TableCaption", Vec::new(), ConstructorRule::Unit)],
        )
        .with_documentation("A typed structural child in a simple Table.");
    proof {
        reveal(table_caption_constructors);
        assert(constructor_table(d.constructors@) =~~= table_caption_constructors());
    }
    d
}

/// The constructors of `Table`: export name, argument slots and rule.
#[verifier::opaque]
pub open spec fn table_constructors() -> Seq<ConstructorRow> {
    seq![("Table"@, seq![], ConstructorRule::Unit)]
}

/// The methods of `Table`: name, argument slots, rule and documentation.
#[verifier::opaque]
pub open spec fn table_methods() -> Seq<MethodRow> {
    seq![
        (
            "accessibility_label"@,
            seq![("label"@, ArgumentSchema::String)],
            MethodRule::Text {
                error: "Table.accessibility_label(label) expects a string",
                arity: "Table.accessibility_label(label) expects a string",
            },
            "Sets the table's screen-reader accessible name."@,
        ),
        (
            "size"@,
            seq![("size"@, ArgumentSchema::Enum(ChoiceList::Size))],
            MethodRule::Choice {
                list: ChoiceList::Size,
                any_text: false,
                unsupported: "unsupported Table size `",
                echo: true,
                error: "Table.size(size) expects a size literal",
                arity: "Table.size(size) expects a size literal",
            },
            "Sets the table density."@,
        ),
    ]
}

/// Whether `d` is the `Table` descriptor: its constructors, methods and documentation.
pub open spec fn is_table_descriptor(d: ComponentDescriptor) -> bool {
    &&& d.kind == ComponentKind::Table
    &&& d.documentation@ == "A simple stateless table composed from typed table-part children."@
    &&& constructor_table(d.constructors@) == table_constructors()
    &&& method_table(d.methods@) == table_methods()
}

fn table_descriptor() -> (d: ComponentDescriptor)
    ensures
        is_table_descriptor(d),
{
    let d = ComponentDescriptor::new(ComponentKind::Table)
        .with_constructors(
            vec![ConstructorDescriptor::new("Table", Vec::new(), ConstructorRule::Unit)],
        )
        .with_methods(
            vec![
                MethodDescriptor::new(
                    "accessibility_label",
                    vec![ArgumentDescriptor::new("label", ArgumentSchema::String)],
                    MethodRule::Text {
                        error: "Table.accessibility_label(label) expects a string",
                        arity: "Table.accessibility_label(label) expects a string",
                    },
                ).with_documentation("Sets the table's screen-reader accessible name."),
                MethodDescriptor::new(
                    "size",
                    vec![ArgumentDescriptor::new("size", ArgumentSchema::Enum(ChoiceList::Size))],
                    MethodRule::Choice {
                        list: ChoiceList::Size,
                        any_text: false,
                        unsupported: "unsupported Table size `",
                        echo: true,
                        error: "Table.size(size) expects a size literal",
                        arity: "Table.size(size) expects a size literal",
                    },
                ).with_documentation("Sets the table density."),
            ],
        )
        .with_documentation("A simple stateless table composed from typed table-part children.");
    proof {
        reveal(table_constructors);
        assert(constructor_table(d.constructors@) =~~= table_constructors());
        reveal(table_methods);
        assert(method_table(d.methods@) =~~= table_methods());
    }
    d
}

/// Registers `TableHeader`, `TableBody`, `TableFooter`, `TableRow`, `TableHead`, `TableCell`,
/// `TableCaption`, `Table` after the components already registered, in this order.
pub fn register(registry: &mut ComponentRegistry)
    requires
        !kinds(old(registry)@).contains(ComponentKind::TableHeader),
        !kinds(old(registry)@).contains(ComponentKind::TableBody),
        !kinds(old(registry)@).contains(ComponentKind::TableFooter),
        !kinds(old(registry)@).contains(ComponentKind::TableRow),
        !kinds(old(registry)@).contains(ComponentKind::TableHead),
        !kinds(old(registry)@).contains(ComponentKind::TableCell),
        !kinds(old(registry)@).contains(ComponentKind::TableCaption),
        !kinds(old(registry)@).contains(ComponentKind::Table),
    ensures
        final(registry)@.len() == old(registry)@.len() + 8,
        final(registry)@.take(old(registry)@.len() as int) == old(registry)@,
        is_table_header_descriptor(final(registry)@[old(registry)@.len() as int]),
        is_table_body_descriptor(final(registry)@[old(registry)@.len() as int + 1]),
        is_table_footer_descriptor(final(registry)@[old(registry)@.len() as int + 2]),
        is_table_row_descriptor(final(registry)@[old(registry)@.len() as int + 3]),
        is_table_head_descriptor(final(registry)@[old(registry)@.len() as int + 4]),
        is_table_cell_descriptor(final(registry)@[old(registry)@.len() as int + 5]),
        is_table_caption_descriptor(final(registry)@[old(registry)@.len() as int + 6]),
        is_table_descriptor(final(registry)@[old(registry)@.len() as int + 7]),
{
    let ghost start = registry@;
    let ghost before_table_header = registry@;
    let table_header = table_header_descriptor();
    let ghost added_table_header = table_header;
    let table_header_registered = registry.register(table_header);
    proof {
        assert(table_header_registered is Ok);
        lemma_kinds_push(before_table_header, added_table_header);
    }
    let ghost before_table_body = registry@;
    let table_body = table_body_descriptor();
    let ghost added_table_body = table_body;
    let table_body_registered = registry.register(table_body);
    proof {
        assert(table_body_registered is Ok);
        lemma_kinds_push(before_table_body, added_table_body);
    }
    let ghost before_table_footer = registry@;
    let table_footer = table_footer_descriptor();
    let ghost added_table_footer = table_footer;
    let table_footer_registered = registry.register(table_footer);
    proof {
        assert(table_footer_registered is Ok);
        lemma_kinds_push(before_table_footer, added_table_footer);
    }
    let ghost before_table_row = registry@;
    let table_row = table_row_descriptor();
    let ghost added_table_row = table_row;
    let table_row_registered = registry.register(table_row);
    proof {
        assert(table_row_registered is Ok);
        lemma_kinds_push(before_table_row, added_table_row);
    }
    let ghost before_table_head = registry@;
    let table_head = table_head_descriptor();
    let ghost added_table_head = table_head;
    let table_head_registered = registry.register(table_head);
    proof {
        assert(table_head_registered is Ok);
        lemma_kinds_push(before_table_head, added_table_head);
    }
    let ghost before_table_cell = registry@;
    let table_cell = table_cell_descriptor();
    let ghost added_table_cell = table_cell;
    let table_cell_registered = registry.register(table_cell);
    proof {
        assert(table_cell_registered is Ok);
        lemma_kinds_push(before_table_cell, added_table_cell);
    }
    let ghost before_table_caption = registry@;
    let table_caption = table_caption_descriptor();
    let ghost added_table_caption = table_caption;
    let table_caption_registered = registry.register(table_caption);
    proof {
        assert(table_caption_registered is Ok);
        lemma_kinds_push(before_table_caption, added_table_caption);
    }
    let table = table_descriptor();
    let table_registered = registry.register(table);
    proof {
        assert(table_registered is Ok);
    }
    proof {
        assert(registry@.take(start.len() as int) =~= start);
    }
}

} // verus!
