//! The `DataTable` component: its descriptor and its registration.

use vstd::prelude::*;
use crate::registry::{
    constructor_table, kinds, method_table, ArgumentDescriptor, ArgumentSchema, ComponentDescriptor,
    ComponentKind, ComponentRegistry, ConstructorDescriptor, ConstructorRow, MethodDescriptor,
    MethodRow,
};
use crate::rules::{ConstructorRule, MethodRule};
use crate::calls::{calls_view, first_callback, first_callback_of, last_lines, lines, MethodCall};
use crate::text::strings_view;

verus! {

/// What the calls on a `DataTable` configure for its columns and cells.
pub struct DataTableConfig {
    /// The column keys; each is also the column's header.
    pub columns: Vec<String>,
    pub render_cell: Option<u64>,
}

/// The configuration the calls leave: the last `columns` call wins, and the
/// first `render_cell` call is the one used.
pub fn data_table_config(calls: &Vec<MethodCall>) -> (config: DataTableConfig)
    ensures
        strings_view(config.columns@) == last_lines(calls_view(calls@), "columns"@),
        config.render_cell == first_callback(calls_view(calls@), "render_cell"@),
{
    DataTableConfig {
        columns: lines(calls, "columns"),
        render_cell: first_callback_of(calls, "render_cell"),
    }
}

/// The constructors of `DataTable`: export name, argument slots and rule.
#[verifier::opaque]
pub open spec fn data_table_constructors() -> Seq<ConstructorRow> {
    seq![
        (
            "DataTable"@,
            seq![("id"@, ArgumentSchema::String), ("row_count"@, ArgumentSchema::Number)],
            ConstructorRule::Table {
                error: "DataTable expects a non-empty id and a row_count",
                count: "DataTable row_count must be a non-negative integer",
            },
        ),
    ]
}

/// The methods of `DataTable`: name, argument slots, rule and documentation.
#[verifier::opaque]
pub open spec fn data_table_methods() -> Seq<MethodRow> {
    seq![
        (
            "columns"@,
            seq![("keys"@, ArgumentSchema::String)],
            MethodRule::Columns { error: "DataTable.columns(keys) expects a string" },
            "Sets the column headers from a newline-separated list."@,
        ),
        (
            "stripe"@,
            seq![("stripe"@, ArgumentSchema::Boolean)],
            MethodRule::Flag {
                error: "DataTable.stripe(stripe) expects a boolean",
                arity: "DataTable.stripe(stripe) expects a boolean",
            },
            "Alternates row backgrounds."@,
        ),
        (
            "bordered"@,
            seq![("bordered"@, ArgumentSchema::Boolean)],
            MethodRule::Flag {
                error: "DataTable.bordered(bordered) expects a boolean",
                arity: "DataTable.bordered(bordered) expects a boolean",
            },
            "Draws cell borders."@,
        ),
        (
            "render_cell"@,
            seq![("callback"@, ArgumentSchema::Callback)],
            MethodRule::Callback { error: "DataTable.render_cell(callback) expects a callback" },
            "Renders one cell with managed code, receiving `[row_index, column]`."@,
        ),
    ]
}

/// Whether `d` is the `DataTable` descriptor: its constructors, methods and documentation.
pub open spec fn is_data_table_descriptor(d: ComponentDescriptor) -> bool {
    &&& d.kind == ComponentKind::DataTable
    &&& d.documentation@ == "Retained native DataTable that asks managed code for one row index at a time. ContextMenuItem/ContextMenuSeparator children become the row right-click menu."@
    &&& constructor_table(d.constructors@) == data_table_constructors()
    &&& method_table(d.methods@) == data_table_methods()
}

fn data_table_descriptor() -> (d: ComponentDescriptor)
    ensures
        is_data_table_descriptor(d),
{
    let d = ComponentDescriptor::new(ComponentKind::DataTable)
        .with_constructors(
            vec![
                ConstructorDescriptor::new(
                    "DataTable",
                    vec![
                        ArgumentDescriptor::new("id", ArgumentSchema::String),
                        ArgumentDescriptor::new("row_count", ArgumentSchema::Number),
                    ],
                    ConstructorRule::Table {
                        error: "DataTable expects a non-empty id and a row_count",
                        count: "DataTable row_count must be a non-negative integer",
                    },
                ),
            ],
        )
        .with_methods(
            vec![
                MethodDescriptor::new(
                    "columns",
                    vec![ArgumentDescriptor::new("keys", ArgumentSchema::String)],
                    MethodRule::Columns { error: "DataTable.columns(keys) expects a string" },
                ).with_documentation("Sets the column headers from a newline-separated list."),
                MethodDescriptor::new(
                    "stripe",
                    vec![ArgumentDescriptor::new("stripe", ArgumentSchema::Boolean)],
                    MethodRule::Flag {
                        error: "DataTable.stripe(stripe) expects a boolean",
                        arity: "DataTable.stripe(stripe) expects a boolean",
                    },
                ).with_documentation("Alternates row backgrounds."),
                MethodDescriptor::new(
                    "bordered",
                    vec![ArgumentDescriptor::new("bordered", ArgumentSchema::Boolean)],
                    MethodRule::Flag {
                        error: "DataTable.bordered(bordered) expects a boolean",
                        arity: "DataTable.bordered(bordered) expects a boolean",
                    },
                ).with_documentation("Draws cell borders."),
                MethodDescriptor::new(
                    "render_cell",
                    vec![ArgumentDescriptor::new("callback", ArgumentSchema::Callback)],
                    MethodRule::Callback {
                        error: "DataTable.render_cell(callback) expects a callback",
                    },
                ).with_documentation(
                    "Renders one cell with managed code, receiving `[row_index, column]`.",
                ),
            ],
        )
        .with_documentation(
            "Retained native DataTable that asks managed code for one row index at a time. ContextMenuItem/ContextMenuSeparator children become the row right-click menu.",
        );
    proof {
        reveal(data_table_constructors);
        assert(constructor_table(d.constructors@) =~~= data_table_constructors());
        reveal(data_table_methods);
        assert(method_table(d.methods@) =~~= data_table_methods());
    }
    d
}

/// Registers `DataTable` after the components already registered.
pub fn register(registry: &mut ComponentRegistry)
    requires
        !kinds(old(registry)@).contains(ComponentKind::DataTable),
    ensures
        final(registry)@.len() == old(registry)@.len() + 1,
        final(registry)@.take(old(registry)@.len() as int) == old(registry)@,
        is_data_table_descriptor(final(registry)@[old(registry)@.len() as int]),
{
    let ghost start = registry@;
    let data_table = data_table_descriptor();
    let data_table_registered = registry.register(data_table);
    proof {
        assert(data_table_registered is Ok);
    }
    proof {
        assert(registry@.take(start.len() as int) =~= start);
    }
}

} // verus!
