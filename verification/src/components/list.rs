//! The `List` component: its descriptor and its registration.

use vstd::prelude::*;
use crate::registry::{
    constructor_table, kinds, method_table, ArgumentDescriptor, ArgumentSchema, ComponentDescriptor,
    ComponentKind, ComponentRegistry, ConstructorDescriptor, ConstructorRow, MethodDescriptor,
    MethodRow,
};
use crate::rules::{ConstructorRule, MethodRule};
use crate::calls::{calls_view, first_callback, first_callback_of, MethodCall};
use crate::text::{decimal, decimal_string, str_equal, strings_view};

verus! {

/// A row of a `List` (or an item of a `Select`): its id, label, whether it is
/// disabled, and all of its fields.
pub struct ListRow {
    pub id: String,
    pub label: String,
    pub disabled: bool,
    pub fields: Vec<String>,
}

/// The id of the row at `index`: its first field, unless that is missing or
/// empty, in which case `row-` and the index.
pub open spec fn row_id(fields: Seq<Seq<char>>, index: nat) -> Seq<char> {
    if fields.len() > 0 && fields[0].len() > 0 {
        fields[0]
    } else {
        "row-"@ + decimal(index)
    }
}

/// The label of a row: its second field, or its id.
pub open spec fn row_label(fields: Seq<Seq<char>>, index: nat) -> Seq<char> {
    if fields.len() > 1 {
        fields[1]
    } else {
        row_id(fields, index)
    }
}

/// A row is disabled when its third field is `true` or `1`.
pub open spec fn row_disabled(fields: Seq<Seq<char>>) -> bool {
    fields.len() > 2 && (fields[2] == "true"@ || fields[2] == "1"@)
}

fn parse_row(fields: &Vec<String>, index: usize) -> (row: ListRow)
    ensures
        row.id@ == row_id(strings_view(fields@), index as nat),
        row.label@ == row_label(strings_view(fields@), index as nat),
        row.disabled == row_disabled(strings_view(fields@)),
        strings_view(row.fields@) == strings_view(fields@),
{
    let ghost f = strings_view(fields@);
    let id = if fields.len() > 0 && fields[0].as_str().unicode_len() > 0 {
        proof {
            assert(f[0] == fields@[0]@);
        }
        String::from_str(fields[0].as_str())
    } else {
        let s = String::from_str("row-").concat(decimal_string(index as u64).as_str());
        proof {
            reveal_strlit("row-");
            if fields@.len() > 0 {
                assert(f[0] == fields@[0]@);
            }
            assert(s@ =~= row_id(f, index as nat));
        }
        s
    };
    let label = if fields.len() > 1 {
        proof {
            assert(f[1] == fields@[1]@);
        }
        String::from_str(fields[1].as_str())
    } else {
        String::from_str(id.as_str())
    };
    let disabled = if fields.len() > 2 {
        proof {
            assert(f[2] == fields@[2]@);
        }
        str_equal(fields[2].as_str(), "true") || str_equal(fields[2].as_str(), "1")
    } else {
        false
    };
    ListRow { id, label, disabled, fields: crate::calls::copy_lines(fields) }
}

/// The rows of a row snapshot, one per list of fields, in order.
pub fn parse_list_rows(rows: &Vec<Vec<String>>) -> (parsed: Vec<ListRow>)
    ensures
        parsed@.len() == rows@.len(),
        forall|i: int|
            0 <= i < rows@.len() ==> {
                let fields = strings_view(#[trigger] rows@[i]@);
                &&& parsed@[i].id@ == row_id(fields, i as nat)
                &&& parsed@[i].label@ == row_label(fields, i as nat)
                &&& parsed@[i].disabled == row_disabled(fields)
                &&& strings_view(parsed@[i].fields@) == fields
            },
{
    let mut parsed: Vec<ListRow> = Vec::new();
    let n = rows.len();
    let mut i: usize = 0;
    while i < n
        invariant
            n == rows@.len(),
            i <= n,
            parsed@.len() == i,
            forall|j: int|
                0 <= j < i ==> {
                    let fields = strings_view(#[trigger] rows@[j]@);
                    &&& parsed@[j].id@ == row_id(fields, j as nat)
                    &&& parsed@[j].label@ == row_label(fields, j as nat)
                    &&& parsed@[j].disabled == row_disabled(fields)
                    &&& strings_view(parsed@[j].fields@) == fields
                },
        decreases n - i,
    {
        let row = parse_row(&rows[i], i);
        parsed.push(row);
        i = i + 1;
    }
    parsed
}

/// The element callback of a `List` (or a `Select`) row: the first
/// `render_row` call's.
pub fn render_row(calls: &Vec<MethodCall>) -> (token: Option<u64>)
    ensures
        token == first_callback(calls_view(calls@), "render_row"@),
{
    first_callback_of(calls, "render_row")
}

/// Every row has an id, whether its first field gives one or not.
pub proof fn lemma_row_id_nonempty(fields: Seq<Seq<char>>, index: nat)
    ensures
        row_id(fields, index).len() > 0,
{
    reveal_strlit("row-");
}

/// The constructors of `List`: export name, argument slots and rule.
#[verifier::opaque]
pub open spec fn list_constructors() -> Seq<ConstructorRow> {
    seq![
        (
            "List"@,
            seq![("id"@, ArgumentSchema::String), ("rows"@, ArgumentSchema::Callback)],
            ConstructorRule::Rows {
                error: "List expects a non-empty id and a rows callback",
                token: "List rows token must be a number",
            },
        ),
    ]
}

/// The methods of `List`: name, argument slots, rule and documentation.
#[verifier::opaque]
pub open spec fn list_methods() -> Seq<MethodRow> {
    seq![
        (
            "render_row"@,
            seq![("callback"@, ArgumentSchema::Callback)],
            MethodRule::Callback { error: "List.render_row(callback) expects a callback" },
            "Renders each row with managed code, receiving the row's fields."@,
        ),
    ]
}

/// Whether `d` is the `List` descriptor: its constructors, methods and documentation.
pub open spec fn is_list_descriptor(d: ComponentDescriptor) -> bool {
    &&& d.kind == ComponentKind::List
    &&& d.documentation@ == "Native retained List backed by an immutable `id\\tlabel[\\tdisabled]` row snapshot."@
    &&& constructor_table(d.constructors@) == list_constructors()
    &&& method_table(d.methods@) == list_methods()
}

fn list_descriptor() -> (d: ComponentDescriptor)
    ensures
        is_list_descriptor(d),
{
    let d = ComponentDescriptor::new(ComponentKind::List)
        .with_constructors(
            vec![
                ConstructorDescriptor::new(
                    "List",
                    vec![
                        ArgumentDescriptor::new("id", ArgumentSchema::String),
                        ArgumentDescriptor::new("rows", ArgumentSchema::Callback),
                    ],
                    ConstructorRule::Rows {
                        error: "List expects a non-empty id and a rows callback",
                        token: "List rows token must be a number",
                    },
                ),
            ],
        )
        .with_methods(
            vec![
                MethodDescriptor::new(
                    "render_row",
                    vec![ArgumentDescriptor::new("callback", ArgumentSchema::Callback)],
                    MethodRule::Callback { error: "List.render_row(callback) expects a callback" },
                ).with_documentation(
                    "Renders each row with managed code, receiving the row's fields.",
                ),
            ],
        )
        .with_documentation(
            "Native retained List backed by an immutable `id\\tlabel[\\tdisabled]` row snapshot.",
        );
    proof {
        reveal(list_constructors);
        assert(constructor_table(d.constructors@) =~~= list_constructors());
        reveal(list_methods);
        assert(method_table(d.methods@) =~~= list_methods());
    }
    d
}

/// Registers `List` after the components already registered.
pub fn register(registry: &mut ComponentRegistry)
    requires
        !kinds(old(registry)@).contains(ComponentKind::List),
    ensures
        final(registry)@.len() == old(registry)@.len() + 1,
        final(registry)@.take(old(registry)@.len() as int) == old(registry)@,
        is_list_descriptor(final(registry)@[old(registry)@.len() as int]),
{
    let ghost start = registry@;
    let list = list_descriptor();
    let list_registered = registry.register(list);
    proof {
        assert(list_registered is Ok);
    }
    proof {
        assert(registry@.take(start.len() as int) =~= start);
    }
}

} // verus!
