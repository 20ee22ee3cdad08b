//! The `Resizable` component: its descriptor and its registration.

use vstd::prelude::*;
use crate::registry::{
    constructor_table, kinds, method_table, ArgumentDescriptor, ArgumentSchema, ComponentDescriptor,
    ComponentKind, ComponentRegistry, ConstructorDescriptor, ConstructorRow, MethodDescriptor,
    MethodRow,
};
use crate::rules::{ConstructorRule, MethodRule};
use crate::calls::{calls_view, flag_or, last_flag_or, last_lines, lines, MethodCall};
use crate::text::strings_view;

verus! {

/// What the calls on a `Resizable` configure.
pub struct ResizableConfig {
    /// Panels stack in a column rather than a row.
    pub vertical: bool,
    /// One size text per panel, in panel order; `*` (or anything that is not
    /// a number) leaves the panel flexible.
    pub sizes: Vec<String>,
}

/// The configuration the calls leave, the last call of each method winning.
pub fn resizable_config(calls: &Vec<MethodCall>) -> (config: ResizableConfig)
    ensures
        config.vertical == last_flag_or(calls_view(calls@), "axis"@, false),
        strings_view(config.sizes@) == last_lines(calls_view(calls@), "sizes"@),
{
    ResizableConfig { vertical: flag_or(calls, "axis", false), sizes: lines(calls, "sizes") }
}

/// The constructors of `Resizable`: export name, argument slots and rule.
#[verifier::opaque]
pub open spec fn resizable_constructors() -> Seq<ConstructorRow> {
    seq![
        (
            "Resizable"@,
            seq![("id"@, ArgumentSchema::String)],
            ConstructorRule::Text { error: "Resizable(id) expects one string" },
        ),
    ]
}

/// The methods of `Resizable`: name, argument slots, rule and documentation.
#[verifier::opaque]
pub open spec fn resizable_methods() -> Seq<MethodRow> {
    seq![
        (
            "axis"@,
            seq![("axis"@, ArgumentSchema::Number)],
            MethodRule::Threshold,
            "Sets the axis: 0 is a row, 1 is a column."@,
        ),
        (
            "sizes"@,
            seq![("sizes"@, ArgumentSchema::String)],
            MethodRule::Split { sep: ',', error: "Resizable.sizes expects a string" },
            "Sets panel sizes in pixels; `*` is the flexible panel."@,
        ),
    ]
}

/// Whether `d` is the `Resizable` descriptor: its constructors, methods and documentation.
pub open spec fn is_resizable_descriptor(d: ComponentDescriptor) -> bool {
    &&& d.kind == ComponentKind::Resizable
    &&& d.documentation@ == "Draggable panels in a row or column. Give the frame a width/height."@
    &&& constructor_table(d.constructors@) == resizable_constructors()
    &&& method_table(d.methods@) == resizable_methods()
}

fn resizable_descriptor() -> (d: ComponentDescriptor)
    ensures
        is_resizable_descriptor(d),
{
    let d = ComponentDescriptor::new(ComponentKind::Resizable)
        .with_constructors(
            vec![
                ConstructorDescriptor::new(
                    "Resizable",
                    vec![ArgumentDescriptor::new("id", ArgumentSchema::String)],
                    ConstructorRule::Text { error: "Resizable(id) expects one string" },
                ),
            ],
        )
        .with_methods(
            vec![
                MethodDescriptor::new(
                    "axis",
                    vec![ArgumentDescriptor::new("axis", ArgumentSchema::Number)],
                    MethodRule::Threshold,
                ).with_documentation("Sets the axis: 0 is a row, 1 is a column."),
                MethodDescriptor::new(
                    "sizes",
                    vec![ArgumentDescriptor::new("sizes", ArgumentSchema::String)],
                    MethodRule::Split { sep: ',', error: "Resizable.sizes expects a string" },
                ).with_documentation("Sets panel sizes in pixels; `*` is the flexible panel."),
            ],
        )
        .with_documentation("Draggable panels in a row or column. Give the frame a width/height.");
    proof {
        reveal(resizable_constructors);
        assert(constructor_table(d.constructors@) =~~= resizable_constructors());
        reveal(resizable_methods);
        assert(method_table(d.methods@) =~~= resizable_methods());
    }
    d
}

/// Registers `Resizable` after the components already registered.
pub fn register(registry: &mut ComponentRegistry)
    requires
        !kinds(old(registry)@).contains(ComponentKind::Resizable),
    ensures
        final(registry)@.len() == old(registry)@.len() + 1,
        final(registry)@.take(old(registry)@.len() as int) == old(registry)@,
        is_resizable_descriptor(final(registry)@[old(registry)@.len() as int]),
{
    let ghost start = registry@;
    let resizable = resizable_descriptor();
    let resizable_registered = registry.register(resizable);
    proof {
        assert(resizable_registered is Ok);
    }
    proof {
        assert(registry@.take(start.len() as int) =~= start);
    }
}

} // verus!
