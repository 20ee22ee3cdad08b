//! The `Form` and the `Field` children it accepts.

use vstd::prelude::*;
use crate::registry::{
    constructor_table, kinds, lemma_kinds_push, method_table, ArgumentDescriptor, ArgumentSchema,
    ComponentDescriptor, ComponentKind, ComponentRegistry, ConstructorDescriptor, ConstructorRow,
    MethodDescriptor, MethodRow,
};
use crate::rules::{ChoiceList, ConstructorRule, FormLayout, MethodRule};

verus! {

/// The constructors of `Field`: export name, argument slots and rule.
#[verifier::opaque]
pub open spec fn field_constructors() -> Seq<ConstructorRow> {
    seq![("Field"@, seq![], ConstructorRule::Unit)]
}

/// The methods of `Field`: name, argument slots, rule and documentation.
#[verifier::opaque]
pub open spec fn field_methods() -> Seq<MethodRow> {
    seq![
        (
            "label"@,
            seq![("label"@, ArgumentSchema::String)],
            MethodRule::Text {
                error: "Field.label(label) expects a string",
                arity: "Field.label(label) expects a string",
            },
            "Sets the field label."@,
        ),
        (
            "description"@,
            seq![("description"@, ArgumentSchema::String)],
            MethodRule::Text {
                error: "Field.description(description) expects a string",
                arity: "Field.description(description) expects a string",
            },
            "Sets supporting text below the control."@,
        ),
        (
            "required"@,
            seq![("required"@, ArgumentSchema::Boolean)],
            MethodRule::Flag {
                error: "Field.required(required) expects one boolean",
                arity: "Field.required(required) expects one boolean",
            },
            "Marks the field as required."@,
        ),
        (
            "visible"@,
            seq![("visible"@, ArgumentSchema::Boolean)],
            MethodRule::Flag {
                error: "Field.visible(visible) expects one boolean",
                arity: "Field.visible(visible) expects one boolean",
            },
            "Controls field visibility."@,
        ),
        (
            "label_indent"@,
            seq![("label_indent"@, ArgumentSchema::Boolean)],
            MethodRule::Flag {
                error: "Field.label_indent(label_indent) expects one boolean",
                arity: "Field.label_indent(label_indent) expects one boolean",
            },
            "Keeps unlabeled horizontal fields aligned with labeled fields."@,
        ),
        (
            "align"@,
            seq![("align"@, ArgumentSchema::Enum(ChoiceList::FieldAlign))],
            MethodRule::Choice {
                list: ChoiceList::FieldAlign,
                any_text: false,
                unsupported: "unsupported Field alignment `",
                echo: true,
                error: "Field.align(align) expects an alignment literal",
                arity: "Field.align(align) expects an alignment literal",
            },
            "Aligns the label and control within the field."@,
        ),
        (
            "col_span"@,
            seq![("span"@, ArgumentSchema::Number)],
            MethodRule::Natural {
                positive: true,
                max: 65535,
                label: "Field.col_span",
                too_large: "Field.col_span expects a positive integer",
                not_number: "Field.col_span expects an exactly representable positive integer",
                arity: "Field.col_span expects an exactly representable positive integer",
            },
            "Sets the field's grid-column span."@,
        ),
    ]
}

/// Whether `d` is the `Field` descriptor: its constructors, methods and documentation.
pub open spec fn is_field_descriptor(d: ComponentDescriptor) -> bool {
    &&& d.kind == ComponentKind::Field
    &&& d.documentation@ == "A typed form field containing ordinary control children."@
    &&& constructor_table(d.constructors@) == field_constructors()
    &&& method_table(d.methods@) == field_methods()
}

fn field_descriptor() -> (d: ComponentDescriptor)
    ensures
        is_field_descriptor(d),
{
    let d = ComponentDescriptor::new(ComponentKind::Field)
        .with_constructors(
            vec![ConstructorDescriptor::new("Field", Vec::new(), ConstructorRule::Unit)],
        )
        .with_methods(
            vec![
                MethodDescriptor::new(
                    "label",
                    vec![ArgumentDescriptor::new("label", ArgumentSchema::String)],
                    MethodRule::Text {
                        error: "Field.label(label) expects a string",
                        arity: "Field.label(label) expects a string",
                    },
                ).with_documentation("Sets the field label."),
                MethodDescriptor::new(
                    "description",
                    vec![ArgumentDescriptor::new("description", ArgumentSchema::String)],
                    MethodRule::Text {
                        error: "Field.description(description) expects a string",
                        arity: "Field.description(description) expects a string",
                    },
                ).with_documentation("Sets supporting text below the control."),
                MethodDescriptor::new(
                    "required",
                    vec![ArgumentDescriptor::new("required", ArgumentSchema::Boolean)],
                    MethodRule::Flag {
                        error: "Field.required(required) expects one boolean",
                        arity: "Field.required(required) expects one boolean",
                    },
                ).with_documentation("Marks the field as required."),
                MethodDescriptor::new(
                    "visible",
                    vec![ArgumentDescriptor::new("visible", ArgumentSchema::Boolean)],
                    MethodRule::Flag {
                        error: "Field.visible(visible) expects one boolean",
                        arity: "Field.visible(visible) expects one boolean",
                    },
                ).with_documentation("Controls field visibility."),
                MethodDescriptor::new(
                    "label_indent",
                    vec![ArgumentDescriptor::new("label_indent", ArgumentSchema::Boolean)],
                    MethodRule::Flag {
                        error: "Field.label_indent(label_indent) expects one boolean",
                        arity: "Field.label_indent(label_indent) expects one boolean",
                    },
                ).with_documentation(
                    "Keeps unlabeled horizontal fields aligned with labeled fields.",
                ),
                MethodDescriptor::new(
                    "align",
                    vec![
                        ArgumentDescriptor::new(
                            "align",
                            ArgumentSchema::Enum(ChoiceList::FieldAlign),
                        ),
                    ],
                    MethodRule::Choice {
                        list: ChoiceList::FieldAlign,
                        any_text: false,
                        unsupported: "unsupported Field alignment `",
                        echo: true,
                        error: "Field.align(align) expects an alignment literal",
                        arity: "Field.align(align) expects an alignment literal",
                    },
                ).with_documentation("Aligns the label and control within the field."),
                MethodDescriptor::new(
                    "col_span",
                    vec![ArgumentDescriptor::new("span", ArgumentSchema::Number)],
                    MethodRule::Natural {
                        positive: true,
                        max: 65535,
                        label: "Field.col_span",
                        too_large: "Field.col_span expects a positive integer",
                        not_number: "Field.col_span expects an exactly representable positive integer",
                        arity: "Field.col_span expects an exactly representable positive integer",
                    },
                ).with_documentation("Sets the field's grid-column span."),
            ],
        )
        .with_documentation("A typed form field containing ordinary control children.");
    proof {
        reveal(field_constructors);
        assert(constructor_table(d.constructors@) =~~= field_constructors());
        reveal(field_methods);
        assert(method_table(d.methods@) =~~= field_methods());
    }
    d
}

/// The constructors of `Form`: export name, argument slots and rule.
#[verifier::opaque]
pub open spec fn form_constructors() -> Seq<ConstructorRow> {
    seq![
        ("Form"@, seq![], ConstructorRule::Form(FormLayout::Vertical)),
        ("VForm"@, seq![], ConstructorRule::Form(FormLayout::Vertical)),
        ("HForm"@, seq![], ConstructorRule::Form(FormLayout::Horizontal)),
    ]
}

/// The methods of `Form`: name, argument slots, rule and documentation.
#[verifier::opaque]
pub open spec fn form_methods() -> Seq<MethodRow> {
    seq![
        (
            "columns"@,
            seq![("columns"@, ArgumentSchema::Number)],
            MethodRule::Natural {
                positive: true,
                max: 65535,
                label: "Form.columns",
                too_large: "Form.columns expects a positive integer",
                not_number: "Form.columns expects an exactly representable positive integer",
                arity: "Form.columns expects an exactly representable positive integer",
            },
            "Sets the form grid's column count."@,
        ),
        (
            "label_width"@,
            seq![("width"@, ArgumentSchema::Number)],
            MethodRule::NonNegativeF32 {
                invalid: "Form.label_width expects a nonnegative finite number",
                not_number: "Form.label_width(width) expects a nonnegative finite number",
            },
            "Sets the horizontal form label width in pixels."@,
        ),
        (
            "size"@,
            seq![("size"@, ArgumentSchema::Enum(ChoiceList::Size))],
            MethodRule::Choice {
                list: ChoiceList::Size,
                any_text: false,
                unsupported: "unsupported Form size `",
                echo: true,
                error: "Form.size(size) expects a size literal",
                arity: "Form.size(size) expects a size literal",
            },
            "Sets the form density."@,
        ),
    ]
}

/// Whether `d` is the `Form` descriptor: its constructors, methods and documentation.
pub open spec fn is_form_descriptor(d: ComponentDescriptor) -> bool {
    &&& d.kind == ComponentKind::Form
    &&& d.documentation@ == "A vertical or horizontal form accepting Field children."@
    &&& constructor_table(d.constructors@) == form_constructors()
    &&& method_table(d.methods@) == form_methods()
}

fn form_descriptor() -> (d: ComponentDescriptor)
    ensures
        is_form_descriptor(d),
{
    let d = ComponentDescriptor::new(ComponentKind::Form)
        .with_constructors(
            vec![
                ConstructorDescriptor::new(
                    "Form",
                    Vec::new(),
                    ConstructorRule::Form(FormLayout::Vertical),
                ),
                ConstructorDescriptor::new(
                    "VForm",
                    Vec::new(),
                    ConstructorRule::Form(FormLayout::Vertical),
                ),
                ConstructorDescriptor::new(
                    "HForm",
                    Vec::new(),
                    ConstructorRule::Form(FormLayout::Horizontal),
                ),
            ],
        )
        .with_methods(
            vec![
                MethodDescriptor::new(
                    "columns",
                    vec![ArgumentDescriptor::new("columns", ArgumentSchema::Number)],
                    MethodRule::Natural {
                        positive: true,
                        max: 65535,
                        label: "Form.columns",
                        too_large: "Form.columns expects a positive integer",
                        not_number: "Form.columns expects an exactly representable positive integer",
                        arity: "Form.columns expects an exactly representable positive integer",
                    },
                ).with_documentation("Sets the form grid's column count."),
                MethodDescriptor::new(
                    "label_width",
                    vec![ArgumentDescriptor::new("width", ArgumentSchema::Number)],
                    MethodRule::NonNegativeF32 {
                        invalid: "Form.label_width expects a nonnegative finite number",
                        not_number: "Form.label_width(width) expects a nonnegative finite number",
                    },
                ).with_documentation("Sets the horizontal form label width in pixels."),
                MethodDescriptor::new(
                    "size",
                    vec![ArgumentDescriptor::new("size", ArgumentSchema::Enum(ChoiceList::Size))],
                    MethodRule::Choice {
                        list: ChoiceList::Size,
                        any_text: false,
                        unsupported: "unsupported Form size `",
                        echo: true,
                        error: "Form.size(size) expects a size literal",
                        arity: "Form.size(size) expects a size literal",
                    },
                ).with_documentation("Sets the form density."),
            ],
        )
        .with_documentation("A vertical or horizontal form accepting Field children.");
    proof {
        reveal(form_constructors);
        assert(constructor_table(d.constructors@) =~~= form_constructors());
        reveal(form_methods);
        assert(method_table(d.methods@) =~~= form_methods());
    }
    d
}

/// Registers `Field`, `Form` after the components already registered, in this order.
pub fn register(registry: &mut ComponentRegistry)
    requires
        !kinds(old(registry)@).contains(ComponentKind::Field),
        !kinds(old(registry)@).contains(ComponentKind::Form),
    ensures
        final(registry)@.len() == old(registry)@.len() + 2,
        final(registry)@.take(old(registry)@.len() as int) == old(registry)@,
        is_field_descriptor(final(registry)@[old(registry)@.len() as int]),
        is_form_descriptor(final(registry)@[old(registry)@.len() as int + 1]),
{
    let ghost start = registry@;
    let ghost before_field = registry@;
    let field = field_descriptor();
    let ghost added_field = field;
    let field_registered = registry.register(field);
    proof {
        assert(field_registered is Ok);
        lemma_kinds_push(before_field, added_field);
    }
    let form = form_descriptor();
    let form_registered = registry.register(form);
    proof {
        assert(form_registered is Ok);
    }
    proof {
        assert(registry@.take(start.len() as int) =~= start);
    }
}

} // verus!
