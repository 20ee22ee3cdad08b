//! The `Combobox` component: its descriptor and its registration.

use vstd::prelude::*;
use crate::registry::{
    constructor_table, kinds, method_table, ArgumentDescriptor, ArgumentSchema, ComponentDescriptor,
    ComponentKind, ComponentRegistry, ConstructorDescriptor, ConstructorRow, MethodDescriptor,
    MethodRow,
};
use crate::rules::{ConstructorRule, MethodRule};
use crate::calls::{calls_view, copy_lines, last_call, last_payload, MethodCall};
use crate::rules::{ComponentPayload, Payload};
use crate::text::strings_view;

verus! {

/// What a `Combobox` or `Tabs` shows: its options, one callback token per
/// option, and the selected index.
pub struct OptionsState {
    pub options: Vec<String>,
    pub tokens: Vec<u64>,
    pub selected: u64,
}

/// The options the last `options` call set, or none.
pub open spec fn options_of(calls: Seq<(Seq<char>, Payload)>) -> Seq<Seq<char>> {
    match last_call(calls, "options"@) {
        Some(Payload::Lines(options)) => options,
        _ => Seq::empty(),
    }
}

/// The tokens the last `tokens` call set, or none.
pub open spec fn tokens_of(calls: Seq<(Seq<char>, Payload)>) -> Seq<u64> {
    match last_call(calls, "tokens"@) {
        Some(Payload::Tokens(tokens)) => tokens,
        _ => Seq::empty(),
    }
}

/// The index the last `selected` call set, or zero.
pub open spec fn selected_of(calls: Seq<(Seq<char>, Payload)>) -> u64 {
    match last_call(calls, "selected"@) {
        Some(Payload::Count(n)) => n,
        _ => 0,
    }
}

/// The token of option `index`: the token at that position, or zero past the
/// last token.
pub open spec fn token_at(tokens: Seq<u64>, index: int) -> u64 {
    if 0 <= index < tokens.len() {
        tokens[index]
    } else {
        0
    }
}

fn copy_tokens(tokens: &Vec<u64>) -> (copy: Vec<u64>)
    ensures
        copy@ == tokens@,
{
    let mut copy: Vec<u64> = Vec::new();
    let n = tokens.len();
    let mut i: usize = 0;
    while i < n
        invariant
            n == tokens@.len(),
            i <= n,
            copy@ == tokens@.take(i as int),
        decreases n - i,
    {
        copy.push(tokens[i]);
        proof {
            assert(tokens@.take(i + 1) =~= tokens@.take(i as int).push(tokens@[i as int]));
        }
        i = i + 1;
    }
    proof {
        assert(tokens@.take(n as int) =~= tokens@);
    }
    copy
}

/// The options, tokens and selected index set by the calls, the last call of
/// each method winning.
pub fn options_state(calls: &Vec<MethodCall>) -> (state: OptionsState)
    ensures
        strings_view(state.options@) == options_of(calls_view(calls@)),
        state.tokens@ == tokens_of(calls_view(calls@)),
        state.selected == selected_of(calls_view(calls@)),
{
    let options = match last_payload(calls, "options") {
        Some(ComponentPayload::Lines(lines)) => copy_lines(lines),
        _ => {
            let none: Vec<String> = Vec::new();
            proof {
                assert(strings_view(none@) =~= Seq::<Seq<char>>::empty());
            }
            none
        },
    };
    let tokens = match last_payload(calls, "tokens") {
        Some(ComponentPayload::Tokens(tokens)) => copy_tokens(tokens),
        _ => Vec::new(),
    };
    let selected = match last_payload(calls, "selected") {
        Some(ComponentPayload::Count(n)) => *n,
        _ => 0,
    };
    OptionsState { options, tokens, selected }
}

/// The trigger label: the selected option, or `Select` when the index is past
/// the options.
pub open spec fn combobox_label_of(options: Seq<Seq<char>>, selected: u64) -> Seq<char> {
    if selected < options.len() {
        options[selected as int]
    } else {
        "Select"@
    }
}

/// The label of the Combobox trigger.
pub fn combobox_label(state: &OptionsState) -> (label: String)
    ensures
        label@ == combobox_label_of(strings_view(state.options@), state.selected),
{
    if state.selected < state.options.len() as u64 {
        let i = state.selected as usize;
        proof {
            assert(strings_view(state.options@)[i as int] == state.options@[i as int]@);
        }
        String::from_str(state.options[i].as_str())
    } else {
        proof {
            reveal_strlit("Select");
        }
        String::from_str("Select")
    }
}

/// An entry of the Combobox popup: an option and the token its choice reports.
pub struct PopupItem {
    pub label: String,
    pub token: u64,
}

/// The popup entries: one per option, in order, each with the token at its
/// position (zero past the last token).
pub fn popup_items(state: &OptionsState) -> (items: Vec<PopupItem>)
    ensures
        items@.len() == state.options@.len(),
        forall|i: int|
            0 <= i < items@.len() ==> #[trigger] items@[i].label@ == state.options@[i]@
                && items@[i].token == token_at(state.tokens@, i),
{
    let mut items: Vec<PopupItem> = Vec::new();
    let n = state.options.len();
    let mut i: usize = 0;
    while i < n
        invariant
            n == state.options@.len(),
            i <= n,
            items@.len() == i,
            forall|j: int|
                0 <= j < i ==> #[trigger] items@[j].label@ == state.options@[j]@
                    && items@[j].token == token_at(state.tokens@, j),
        decreases n - i,
    {
        let token = if i < state.tokens.len() {
            state.tokens[i]
        } else {
            0
        };
        items.push(PopupItem { label: String::from_str(state.options[i].as_str()), token });
        i = i + 1;
    }
    items
}

/// The constructors of `Combobox`: export name, argument slots and rule.
#[verifier::opaque]
pub open spec fn combobox_constructors() -> Seq<ConstructorRow> {
    seq![
        (
            "Combobox"@,
            seq![("id"@, ArgumentSchema::String)],
            ConstructorRule::Text { error: "Combobox(id) expects one string" },
        ),
    ]
}

/// The methods of `Combobox`: name, argument slots, rule and documentation.
#[verifier::opaque]
pub open spec fn combobox_methods() -> Seq<MethodRow> {
    seq![
        (
            "options"@,
            seq![("options"@, ArgumentSchema::String)],
            MethodRule::Split { sep: '\n', error: "Combobox.options expects a string" },
            "Sets the option labels, newline separated."@,
        ),
        (
            "tokens"@,
            seq![("tokens"@, ArgumentSchema::String)],
            MethodRule::Tokens { error: "Combobox.tokens expects a string" },
            "Sets one callback token per option, comma separated."@,
        ),
        (
            "selected"@,
            seq![("selected"@, ArgumentSchema::Number)],
            MethodRule::SelectedIndex,
            "Sets the selected option index."@,
        ),
    ]
}

/// Whether `d` is the `Combobox` descriptor: its constructors, methods and documentation.
pub open spec fn is_combobox_descriptor(d: ComponentDescriptor) -> bool {
    &&& d.kind == ComponentKind::Combobox
    &&& d.documentation@ == "A trigger that opens a popup of options."@
    &&& constructor_table(d.constructors@) == combobox_constructors()
    &&& method_table(d.methods@) == combobox_methods()
}

fn combobox_descriptor() -> (d: ComponentDescriptor)
    ensures
        is_combobox_descriptor(d),
{
    let d = ComponentDescriptor::new(ComponentKind::Combobox)
        .with_constructors(
            vec![
                ConstructorDescriptor::new(
                    "Combobox",
                    vec![ArgumentDescriptor::new("id", ArgumentSchema::String)],
                    ConstructorRule::Text { error: "Combobox(id) expects one string" },
                ),
            ],
        )
        .with_methods(
            vec![
                MethodDescriptor::new(
                    "options",
                    vec![ArgumentDescriptor::new("options", ArgumentSchema::String)],
                    MethodRule::Split { sep: '\n', error: "Combobox.options expects a string" },
                ).with_documentation("Sets the option labels, newline separated."),
                MethodDescriptor::new(
                    "tokens",
                    vec![ArgumentDescriptor::new("tokens", ArgumentSchema::String)],
                    MethodRule::Tokens { error: "Combobox.tokens expects a string" },
                ).with_documentation("Sets one callback token per option, comma separated."),
                MethodDescriptor::new(
                    "selected",
                    vec![ArgumentDescriptor::new("selected", ArgumentSchema::Number)],
                    MethodRule::SelectedIndex,
                ).with_documentation("Sets the selected option index."),
            ],
        )
        .with_documentation("A trigger that opens a popup of options.");
    proof {
        reveal(combobox_constructors);
        assert(constructor_table(d.constructors@) =~~= combobox_constructors());
        reveal(combobox_methods);
        assert(method_table(d.methods@) =~~= combobox_methods());
    }
    d
}

/// Registers `Combobox` after the components already registered.
pub fn register(registry: &mut ComponentRegistry)
    requires
        !kinds(old(registry)@).contains(ComponentKind::Combobox),
    ensures
        final(registry)@.len() == old(registry)@.len() + 1,
        final(registry)@.take(old(registry)@.len() as int) == old(registry)@,
        is_combobox_descriptor(final(registry)@[old(registry)@.len() as int]),
{
    let ghost start = registry@;
    let combobox = combobox_descriptor();
    let combobox_registered = registry.register(combobox);
    proof {
        assert(combobox_registered is Ok);
    }
    proof {
        assert(registry@.take(start.len() as int) =~= start);
    }
}

} // verus!
