//! The `Editor` component: its descriptor and its registration.

use vstd::prelude::*;
use crate::registry::{
    constructor_table, kinds, method_table, ArgumentDescriptor, ArgumentSchema, ComponentDescriptor,
    ComponentKind, ComponentRegistry, ConstructorDescriptor, ConstructorRow, MethodDescriptor,
    MethodRow,
};
use crate::rules::{ChoiceList, ConstructorRule, MethodRule};
use crate::calls::{
    callback, calls_view, last_call, last_callback, last_payload, last_text, text, MethodCall,
};
use crate::rules::{ComponentPayload, Payload};
use crate::text::str_equal;

verus! {

/// What the calls on an `Editor` configure for its first render.
pub struct EditorConfig {
    pub value: String,
    pub language: Option<String>,
    pub on_focus: Option<u64>,
    pub on_blur: Option<u64>,
}

/// The language the last `language` call named.
pub open spec fn editor_language(calls: Seq<(Seq<char>, Payload)>) -> Option<Seq<char>> {
    match last_call(calls, "language"@) {
        Some(Payload::Text(s)) => Some(s),
        _ => None,
    }
}

/// The configuration the calls leave: the last call of each method wins and
/// the initial text defaults to empty.
pub fn editor_config(calls: &Vec<MethodCall>) -> (config: EditorConfig)
    ensures
        config.value@ == last_text(calls_view(calls@), "value"@),
        match config.language {
            Some(s) => editor_language(calls_view(calls@)) == Some(s@),
            None => editor_language(calls_view(calls@)) is None,
        },
        config.on_focus == last_callback(calls_view(calls@), "on_focus"@),
        config.on_blur == last_callback(calls_view(calls@), "on_blur"@),
{
    let language = match last_payload(calls, "language") {
        Some(ComponentPayload::Text(s)) => Some(String::from_str(s.as_str())),
        _ => None,
    };
    EditorConfig {
        value: text(calls, "value"),
        language,
        on_focus: callback(calls, "on_focus"),
        on_blur: callback(calls, "on_blur"),
    }
}

/// Refuses children: an `Editor` holds only its own text.
pub fn editor_children(count: usize) -> (r: Result<(), String>)
    ensures
        r is Ok <==> count == 0,
        count != 0 ==> (r matches Err(m) && m@ == "Editor does not accept children"@),
{
    if count == 0 {
        Ok(())
    } else {
        Err(String::from_str("Editor does not accept children"))
    }
}

/// A presentation call on an `Editor`, applied in call order.
pub enum EditorSetting {
    Appearance(bool),
    Bordered(bool),
    Readonly(bool),
    AriaLabel(String),
}

/// The mathematical content of an [`EditorSetting`].
pub enum EditorSettingView {
    Appearance(bool),
    Bordered(bool),
    Readonly(bool),
    AriaLabel(Seq<char>),
}

pub open spec fn setting_view(s: EditorSetting) -> EditorSettingView {
    match s {
        EditorSetting::Appearance(b) => EditorSettingView::Appearance(b),
        EditorSetting::Bordered(b) => EditorSettingView::Bordered(b),
        EditorSetting::Readonly(b) => EditorSettingView::Readonly(b),
        EditorSetting::AriaLabel(l) => EditorSettingView::AriaLabel(l@),
    }
}

/// The presentation setting a call makes, if it makes one: `appearance`,
/// `bordered` and `readonly` with their flag, `aria_label` with its text.
pub open spec fn editor_setting(call: (Seq<char>, Payload)) -> Option<EditorSettingView> {
    if call.0 == "appearance"@ {
        match call.1 {
            Payload::Flag(b) => Some(EditorSettingView::Appearance(b)),
            _ => None,
        }
    } else if call.0 == "bordered"@ {
        match call.1 {
            Payload::Flag(b) => Some(EditorSettingView::Bordered(b)),
            _ => None,
        }
    } else if call.0 == "readonly"@ {
        match call.1 {
            Payload::Flag(b) => Some(EditorSettingView::Readonly(b)),
            _ => None,
        }
    } else if call.0 == "aria_label"@ {
        match call.1 {
            Payload::Text(s) => Some(EditorSettingView::AriaLabel(s)),
            _ => None,
        }
    } else {
        None
    }
}

/// The presentation settings of all calls, in call order.
pub open spec fn editor_settings(calls: Seq<(Seq<char>, Payload)>) -> Seq<EditorSettingView>
    decreases calls.len(),
{
    if calls.len() == 0 {
        Seq::empty()
    } else {
        let rest = editor_settings(calls.drop_last());
        match editor_setting(calls.last()) {
            Some(s) => rest.push(s),
            None => rest,
        }
    }
}

fn setting_of(call: &MethodCall) -> (s: Option<EditorSetting>)
    ensures
        match s {
            Some(x) => editor_setting(call@) == Some(setting_view(x)),
            None => editor_setting(call@) is None,
        },
{
    let m = call.method.as_str();
    if str_equal(m, "appearance") {
        match &call.payload {
            ComponentPayload::Flag(b) => Some(EditorSetting::Appearance(*b)),
            _ => None,
        }
    } else if str_equal(m, "bordered") {
        match &call.payload {
            ComponentPayload::Flag(b) => Some(EditorSetting::Bordered(*b)),
            _ => None,
        }
    } else if str_equal(m, "readonly") {
        match &call.payload {
            ComponentPayload::Flag(b) => Some(EditorSetting::Readonly(*b)),
            _ => None,
        }
    } else if str_equal(m, "aria_label") {
        match &call.payload {
            ComponentPayload::Text(l) => Some(EditorSetting::AriaLabel(l.clone())),
            _ => None,
        }
    } else {
        None
    }
}

/// The `appearance`, `bordered`, `readonly` and `aria_label` calls, in the
/// order they were made, for the editor to apply one after another.
pub fn editor_settings_of(calls: &Vec<MethodCall>) -> (settings: Vec<EditorSetting>)
    ensures
        settings@.map_values(|s: EditorSetting| setting_view(s)) == editor_settings(
            calls_view(calls@),
        ),
{
    let ghost v = calls_view(calls@);
    let mut settings: Vec<EditorSetting> = Vec::new();
    let n = calls.len();
    let mut i: usize = 0;
    proof {
        assert(v.take(0) =~= Seq::<(Seq<char>, Payload)>::empty());
        assert(settings@.map_values(|s: EditorSetting| setting_view(s)) =~= Seq::<
            EditorSettingView,
        >::empty());
    }
    while i < n
        invariant
            n == calls@.len(),
            v == calls_view(calls@),
            i <= n,
            settings@.map_values(|s: EditorSetting| setting_view(s)) == editor_settings(
                v.take(i as int),
            ),
        decreases n - i,
    {
        proof {
            assert(v.take(i + 1).drop_last() =~= v.take(i as int));
            assert(v.take(i + 1).last() == calls@[i as int]@);
        }
        let ghost before = settings@.map_values(|s: EditorSetting| setting_view(s));
        match setting_of(&calls[i]) {
            Some(s) => {
                let ghost sv = setting_view(s);
                settings.push(s);
                proof {
                    assert(settings@.map_values(|s: EditorSetting| setting_view(s)) =~= before.push(
                        sv,
                    ));
                }
            },
            None => {},
        }
        i = i + 1;
    }
    proof {
        assert(v.take(n as int) =~= v);
    }
    settings
}

/// The settings of calls made one after another are the settings of the
/// first calls followed by those of the later ones.
pub proof fn lemma_settings_keep_call_order(
    earlier: Seq<(Seq<char>, Payload)>,
    later: Seq<(Seq<char>, Payload)>,
)
    ensures
        editor_settings(earlier + later) == editor_settings(earlier) + editor_settings(later),
    decreases later.len(),
{
    if later.len() == 0 {
        assert(earlier + later =~= earlier);
        assert(editor_settings(earlier) + Seq::<EditorSettingView>::empty() =~= editor_settings(
            earlier,
        ));
    } else {
        lemma_settings_keep_call_order(earlier, later.drop_last());
        assert((earlier + later).drop_last() =~= earlier + later.drop_last());
        assert((earlier + later).last() == later.last());
        match editor_setting(later.last()) {
            Some(s) => {
                assert(editor_settings(earlier) + editor_settings(later.drop_last()).push(s)
                    =~= (editor_settings(earlier) + editor_settings(later.drop_last())).push(s));
            },
            None => {},
        }
    }
}

/// Each presentation call sets what its method names, with the value it
/// recorded: `appearance`, `bordered` and `readonly` their flag, `aria_label`
/// its text.
pub proof fn lemma_each_setting_follows_its_method(b: bool, label: Seq<char>)
    ensures
        editor_settings(seq![("appearance"@, Payload::Flag(b))]) == seq![
            EditorSettingView::Appearance(b),
        ],
        editor_settings(seq![("bordered"@, Payload::Flag(b))]) == seq![
            EditorSettingView::Bordered(b),
        ],
        editor_settings(seq![("readonly"@, Payload::Flag(b))]) == seq![
            EditorSettingView::Readonly(b),
        ],
        editor_settings(seq![("aria_label"@, Payload::Text(label))]) == seq![
            EditorSettingView::AriaLabel(label),
        ],
{
    reveal_strlit("appearance");
    reveal_strlit("bordered");
    reveal_strlit("readonly");
    reveal_strlit("aria_label");
    assert("appearance"@[1] == 'p' && "aria_label"@[1] == 'r' && "bordered"@[0] == 'b'
        && "readonly"@[0] == 'r' && "appearance"@[0] == 'a' && "aria_label"@[0] == 'a');
    assert("appearance"@.len() == 10 && "aria_label"@.len() == 10 && "bordered"@.len() == 8
        && "readonly"@.len() == 8);
    lemma_single_setting(("appearance"@, Payload::Flag(b)));
    lemma_single_setting(("bordered"@, Payload::Flag(b)));
    lemma_single_setting(("readonly"@, Payload::Flag(b)));
    lemma_single_setting(("aria_label"@, Payload::Text(label)));
    assert(editor_setting(("appearance"@, Payload::Flag(b))) == Some(
        EditorSettingView::Appearance(b),
    ));
    assert(editor_setting(("bordered"@, Payload::Flag(b))) == Some(EditorSettingView::Bordered(b)));
    assert(editor_setting(("readonly"@, Payload::Flag(b))) == Some(EditorSettingView::Readonly(b)));
    assert(editor_setting(("aria_label"@, Payload::Text(label))) == Some(
        EditorSettingView::AriaLabel(label),
    ));
}

/// The settings of a single call are its own setting, if it makes one.
proof fn lemma_single_setting(call: (Seq<char>, Payload))
    ensures
        editor_settings(seq![call]) == match editor_setting(call) {
            Some(x) => seq![x],
            None => Seq::<EditorSettingView>::empty(),
        },
{
    assert(seq![call].drop_last() =~= Seq::<(Seq<char>, Payload)>::empty());
    assert(seq![call].last() == call);
    assert(editor_settings(Seq::<(Seq<char>, Payload)>::empty()) == Seq::<EditorSettingView>::empty());
    assert(editor_settings(seq![call].drop_last()) == Seq::<EditorSettingView>::empty());
    if let Some(x) = editor_setting(call) {
        assert(Seq::<EditorSettingView>::empty().push(x) =~= seq![x]);
    }
}

/// The constructors of `Editor`: export name, argument slots and rule.
#[verifier::opaque]
pub open spec fn editor_constructors() -> Seq<ConstructorRow> {
    seq![
        (
            "Editor"@,
            seq![("id"@, ArgumentSchema::String)],
            ConstructorRule::NonBlank {
                component: "Editor",
                error: "Editor(id) expects a non-empty string id",
            },
        ),
    ]
}

/// The methods of `Editor`: name, argument slots, rule and documentation.
#[verifier::opaque]
pub open spec fn editor_methods() -> Seq<MethodRow> {
    seq![
        (
            "value"@,
            seq![("value"@, ArgumentSchema::String)],
            MethodRule::Text {
                error: "Editor.value expects text",
                arity: "Editor.value expects text",
            },
            "Sets the initial source text (first render only)."@,
        ),
        (
            "language"@,
            seq![("language"@, ArgumentSchema::Enum(ChoiceList::EditorLanguage))],
            MethodRule::EnumText { error: "Editor.language expects rust, json, or plaintext" },
            "Sets the syntax language (first render only)."@,
        ),
        (
            "appearance"@,
            seq![("appearance"@, ArgumentSchema::Boolean)],
            MethodRule::Flag {
                error: "Editor.appearance(appearance) expects a boolean",
                arity: "Editor.appearance(appearance) expects a boolean",
            },
            "Sets native Editor behavior."@,
        ),
        (
            "bordered"@,
            seq![("bordered"@, ArgumentSchema::Boolean)],
            MethodRule::Flag {
                error: "Editor.bordered(bordered) expects a boolean",
                arity: "Editor.bordered(bordered) expects a boolean",
            },
            "Sets native Editor behavior."@,
        ),
        (
            "readonly"@,
            seq![("readonly"@, ArgumentSchema::Boolean)],
            MethodRule::Flag {
                error: "Editor.readonly(readonly) expects a boolean",
                arity: "Editor.readonly(readonly) expects a boolean",
            },
            "Sets native Editor behavior."@,
        ),
        (
            "aria_label"@,
            seq![("label"@, ArgumentSchema::String)],
            MethodRule::NonBlankText { error: "Editor.aria_label expects non-empty text" },
            "Sets the editor accessibility label."@,
        ),
        (
            "on_focus"@,
            seq![("callback"@, ArgumentSchema::Callback)],
            MethodRule::Callback { error: "Editor.on_focus(callback) expects a callback" },
            "Runs when the editor gains focus."@,
        ),
        (
            "on_blur"@,
            seq![("callback"@, ArgumentSchema::Callback)],
            MethodRule::Callback { error: "Editor.on_blur(callback) expects a callback" },
            "Runs when the editor loses focus."@,
        ),
    ]
}

/// Whether `d` is the `Editor` descriptor: its constructors, methods and documentation.
pub open spec fn is_editor_descriptor(d: ComponentDescriptor) -> bool {
    &&& d.kind == ComponentKind::Editor
    &&& d.documentation@ == "A retained native source editor. Shell disabled and style are honored; children are rejected."@
    &&& constructor_table(d.constructors@) == editor_constructors()
    &&& method_table(d.methods@) == editor_methods()
}

fn editor_descriptor() -> (d: ComponentDescriptor)
    ensures
        is_editor_descriptor(d),
{
    let d = ComponentDescriptor::new(ComponentKind::Editor)
        .with_constructors(
            vec![
                ConstructorDescriptor::new(
                    "Editor",
                    vec![ArgumentDescriptor::new("id", ArgumentSchema::String)],
                    ConstructorRule::NonBlank {
                        component: "Editor",
                        error: "Editor(id) expects a non-empty string id",
                    },
                ),
            ],
        )
        .with_methods(
            vec![
                MethodDescriptor::new(
                    "value",
                    vec![ArgumentDescriptor::new("value", ArgumentSchema::String)],
                    MethodRule::Text {
                        error: "Editor.value expects text",
                        arity: "Editor.value expects text",
                    },
                ).with_documentation("Sets the initial source text (first render only)."),
                MethodDescriptor::new(
                    "language",
                    vec![
                        ArgumentDescriptor::new(
                            "language",
                            ArgumentSchema::Enum(ChoiceList::EditorLanguage),
                        ),
                    ],
                    MethodRule::EnumText {
                        error: "Editor.language expects rust, json, or plaintext",
                    },
                ).with_documentation("Sets the syntax language (first render only)."),
                MethodDescriptor::new(
                    "appearance",
                    vec![ArgumentDescriptor::new("appearance", ArgumentSchema::Boolean)],
                    MethodRule::Flag {
                        error: "Editor.appearance(appearance) expects a boolean",
                        arity: "Editor.appearance(appearance) expects a boolean",
                    },
                ).with_documentation("Sets native Editor behavior."),
                MethodDescriptor::new(
                    "bordered",
                    vec![ArgumentDescriptor::new("bordered", ArgumentSchema::Boolean)],
                    MethodRule::Flag {
                        error: "Editor.bordered(bordered) expects a boolean",
                        arity: "Editor.bordered(bordered) expects a boolean",
                    },
                ).with_documentation("Sets native Editor behavior."),
                MethodDescriptor::new(
                    "readonly",
                    vec![ArgumentDescriptor::new("readonly", ArgumentSchema::Boolean)],
                    MethodRule::Flag {
                        error: "Editor.readonly(readonly) expects a boolean",
                        arity: "Editor.readonly(readonly) expects a boolean",
                    },
                ).with_documentation("Sets native Editor behavior."),
                MethodDescriptor::new(
                    "aria_label",
                    vec![ArgumentDescriptor::new("label", ArgumentSchema::String)],
                    MethodRule::NonBlankText { error: "Editor.aria_label expects non-empty text" },
                ).with_documentation("Sets the editor accessibility label."),
                MethodDescriptor::new(
                    "on_focus",
                    vec![ArgumentDescriptor::new("callback", ArgumentSchema::Callback)],
                    MethodRule::Callback { error: "Editor.on_focus(callback) expects a callback" },
                ).with_documentation("Runs when the editor gains focus."),
                MethodDescriptor::new(
                    "on_blur",
                    vec![ArgumentDescriptor::new("callback", ArgumentSchema::Callback)],
                    MethodRule::Callback { error: "Editor.on_blur(callback) expects a callback" },
                ).with_documentation("Runs when the editor loses focus."),
            ],
        )
        .with_documentation(
            "A retained native source editor. Shell disabled and style are honored; children are rejected.",
        );
    proof {
        reveal(editor_constructors);
        assert(constructor_table(d.constructors@) =~~= editor_constructors());
        reveal(editor_methods);
        assert(method_table(d.methods@) =~~= editor_methods());
    }
    d
}

/// Registers `Editor` after the components already registered.
pub fn register(registry: &mut ComponentRegistry)
    requires
        !kinds(old(registry)@).contains(ComponentKind::Editor),
    ensures
        final(registry)@.len() == old(registry)@.len() + 1,
        final(registry)@.take(old(registry)@.len() as int) == old(registry)@,
        is_editor_descriptor(final(registry)@[old(registry)@.len() as int]),
{
    let ghost start = registry@;
    let editor = editor_descriptor();
    let editor_registered = registry.register(editor);
    proof {
        assert(editor_registered is Ok);
    }
    proof {
        assert(registry@.take(start.len() as int) =~= start);
    }
}

} // verus!
