//! Call arguments, recorded payloads, and the rules that turn one into the
//! other.
//!
//! Each constructor and method of the catalog names one rule. The spec
//! functions `constructor_outcome` and `method_outcome` say, for every list of
//! arguments, which payload a rule records or which error message it refuses
//! the call with; `construct` and `apply_method` compute exactly that. The few
//! rules whose text an outside parser judges (colors, keystrokes, dash
//! patterns) take that parser's verdict as one more input.

use vstd::prelude::*;
use crate::text::{
    is_blank, parse_u64, parse_u64_spec, split_on, split_text, str_equal, str_is_blank,
    strings_view,
};
use crate::number::{
    exact_u64, f64_at_least_half, f64_at_least_zero, f64_in_f32_range,
    f64_integer_at_least_one, f64_is_finite, f64_is_integral, f64_is_nan, f64_nonzero,
    f64_positive, f64_saturating_u64, f64_within_2_64, is_at_least_half, is_at_least_zero,
    is_f32_range, is_finite, is_integral, is_nan, is_negative, is_nonzero, is_positive,
    is_within_2_64, saturating_u64, truncated,
};

use crate::components::common::{
    count_message, nonempty_id, nonempty_id_message, nonnegative_usize, positive_count,
    positive_usize,
};
use crate::components::button::{empty_id_message, validate_id};

verus! {

/// A value passed to a constructor or method. Numbers travel as the bits of
/// an IEEE-754 binary64 value; callbacks and elements as host tokens.
#[derive(Debug, PartialEq, Eq)]
pub enum ComponentArgument {
    String(String),
    Number(u64),
    Boolean(bool),
    Enum(String),
    Callback(u64),
    Element(u64),
}

/// The mathematical content of a [`ComponentArgument`].
pub enum ArgumentValue {
    String(Seq<char>),
    Number(u64),
    Boolean(bool),
    Enum(Seq<char>),
    Callback(u64),
    Element(u64),
}

impl View for ComponentArgument {
    type V = ArgumentValue;

    open spec fn view(&self) -> ArgumentValue {
        match self {
            ComponentArgument::String(s) => ArgumentValue::String(s@),
            ComponentArgument::Number(n) => ArgumentValue::Number(*n),
            ComponentArgument::Boolean(b) => ArgumentValue::Boolean(*b),
            ComponentArgument::Enum(s) => ArgumentValue::Enum(s@),
            ComponentArgument::Callback(t) => ArgumentValue::Callback(*t),
            ComponentArgument::Element(t) => ArgumentValue::Element(*t),
        }
    }
}

pub open spec fn arguments_view(arguments: Seq<ComponentArgument>) -> Seq<ArgumentValue> {
    arguments.map_values(|a: ComponentArgument| a@)
}

/// The text of a string or enum argument.
pub open spec fn text_of(a: ArgumentValue) -> Option<Seq<char>> {
    match a {
        ArgumentValue::String(s) => Some(s),
        ArgumentValue::Enum(s) => Some(s),
        _ => None,
    }
}

/// The bits of a number argument.
pub open spec fn number_of(a: ArgumentValue) -> Option<u64> {
    match a {
        ArgumentValue::Number(n) => Some(n),
        _ => None,
    }
}

/// Whether an argument counts as "on": a true boolean, a number other than
/// zero or NaN, non-empty text, or any callback or element.
pub open spec fn truthy(a: ArgumentValue) -> bool {
    match a {
        ArgumentValue::Boolean(b) => b,
        ArgumentValue::Number(n) => is_nonzero(n) && !is_nan(n),
        ArgumentValue::String(s) => s.len() > 0,
        ArgumentValue::Enum(s) => s.len() > 0,
        ArgumentValue::Callback(_) => true,
        ArgumentValue::Element(_) => true,
    }
}

impl ComponentArgument {
    /// The text of a string or enum argument.
    pub fn as_str(&self) -> (s: Option<&str>)
        ensures
            match s {
                Some(t) => text_of(self@) == Some(t@),
                None => text_of(self@) is None,
            },
    {
        match self {
            ComponentArgument::String(s) => Some(s.as_str()),
            ComponentArgument::Enum(s) => Some(s.as_str()),
            _ => None,
        }
    }

    /// The bits of a number argument.
    pub fn as_f64(&self) -> (n: Option<u64>)
        ensures
            n == number_of(self@),
    {
        match self {
            ComponentArgument::Number(n) => Some(*n),
            _ => None,
        }
    }

    pub fn is_truthy(&self) -> (b: bool)
        ensures
            b == truthy(self@),
    {
        match self {
            ComponentArgument::Boolean(b) => *b,
            ComponentArgument::Number(n) => f64_nonzero(*n) && !f64_is_nan(*n),
            ComponentArgument::String(s) => s.as_str().unicode_len() > 0,
            ComponentArgument::Enum(s) => s.as_str().unicode_len() > 0,
            ComponentArgument::Callback(_) => true,
            ComponentArgument::Element(_) => true,
        }
    }
}

/// The four separator presentations, chosen by constructor.
#[derive(PartialEq, Eq, Clone, Copy, Debug, Structural)]
pub enum SeparatorKind {
    Horizontal,
    Vertical,
    HorizontalDashed,
    VerticalDashed,
}

/// The two form layouts, chosen by constructor.
#[derive(PartialEq, Eq, Clone, Copy, Debug, Structural)]
pub enum FormLayout {
    Vertical,
    Horizontal,
}

/// The five alert presentations, chosen by constructor.
#[derive(PartialEq, Eq, Clone, Copy, Debug, Structural)]
pub enum AlertVariant {
    Default,
    Info,
    Success,
    Warning,
    Error,
}

/// What a constructor or method call records for the component to read when
/// it is materialized.
#[derive(Debug, PartialEq, Eq)]
pub enum ComponentPayload {
    Unit,
    Text(String),
    Pair(String, String),
    Flag(bool),
    Count(u64),
    /// The bits of a binary64 value.
    Number(u64),
    /// The index of a literal in the method's list of accepted literals.
    Choice(u64),
    Callback(u64),
    Element(u64),
    /// A labelled menu item and its callback token.
    Item(String, u64),
    Lines(Vec<String>),
    Tokens(Vec<u64>),
    Separator(SeparatorKind),
    Form(FormLayout),
    /// Alert id, message and presentation.
    Alert(String, String, AlertVariant),
    /// A row-snapshot source: id and rows callback token.
    Rows(String, u64),
    /// A select: id, rows callback token and selection callback token.
    Selection(String, u64, u64),
    /// A data table: id and row count.
    Table(String, u64),
    /// An id and whether the content stacks vertically.
    Oriented(String, bool),
}

/// The mathematical content of a [`ComponentPayload`].
pub enum Payload {
    Unit,
    Text(Seq<char>),
    Pair(Seq<char>, Seq<char>),
    Flag(bool),
    Count(u64),
    Number(u64),
    Choice(u64),
    Callback(u64),
    Element(u64),
    Item(Seq<char>, u64),
    Lines(Seq<Seq<char>>),
    Tokens(Seq<u64>),
    Separator(SeparatorKind),
    Form(FormLayout),
    Alert(Seq<char>, Seq<char>, AlertVariant),
    Rows(Seq<char>, u64),
    Selection(Seq<char>, u64, u64),
    Table(Seq<char>, u64),
    Oriented(Seq<char>, bool),
}

impl View for ComponentPayload {
    type V = Payload;

    open spec fn view(&self) -> Payload {
        match self {
            ComponentPayload::Unit => Payload::Unit,
            ComponentPayload::Text(s) => Payload::Text(s@),
            ComponentPayload::Pair(a, b) => Payload::Pair(a@, b@),
            ComponentPayload::Flag(b) => Payload::Flag(*b),
            ComponentPayload::Count(n) => Payload::Count(*n),
            ComponentPayload::Number(n) => Payload::Number(*n),
            ComponentPayload::Choice(i) => Payload::Choice(*i),
            ComponentPayload::Callback(t) => Payload::Callback(*t),
            ComponentPayload::Element(t) => Payload::Element(*t),
            ComponentPayload::Item(l, t) => Payload::Item(l@, *t),
            ComponentPayload::Lines(v) => Payload::Lines(strings_view(v@)),
            ComponentPayload::Tokens(v) => Payload::Tokens(v@),
            ComponentPayload::Separator(k) => Payload::Separator(*k),
            ComponentPayload::Form(l) => Payload::Form(*l),
            ComponentPayload::Alert(i, m, v) => Payload::Alert(i@, m@, *v),
            ComponentPayload::Rows(i, t) => Payload::Rows(i@, *t),
            ComponentPayload::Selection(i, r, s) => Payload::Selection(i@, *r, *s),
            ComponentPayload::Table(i, n) => Payload::Table(i@, *n),
            ComponentPayload::Oriented(i, v) => Payload::Oriented(i@, *v),
        }
    }
}

pub open spec fn outcome_view(r: Result<ComponentPayload, String>) -> Result<Payload, Seq<char>> {
    match r {
        Ok(p) => Ok(p@),
        Err(e) => Err(e@),
    }
}

/// A fixed list of literals an enum argument may take.
#[derive(PartialEq, Eq, Clone, Copy, Debug, Structural)]
pub enum ChoiceList {
    /// xsmall, small, medium, large
    Size,
    /// vertical, horizontal, both
    ScrollAxis,
    /// scrolling, hover, always
    ScrollbarMode,
    /// the eight popover anchors
    PopoverAnchor,
    /// primary, secondary, danger, success, warning, info
    TagVariant,
    /// primary, secondary, danger, ghost
    ButtonVariant,
    /// top_right, bottom_right, bottom_left, top_left
    MenuAnchor,
    /// tab, outline, pill, segmented, underline
    TabVariant,
    /// start, center, end
    FieldAlign,
    /// every cursor name a hit region accepts
    Cursor,
    /// the cursor names a hit region advertises
    CursorSchema,
    /// linear, ease, ease_in, ease_out, ease_in_out
    Easing,
    /// rust, json, plaintext
    EditorLanguage,
    /// pending, uploading, processing, failed, complete
    AttachmentStatus,
    /// horizontal, vertical
    Axis,
    /// start, end
    Alignment,
    /// the seven bubble presentations
    BubbleVariant,
    /// plain, separator, border
    MarkerVariant,
    /// spinner, shimmer
    LoadingStyle,
    /// home, components, settings, archive, account
    SidebarIcon,
    /// left, right
    Side,
    /// icon, offcanvas, none
    SidebarCollapsible,
    /// cover, contain, fill, none, scale_down
    ImageFit,
}

pub open spec fn choice_literals(list: ChoiceList) -> Seq<Seq<char>> {
    match list {
        ChoiceList::Size => seq!["xsmall"@, "small"@, "medium"@, "large"@],
        ChoiceList::ScrollAxis => seq!["vertical"@, "horizontal"@, "both"@],
        ChoiceList::ScrollbarMode => seq!["scrolling"@, "hover"@, "always"@],
        ChoiceList::PopoverAnchor => seq![
            "top_left"@,
            "top_center"@,
            "top_right"@,
            "bottom_left"@,
            "bottom_center"@,
            "bottom_right"@,
            "left_center"@,
            "right_center"@,
        ],
        ChoiceList::TagVariant => seq![
            "primary"@,
            "secondary"@,
            "danger"@,
            "success"@,
            "warning"@,
            "info"@,
        ],
        ChoiceList::ButtonVariant => seq!["primary"@, "secondary"@, "danger"@, "ghost"@],
        ChoiceList::MenuAnchor => seq!["top_right"@, "bottom_right"@, "bottom_left"@, "top_left"@],
        ChoiceList::TabVariant => seq!["tab"@, "outline"@, "pill"@, "segmented"@, "underline"@],
        ChoiceList::FieldAlign => seq!["start"@, "center"@, "end"@],
        ChoiceList::Cursor => seq![
            "arrow"@,
            "default"@,
            "pointer"@,
            "text"@,
            "crosshair"@,
            "grab"@,
            "grabbing"@,
            "ew-resize"@,
            "ns-resize"@,
            "n-resize"@,
            "s-resize"@,
            "w-resize"@,
            "e-resize"@,
        ],
        ChoiceList::CursorSchema => seq![
            "default"@,
            "pointer"@,
            "text"@,
            "crosshair"@,
            "grab"@,
            "grabbing"@,
            "ew-resize"@,
            "ns-resize"@,
        ],
        ChoiceList::Easing => seq!["linear"@, "ease"@, "ease_in"@, "ease_out"@, "ease_in_out"@],
        ChoiceList::EditorLanguage => seq!["rust"@, "json"@, "plaintext"@],
        ChoiceList::AttachmentStatus => seq![
            "pending"@,
            "uploading"@,
            "processing"@,
            "failed"@,
            "complete"@,
        ],
        ChoiceList::Axis => seq!["horizontal"@, "vertical"@],
        ChoiceList::Alignment => seq!["start"@, "end"@],
        ChoiceList::BubbleVariant => seq![
            "filled"@,
            "secondary"@,
            "muted"@,
            "tinted"@,
            "outline"@,
            "ghost"@,
            "destructive"@,
        ],
        ChoiceList::MarkerVariant => seq!["plain"@, "separator"@, "border"@],
        ChoiceList::LoadingStyle => seq!["spinner"@, "shimmer"@],
        ChoiceList::SidebarIcon => seq![
            "home"@,
            "components"@,
            "settings"@,
            "archive"@,
            "account"@,
        ],
        ChoiceList::Side => seq!["left"@, "right"@],
        ChoiceList::SidebarCollapsible => seq!["icon"@, "offcanvas"@, "none"@],
        ChoiceList::ImageFit => seq!["cover"@, "contain"@, "fill"@, "none"@, "scale_down"@],
    }
}

/// The literals of `list`, in order.
pub fn literals(list: ChoiceList) -> (v: Vec<&'static str>)
    ensures
        v@.map_values(|s: &'static str| s@) == choice_literals(list),
{
    let v = match list {
        ChoiceList::Size => vec!["xsmall", "small", "medium", "large"],
        ChoiceList::ScrollAxis => vec!["vertical", "horizontal", "both"],
        ChoiceList::ScrollbarMode => vec!["scrolling", "hover", "always"],
        ChoiceList::PopoverAnchor => vec![
            "top_left",
            "top_center",
            "top_right",
            "bottom_left",
            "bottom_center",
            "bottom_right",
            "left_center",
            "right_center",
        ],
        ChoiceList::TagVariant => vec![
            "primary",
            "secondary",
            "danger",
            "success",
            "warning",
            "info",
        ],
        ChoiceList::ButtonVariant => vec!["primary", "secondary", "danger", "ghost"],
        ChoiceList::MenuAnchor => vec!["top_right", "bottom_right", "bottom_left", "top_left"],
        ChoiceList::TabVariant => vec!["tab", "outline", "pill", "segmented", "underline"],
        ChoiceList::FieldAlign => vec!["start", "center", "end"],
        ChoiceList::Cursor => vec![
            "arrow",
            "default",
            "pointer",
            "text",
            "crosshair",
            "grab",
            "grabbing",
            "ew-resize",
            "ns-resize",
            "n-resize",
            "s-resize",
            "w-resize",
            "e-resize",
        ],
        ChoiceList::CursorSchema => vec![
            "default",
            "pointer",
            "text",
            "crosshair",
            "grab",
            "grabbing",
            "ew-resize",
            "ns-resize",
        ],
        ChoiceList::Easing => vec!["linear", "ease", "ease_in", "ease_out", "ease_in_out"],
        ChoiceList::EditorLanguage => vec!["rust", "json", "plaintext"],
        ChoiceList::AttachmentStatus => vec![
            "pending",
            "uploading",
            "processing",
            "failed",
            "complete",
        ],
        ChoiceList::Axis => vec!["horizontal", "vertical"],
        ChoiceList::Alignment => vec!["start", "end"],
        ChoiceList::BubbleVariant => vec![
            "filled",
            "secondary",
            "muted",
            "tinted",
            "outline",
            "ghost",
            "destructive",
        ],
        ChoiceList::MarkerVariant => vec!["plain", "separator", "border"],
        ChoiceList::LoadingStyle => vec!["spinner", "shimmer"],
        ChoiceList::SidebarIcon => vec!["home", "components", "settings", "archive", "account"],
        ChoiceList::Side => vec!["left", "right"],
        ChoiceList::SidebarCollapsible => vec!["icon", "offcanvas", "none"],
        ChoiceList::ImageFit => vec!["cover", "contain", "fill", "none", "scale_down"],
    };
    proof {
        assert(v@.map_values(|s: &'static str| s@) =~= choice_literals(list));
    }
    v
}

/// The position of the first literal of `names` equal to `v`.
pub open spec fn literal_index(names: Seq<Seq<char>>, v: Seq<char>) -> Option<int>
    decreases names.len(),
{
    if names.len() == 0 {
        None
    } else if names[0] == v {
        Some(0)
    } else {
        match literal_index(names.drop_first(), v) {
            Some(i) => Some(i + 1),
            None => None,
        }
    }
}

proof fn lemma_literal_index(names: Seq<Seq<char>>, v: Seq<char>, i: int)
    requires
        0 <= i <= names.len(),
        forall|j: int| 0 <= j < i ==> names[j] != v,
    ensures
        i < names.len() && names[i] == v ==> literal_index(names, v) == Some(i),
        i == names.len() ==> literal_index(names, v) is None,
    decreases i,
{
    if i > 0 {
        lemma_literal_index(names.drop_first(), v, i - 1);
    }
}

/// The index of `v` among the literals of `list`.
pub fn choose_literal(list: ChoiceList, v: &str) -> (r: Option<u64>)
    ensures
        match literal_index(choice_literals(list), v@) {
            Some(i) => r == Some(i as u64),
            None => r is None,
        },
{
    let names = literals(list);
    let ghost spec_names = choice_literals(list);
    let n = names.len();
    let mut i: usize = 0;
    while i < n
        invariant
            n == names@.len(),
            spec_names == names@.map_values(|s: &'static str| s@),
            spec_names == choice_literals(list),
            i <= n,
            forall|j: int| 0 <= j < i ==> spec_names[j] != v@,
        decreases n - i,
    {
        if str_equal(names[i], v) {
            proof {
                assert(spec_names[i as int] == names@[i as int]@);
                lemma_literal_index(spec_names, v@, i as int);
            }
            return Some(i as u64);
        }
        proof {
            assert(spec_names[i as int] == names@[i as int]@);
        }
        i = i + 1;
    }
    proof {
        lemma_literal_index(spec_names, v@, n as int);
    }
    None
}

/// The outside parser that judges the text of a rule that parses its text.
#[derive(Clone, Copy, Debug, PartialEq, Eq, Structural)]
pub enum TextParser {
    /// A color: a named token or a hex, RGB or HSL color.
    Color,
    /// A keystroke such as `cmd-k`.
    Keystroke,
    /// A dash pattern: two pixel lengths, `on off`.
    DashPattern,
}

/// How a constructor turns its arguments into the component payload.
#[derive(Clone, Copy, Debug)]
pub enum ConstructorRule {
    /// Any arguments: no payload data.
    Unit,
    /// One string: the text.
    Text { error: &'static str },
    /// One string whose text an outside parser must accept: a text it
    /// refuses is refused with `invalid` followed by the parser's message,
    /// anything but one string with `error`.
    ParsedText { parser: TextParser, invalid: &'static str, error: &'static str },
    /// One non-empty string; an empty one is refused as `validate_id` does
    /// for `export`.
    NonEmpty { export: &'static str, error: &'static str },
    /// One string that is not blank; a blank one is refused as `nonempty_id`
    /// does for `component`.
    NonBlank { component: &'static str, error: &'static str },
    /// One string that is not blank; anything else is refused with `error`.
    NonBlankOnly { error: &'static str },
    /// One string that is not empty; anything else is refused with `error`.
    NonEmptyOnly { error: &'static str },
    /// One string that is not blank, laid out vertically or not.
    Oriented { vertical: bool, error: &'static str },
    Separator(SeparatorKind),
    Form(FormLayout),
    /// Two strings, an id that is not blank and a label that must not be
    /// blank either when `label_required`.
    Pair { label_required: bool, blank: &'static str, error: &'static str },
    /// An id that is not blank and a message.
    Alert { variant: AlertVariant, blank: &'static str, error: &'static str },
    /// Newline-separated labels.
    Labels { error: &'static str },
    /// An id that is not blank and a rows token written in decimal.
    Rows { error: &'static str, token: &'static str },
    /// An id that is not blank, a rows token and a selection token.
    Selection { error: &'static str, rows: &'static str, select: &'static str },
    /// An id that is not blank and a row count written in decimal.
    Table { error: &'static str, count: &'static str },
    /// Every argument's text (empty for arguments that have none).
    PaintArgs,
}

/// How a method turns its arguments into a recorded payload.
#[derive(Clone, Copy, Debug)]
pub enum MethodRule {
    /// Any arguments: no payload data.
    Unit,
    /// One string. A single argument of another type is refused with
    /// `error`, any other count with `arity`.
    Text { error: &'static str, arity: &'static str },
    /// One boolean, refused as for `Text`.
    Flag { error: &'static str, arity: &'static str },
    /// One callback token.
    Callback { error: &'static str },
    /// One element token.
    Element { error: &'static str },
    /// One enum literal (or, with `any_text`, string) from `list`; a literal
    /// outside the list is refused with `unsupported`, followed by the
    /// literal and a backquote when `echo`.
    Choice {
        list: ChoiceList,
        any_text: bool,
        unsupported: &'static str,
        echo: bool,
        error: &'static str,
        arity: &'static str,
    },
    /// Whether the first argument is truthy; true without arguments.
    Truthy,
    /// The control size numbered by the first argument (2 without one):
    /// 0 xsmall, 1 small, 3 large, anything else medium.
    NumberedSize,
    /// The first argument's number, or zero.
    NumberOrZero,
    /// The pieces of the first argument's text between occurrences of `sep`.
    Split { sep: char, error: &'static str },
    /// The comma-separated decimal tokens of the first argument's text;
    /// pieces that are not `u64` numbers are skipped.
    Tokens { error: &'static str },
    /// The first argument's number (or zero) as an index: negative and NaN
    /// give 0, fractions are dropped, large values saturate.
    SelectedIndex,
    /// One callback token, or one number converted to a token as `as u64` does.
    CallbackOrNumber { error: &'static str },
    /// One number that is an exact integer in `[1 if positive else 0, max]`.
    /// A number that is no such integer is refused as `positive_usize` (or
    /// `nonnegative_usize`) refuses it for `label`, one above `max` with
    /// `too_large`.
    Natural {
        positive: bool,
        max: u64,
        label: &'static str,
        too_large: &'static str,
        not_number: &'static str,
        arity: &'static str,
    },
    /// One number, whatever it is.
    Scalar { error: &'static str },
    /// One finite number.
    Finite { error: &'static str },
    /// One number within the `f32` range.
    F32Range { error: &'static str },
    /// One finite number `>= 0` within the `f32` range.
    NonNegativeF32 { invalid: &'static str, not_number: &'static str },
    /// Whether the first argument's number (or zero) is at least one half.
    Threshold,
    /// A label and a callback; with `require_label` a blank label is refused
    /// with `blank`.
    Item { require_label: bool, blank: &'static str, error: &'static str },
    /// The non-blank lines of one string.
    Columns { error: &'static str },
    /// The first argument's string.
    FirstText { error: &'static str },
    /// The first argument's boolean.
    FirstFlag { error: &'static str },
    /// The first argument's number when it is an integer `>= 1`, as `as u64`
    /// converts it.
    FirstCount { error: &'static str },
    /// The first argument's number when it is `> 0` and within the `f32` range.
    FirstPositiveF32 { error: &'static str },
    /// One integer `>= 0`, as `as u64` converts it.
    Index { error: &'static str },
    /// One integer `>= 0` no greater than `2^64`, as `as u64` converts it.
    BoundedIndex { error: &'static str },
    /// One integer `>= 1`, as `as u64` converts it.
    Count { error: &'static str },
    /// One finite number `>= 0` no greater than `2^64`, as `as u64` converts
    /// it (dropping any fraction).
    Millis { error: &'static str },
    /// One finite number `> 0`.
    PositiveFinite { error: &'static str },
    /// One number `> 0` within the `f32` range; a number outside it is refused
    /// with `invalid`, anything else with `not_number`.
    PositiveF32 { invalid: &'static str, not_number: &'static str },
    /// One callback token, accepted and not recorded.
    AcceptCallback { error: &'static str },
    /// One boolean, or one number read as `!= 0`.
    FlagOrNumber { error: &'static str },
    /// The text of one string or enum argument.
    AnyText { error: &'static str, arity: &'static str },
    /// One string (or, with `any_text`, enum literal) whose text an outside
    /// parser must accept. A text it refuses is refused with `invalid`,
    /// followed by the parser's message when `echo`; an argument without such
    /// text with `error`, any other count with `arity`.
    ParsedText {
        parser: TextParser,
        any_text: bool,
        invalid: &'static str,
        echo: bool,
        error: &'static str,
        arity: &'static str,
    },
    /// The first argument's enum literal, whatever it is.
    FirstEnum { error: &'static str },
    /// One enum literal, whatever it is.
    EnumText { error: &'static str },
    /// One string that is not blank.
    NonBlankText { error: &'static str },
}

/// `prefix`, then `v`, then a backquote.
pub open spec fn echoed(prefix: Seq<char>, v: Seq<char>) -> Seq<char> {
    prefix + v + "`"@
}

/// The payloads of `pieces` that are decimal `u64` numbers, in order.
pub open spec fn parsed_tokens(pieces: Seq<Seq<char>>) -> Seq<u64>
    decreases pieces.len(),
{
    if pieces.len() == 0 {
        Seq::empty()
    } else {
        let rest = parsed_tokens(pieces.drop_last());
        match parse_u64_spec(pieces.last()) {
            Some(t) => rest.push(t),
            None => rest,
        }
    }
}

/// The pieces that are not blank, in order.
pub open spec fn nonblank_pieces(pieces: Seq<Seq<char>>) -> Seq<Seq<char>>
    decreases pieces.len(),
{
    if pieces.len() == 0 {
        Seq::empty()
    } else {
        let rest = nonblank_pieces(pieces.drop_last());
        if is_blank(pieces.last()) {
            rest
        } else {
            rest.push(pieces.last())
        }
    }
}

/// The text of each argument, empty for arguments without text.
pub open spec fn argument_texts(args: Seq<ArgumentValue>) -> Seq<Seq<char>> {
    args.map_values(
        |a: ArgumentValue|
            match text_of(a) {
                Some(s) => s,
                None => Seq::<char>::empty(),
            },
    )
}

/// The size index numbered by `n`: 0 xsmall, 1 small, 3 large, else medium.
pub open spec fn numbered_size(n: u64) -> u64 {
    if n == 0 {
        0
    } else if n == 1 {
        1
    } else if n == 3 {
        3
    } else {
        2
    }
}

/// The size a number names is the literal of that name in the size list:
/// 0 `xsmall`, 1 `small`, 3 `large`, and `medium` for every other number.
pub proof fn lemma_numbered_size_names_its_literal(n: u64)
    ensures
        numbered_size(n) < choice_literals(ChoiceList::Size).len(),
        choice_literals(ChoiceList::Size)[numbered_size(n) as int] == (if n == 0 {
            "xsmall"@
        } else if n == 1 {
            "small"@
        } else if n == 3 {
            "large"@
        } else {
            "medium"@
        }),
{
    reveal_strlit("xsmall");
    reveal_strlit("small");
    reveal_strlit("medium");
    reveal_strlit("large");
    assert("xsmall"@.len() == 6 && "small"@.len() == 5 && "medium"@.len() == 6 && "large"@.len()
        == 5);
    assert("xsmall"@[0] == 'x' && "medium"@[0] == 'm' && "small"@[0] == 's' && "large"@[0]
        == 'l');
}

/// The bits of `2.0`.
pub open spec fn two_bits() -> u64 {
    0x4000_0000_0000_0000
}

pub open spec fn first_number_or(args: Seq<ArgumentValue>, default: u64) -> u64 {
    if args.len() > 0 && number_of(args[0]) is Some {
        number_of(args[0])->0
    } else {
        default
    }
}

/// What an outside parser said of a text: accepted, or refused with its
/// message.
pub open spec fn verdict_view(verdict: Result<(), String>) -> Result<(), Seq<char>> {
    match verdict {
        Ok(_) => Ok(()),
        Err(m) => Err(m@),
    }
}

/// The text that an outside parser must judge before a constructor call under
/// `rule` is recorded: that of its one string argument, under a rule that
/// parses.
pub open spec fn constructor_text_to_parse(rule: ConstructorRule, args: Seq<ArgumentValue>) -> Option<
    Seq<char>,
> {
    match rule {
        ConstructorRule::ParsedText { .. } => if args.len() == 1 && args[0] is String {
            Some(args[0]->String_0)
        } else {
            None
        },
        _ => None,
    }
}

/// How a constructor call is recorded under `rule`, given what the outside
/// parser said of its text (a rule that parses nothing ignores `verdict`).
pub open spec fn constructor_outcome(
    rule: ConstructorRule,
    args: Seq<ArgumentValue>,
    verdict: Result<(), Seq<char>>,
) -> Result<Payload, Seq<char>> {
    match rule {
        ConstructorRule::Unit => Ok(Payload::Unit),
        ConstructorRule::Text { error } => if args.len() == 1 && args[0] is String {
            Ok(Payload::Text(args[0]->String_0))
        } else {
            Err(error@)
        },
        ConstructorRule::ParsedText { invalid, error, .. } => if args.len() == 1 && args[0] is String {
            match verdict {
                Ok(_) => Ok(Payload::Text(args[0]->String_0)),
                Err(m) => Err(invalid@ + m),
            }
        } else {
            Err(error@)
        },
        ConstructorRule::NonEmpty { export, error } => if args.len() == 1 && args[0] is String {
            if args[0]->String_0.len() == 0 {
                Err(empty_id_message(export@))
            } else {
                Ok(Payload::Text(args[0]->String_0))
            }
        } else {
            Err(error@)
        },
        ConstructorRule::NonBlank { component, error } => if args.len() == 1 && args[0] is String {
            if is_blank(args[0]->String_0) {
                Err(nonempty_id_message(component@))
            } else {
                Ok(Payload::Text(args[0]->String_0))
            }
        } else {
            Err(error@)
        },
        ConstructorRule::NonBlankOnly { error } => if args.len() == 1 && args[0] is String
            && !is_blank(args[0]->String_0) {
            Ok(Payload::Text(args[0]->String_0))
        } else {
            Err(error@)
        },
        ConstructorRule::NonEmptyOnly { error } => if args.len() == 1 && args[0] is String
            && args[0]->String_0.len() > 0 {
            Ok(Payload::Text(args[0]->String_0))
        } else {
            Err(error@)
        },
        ConstructorRule::Oriented { vertical, error } => if args.len() == 1 && args[0] is String
            && !is_blank(args[0]->String_0) {
            Ok(Payload::Oriented(args[0]->String_0, vertical))
        } else {
            Err(error@)
        },
        ConstructorRule::Separator(kind) => Ok(Payload::Separator(kind)),
        ConstructorRule::Form(layout) => Ok(Payload::Form(layout)),
        ConstructorRule::Pair { label_required, blank, error } => if args.len() == 2
            && args[0] is String && args[1] is String {
            if is_blank(args[0]->String_0) || (label_required && is_blank(args[1]->String_0)) {
                Err(blank@)
            } else {
                Ok(Payload::Pair(args[0]->String_0, args[1]->String_0))
            }
        } else {
            Err(error@)
        },
        ConstructorRule::Alert { variant, blank, error } => if args.len() == 2 && args[0] is String
            && args[1] is String {
            if is_blank(args[0]->String_0) {
                Err(blank@)
            } else {
                Ok(Payload::Alert(args[0]->String_0, args[1]->String_0, variant))
            }
        } else {
            Err(error@)
        },
        ConstructorRule::Labels { error } => if args.len() == 1 && args[0] is String {
            Ok(Payload::Lines(split_on(args[0]->String_0, '\n')))
        } else {
            Err(error@)
        },
        ConstructorRule::Rows { error, token } => if args.len() == 2 && args[0] is String
            && args[1] is String && !is_blank(args[0]->String_0) {
            match parse_u64_spec(args[1]->String_0) {
                Some(t) => Ok(Payload::Rows(args[0]->String_0, t)),
                None => Err(token@),
            }
        } else {
            Err(error@)
        },
        ConstructorRule::Selection { error, rows, select } => if args.len() == 3
            && args[0] is String && args[1] is String && args[2] is String && !is_blank(
            args[0]->String_0,
        ) {
            match parse_u64_spec(args[1]->String_0) {
                Some(r) => match parse_u64_spec(args[2]->String_0) {
                    Some(s) => Ok(Payload::Selection(args[0]->String_0, r, s)),
                    None => Err(select@),
                },
                None => Err(rows@),
            }
        } else {
            Err(error@)
        },
        ConstructorRule::Table { error, count } => if args.len() == 2 && args[0] is String
            && args[1] is String && !is_blank(args[0]->String_0) {
            match parse_u64_spec(args[1]->String_0) {
                Some(n) => Ok(Payload::Table(args[0]->String_0, n)),
                None => Err(count@),
            }
        } else {
            Err(error@)
        },
        ConstructorRule::PaintArgs => Ok(Payload::Lines(argument_texts(args))),
    }
}

/// The outcome of a `Natural` rule on the number `n`.
pub open spec fn natural_outcome(
    positive: bool,
    max: u64,
    label: Seq<char>,
    too_large: Seq<char>,
    n: u64,
) -> Result<Payload, Seq<char>> {
    let count = if positive {
        positive_count(n)
    } else {
        exact_u64(n)
    };
    match count {
        Some(v) => if v > max {
            Err(too_large)
        } else {
            Ok(Payload::Count(v))
        },
        None => Err(count_message(positive, label)),
    }
}

/// Whether an argument carries the text that a parsing rule judges: a string,
/// or with `any_text` an enum literal too.
pub open spec fn parsed_argument(any_text: bool, a: ArgumentValue) -> bool {
    a is String || (any_text && a is Enum)
}

/// The text that an outside parser must judge before a method call under
/// `rule` is recorded: that of its one argument, under a rule that parses.
pub open spec fn method_text_to_parse(rule: MethodRule, args: Seq<ArgumentValue>) -> Option<
    Seq<char>,
> {
    match rule {
        MethodRule::ParsedText { any_text, .. } => if args.len() == 1 && parsed_argument(
            any_text,
            args[0],
        ) {
            text_of(args[0])
        } else {
            None
        },
        _ => None,
    }
}

/// How a method call is recorded under `rule`, given what the outside parser
/// said of its text (a rule that parses nothing ignores `verdict`).
pub open spec fn method_outcome(
    rule: MethodRule,
    args: Seq<ArgumentValue>,
    verdict: Result<(), Seq<char>>,
) -> Result<Payload, Seq<char>> {
    match rule {
        MethodRule::Unit => Ok(Payload::Unit),
        MethodRule::Text { error, arity } => if args.len() == 1 {
            match args[0] {
                ArgumentValue::String(s) => Ok(Payload::Text(s)),
                _ => Err(error@),
            }
        } else {
            Err(arity@)
        },
        MethodRule::Flag { error, arity } => if args.len() == 1 {
            match args[0] {
                ArgumentValue::Boolean(b) => Ok(Payload::Flag(b)),
                _ => Err(error@),
            }
        } else {
            Err(arity@)
        },
        MethodRule::Callback { error } => if args.len() == 1 && args[0] is Callback {
            Ok(Payload::Callback(args[0]->Callback_0))
        } else {
            Err(error@)
        },
        MethodRule::Element { error } => if args.len() == 1 && args[0] is Element {
            Ok(Payload::Element(args[0]->Element_0))
        } else {
            Err(error@)
        },
        MethodRule::Choice { list, any_text, unsupported, echo, error, arity } => if args.len()
            == 1 {
            if args[0] is Enum || (any_text && args[0] is String) {
                let v = text_of(args[0])->0;
                match literal_index(choice_literals(list), v) {
                    Some(i) => Ok(Payload::Choice(i as u64)),
                    None => if echo {
                        Err(echoed(unsupported@, v))
                    } else {
                        Err(unsupported@)
                    },
                }
            } else {
                Err(error@)
            }
        } else {
            Err(arity@)
        },
        MethodRule::Truthy => Ok(
            Payload::Flag(
                if args.len() > 0 {
                    truthy(args[0])
                } else {
                    true
                },
            ),
        ),
        MethodRule::NumberedSize => Ok(
            Payload::Choice(numbered_size(saturating_u64(first_number_or(args, two_bits())))),
        ),
        MethodRule::NumberOrZero => Ok(Payload::Number(first_number_or(args, 0))),
        MethodRule::Split { sep, error } => if args.len() > 0 && text_of(args[0]) is Some {
            Ok(Payload::Lines(split_on(text_of(args[0])->0, sep)))
        } else {
            Err(error@)
        },
        MethodRule::Tokens { error } => if args.len() > 0 && text_of(args[0]) is Some {
            Ok(Payload::Tokens(parsed_tokens(split_on(text_of(args[0])->0, ','))))
        } else {
            Err(error@)
        },
        MethodRule::SelectedIndex => Ok(
            Payload::Count(saturating_u64(first_number_or(args, 0))),
        ),
        MethodRule::CallbackOrNumber { error } => if args.len() == 1 {
            match args[0] {
                ArgumentValue::Callback(t) => Ok(Payload::Callback(t)),
                ArgumentValue::Number(n) => Ok(Payload::Callback(saturating_u64(n))),
                _ => Err(error@),
            }
        } else {
            Err(error@)
        },
        MethodRule::Natural { positive, max, label, too_large, not_number, arity } => if args.len()
            == 1 {
            match args[0] {
                ArgumentValue::Number(n) => natural_outcome(positive, max, label@, too_large@, n),
                _ => Err(not_number@),
            }
        } else {
            Err(arity@)
        },
        MethodRule::Scalar { error } => if args.len() == 1 && args[0] is Number {
            Ok(Payload::Number(args[0]->Number_0))
        } else {
            Err(error@)
        },
        MethodRule::Finite { error } => if args.len() == 1 && args[0] is Number && is_finite(
            args[0]->Number_0,
        ) {
            Ok(Payload::Number(args[0]->Number_0))
        } else {
            Err(error@)
        },
        MethodRule::F32Range { error } => if args.len() == 1 && args[0] is Number && is_f32_range(
            args[0]->Number_0,
        ) {
            Ok(Payload::Number(args[0]->Number_0))
        } else {
            Err(error@)
        },
        MethodRule::NonNegativeF32 { invalid, not_number } => if args.len() == 1
            && args[0] is Number {
            let n = args[0]->Number_0;
            if is_f32_range(n) && is_at_least_zero(n) {
                Ok(Payload::Number(n))
            } else {
                Err(invalid@)
            }
        } else {
            Err(not_number@)
        },
        MethodRule::Threshold => Ok(Payload::Flag(is_at_least_half(first_number_or(args, 0)))),
        MethodRule::Item { require_label, blank, error } => if args.len() == 2 && args[0] is String
            && args[1] is Callback {
            if require_label && is_blank(args[0]->String_0) {
                Err(blank@)
            } else {
                Ok(Payload::Item(args[0]->String_0, args[1]->Callback_0))
            }
        } else {
            Err(error@)
        },
        MethodRule::Columns { error } => if args.len() == 1 && args[0] is String {
            Ok(Payload::Lines(nonblank_pieces(split_on(args[0]->String_0, '\n'))))
        } else {
            Err(error@)
        },
        MethodRule::FirstText { error } => if args.len() > 0 && args[0] is String {
            Ok(Payload::Text(args[0]->String_0))
        } else {
            Err(error@)
        },
        MethodRule::FirstFlag { error } => if args.len() > 0 && args[0] is Boolean {
            Ok(Payload::Flag(args[0]->Boolean_0))
        } else {
            Err(error@)
        },
        MethodRule::FirstCount { error } => if args.len() > 0 && args[0] is Number {
            let n = args[0]->Number_0;
            if is_integral(n) && !is_negative(n) && truncated(n) >= 1 {
                Ok(Payload::Count(saturating_u64(n)))
            } else {
                Err(error@)
            }
        } else {
            Err(error@)
        },
        MethodRule::FirstPositiveF32 { error } => if args.len() > 0 && args[0] is Number {
            let n = args[0]->Number_0;
            if is_positive(n) && is_f32_range(n) {
                Ok(Payload::Number(n))
            } else {
                Err(error@)
            }
        } else {
            Err(error@)
        },
        MethodRule::Index { error } => if args.len() == 1 && args[0] is Number {
            let n = args[0]->Number_0;
            if is_integral(n) && is_at_least_zero(n) {
                Ok(Payload::Count(saturating_u64(n)))
            } else {
                Err(error@)
            }
        } else {
            Err(error@)
        },
        MethodRule::BoundedIndex { error } => if args.len() == 1 && args[0] is Number {
            let n = args[0]->Number_0;
            if is_integral(n) && is_at_least_zero(n) && is_within_2_64(n) {
                Ok(Payload::Count(saturating_u64(n)))
            } else {
                Err(error@)
            }
        } else {
            Err(error@)
        },
        MethodRule::Count { error } => if args.len() == 1 && args[0] is Number {
            let n = args[0]->Number_0;
            if is_integral(n) && !is_negative(n) && truncated(n) >= 1 {
                Ok(Payload::Count(saturating_u64(n)))
            } else {
                Err(error@)
            }
        } else {
            Err(error@)
        },
        MethodRule::Millis { error } => if args.len() == 1 && args[0] is Number {
            let n = args[0]->Number_0;
            if is_at_least_zero(n) && is_within_2_64(n) {
                Ok(Payload::Count(saturating_u64(n)))
            } else {
                Err(error@)
            }
        } else {
            Err(error@)
        },
        MethodRule::PositiveFinite { error } => if args.len() == 1 && args[0] is Number {
            let n = args[0]->Number_0;
            if is_finite(n) && is_positive(n) {
                Ok(Payload::Number(n))
            } else {
                Err(error@)
            }
        } else {
            Err(error@)
        },
        MethodRule::PositiveF32 { invalid, not_number } => if args.len() == 1
            && args[0] is Number {
            let n = args[0]->Number_0;
            if is_positive(n) && is_f32_range(n) {
                Ok(Payload::Number(n))
            } else {
                Err(invalid@)
            }
        } else {
            Err(not_number@)
        },
        MethodRule::AcceptCallback { error } => if args.len() == 1 && args[0] is Callback {
            Ok(Payload::Unit)
        } else {
            Err(error@)
        },
        MethodRule::FlagOrNumber { error } => if args.len() == 1 {
            match args[0] {
                ArgumentValue::Boolean(b) => Ok(Payload::Flag(b)),
                ArgumentValue::Number(n) => Ok(Payload::Flag(is_nonzero(n))),
                _ => Err(error@),
            }
        } else {
            Err(error@)
        },
        MethodRule::AnyText { error, arity } => if args.len() == 1 {
            match text_of(args[0]) {
                Some(s) => Ok(Payload::Text(s)),
                None => Err(error@),
            }
        } else {
            Err(arity@)
        },
        MethodRule::ParsedText { any_text, invalid, echo, error, arity, .. } => if args.len() == 1 {
            if parsed_argument(any_text, args[0]) {
                match verdict {
                    Ok(_) => Ok(Payload::Text(text_of(args[0])->0)),
                    Err(m) => Err(
                        if echo {
                            invalid@ + m
                        } else {
                            invalid@
                        },
                    ),
                }
            } else {
                Err(error@)
            }
        } else {
            Err(arity@)
        },
        MethodRule::FirstEnum { error } => if args.len() > 0 && args[0] is Enum {
            Ok(Payload::Text(args[0]->Enum_0))
        } else {
            Err(error@)
        },
        MethodRule::EnumText { error } => if args.len() == 1 && args[0] is Enum {
            Ok(Payload::Text(args[0]->Enum_0))
        } else {
            Err(error@)
        },
        MethodRule::NonBlankText { error } => if args.len() == 1 && args[0] is String && !is_blank(
            args[0]->String_0,
        ) {
            Ok(Payload::Text(args[0]->String_0))
        } else {
            Err(error@)
        },
    }
}

fn message(text: &'static str) -> (s: String)
    ensures
        s@ == text@,
{
    String::from_str(text)
}

/// `s.split(',').filter(|p| !p.is_empty()).filter_map(|p| p.parse().ok())`.
pub fn parse_tokens(s: &str) -> (tokens: Vec<u64>)
    ensures
        tokens@ == parsed_tokens(split_on(s@, ',')),
{
    let pieces = split_text(s, ',');
    let ghost views = strings_view(pieces@);
    let mut tokens: Vec<u64> = Vec::new();
    let n = pieces.len();
    let mut i: usize = 0;
    proof {
        assert(views.take(0) =~= Seq::<Seq<char>>::empty());
    }
    while i < n
        invariant
            n == pieces@.len(),
            views == strings_view(pieces@),
            i <= n,
            tokens@ == parsed_tokens(views.take(i as int)),
        decreases n - i,
    {
        proof {
            assert(views.take(i as int + 1).drop_last() =~= views.take(i as int));
            assert(views[i as int] == pieces@[i as int]@);
        }
        let piece = pieces[i].as_str();
        if let Some(t) = parse_u64(piece) {
            tokens.push(t);
        }
        i = i + 1;
    }
    proof {
        assert(views.take(n as int) =~= views);
    }
    tokens
}

/// The non-blank lines of `s`.
pub fn nonblank_lines(s: &str) -> (lines: Vec<String>)
    ensures
        strings_view(lines@) == nonblank_pieces(split_on(s@, '\n')),
{
    let pieces = split_text(s, '\n');
    let ghost views = strings_view(pieces@);
    let mut lines: Vec<String> = Vec::new();
    let n = pieces.len();
    let mut i: usize = 0;
    proof {
        assert(views.take(0) =~= Seq::<Seq<char>>::empty());
        assert(strings_view(lines@) =~= Seq::<Seq<char>>::empty());
    }
    while i < n
        invariant
            n == pieces@.len(),
            views == strings_view(pieces@),
            i <= n,
            strings_view(lines@) == nonblank_pieces(views.take(i as int)),
        decreases n - i,
    {
        proof {
            assert(views.take(i as int + 1).drop_last() =~= views.take(i as int));
            assert(views[i as int] == pieces@[i as int]@);
        }
        if !str_is_blank(pieces[i].as_str()) {
            let ghost before = strings_view(lines@);
            lines.push(pieces[i].clone());
            proof {
                assert(strings_view(lines@) =~= before.push(pieces@[i as int]@));
            }
        }
        i = i + 1;
    }
    proof {
        assert(views.take(n as int) =~= views);
    }
    lines
}

/// The text of each argument, empty for arguments without text.
fn texts_of(args: &Vec<ComponentArgument>) -> (texts: Vec<String>)
    ensures
        strings_view(texts@) == argument_texts(arguments_view(args@)),
{
    let mut texts: Vec<String> = Vec::new();
    let n = args.len();
    let mut i: usize = 0;
    while i < n
        invariant
            n == args@.len(),
            i <= n,
            strings_view(texts@) == argument_texts(arguments_view(args@)).take(i as int),
        decreases n - i,
    {
        let ghost before = strings_view(texts@);
        let text = match args[i].as_str() {
            Some(s) => String::from_str(s),
            None => String::new(),
        };
        texts.push(text);
        proof {
            let t = argument_texts(arguments_view(args@));
            assert(arguments_view(args@)[i as int] == args@[i as int]@);
            assert(t[i as int] == text@);
            assert(strings_view(texts@) =~= before.push(text@));
            assert(strings_view(texts@) =~= argument_texts(arguments_view(args@)).take(
                i as int + 1,
            ));
        }
        i = i + 1;
    }
    proof {
        assert(argument_texts(arguments_view(args@)).take(n as int) =~= argument_texts(
            arguments_view(args@),
        ));
    }
    texts
}

/// Makes a constructor's payload from its arguments.
pub fn construct(
    rule: &ConstructorRule,
    args: &Vec<ComponentArgument>,
    verdict: &Result<(), String>,
) -> (r: Result<ComponentPayload, String>)
    ensures
        outcome_view(r) == constructor_outcome(*rule, arguments_view(args@), verdict_view(*verdict)),
{
    let ghost a = arguments_view(args@);
    proof {
        if args@.len() > 0 {
            assert(a[0] == args@[0]@);
        }
        if args@.len() > 1 {
            assert(a[1] == args@[1]@);
        }
        if args@.len() > 2 {
            assert(a[2] == args@[2]@);
        }
    }
    match rule {
        ConstructorRule::Unit => Ok(ComponentPayload::Unit),
        ConstructorRule::Text { error } => {
            if args.len() == 1 {
                if let ComponentArgument::String(s) = &args[0] {
                    return Ok(ComponentPayload::Text(s.clone()));
                }
            }
            Err(message(error))
        },
        ConstructorRule::ParsedText { invalid, error, .. } => {
            if args.len() == 1 {
                if let ComponentArgument::String(s) = &args[0] {
                    return match verdict {
                        Ok(_) => Ok(ComponentPayload::Text(s.clone())),
                        Err(m) => Err(String::from_str(invalid).concat(m.as_str())),
                    };
                }
            }
            Err(message(error))
        },
        ConstructorRule::NonEmpty { export, error } => {
            if args.len() == 1 {
                if let ComponentArgument::String(s) = &args[0] {
                    return match validate_id(export, s.as_str()) {
                        Ok(id) => Ok(ComponentPayload::Text(id)),
                        Err(e) => Err(e),
                    };
                }
            }
            Err(message(error))
        },
        ConstructorRule::NonBlank { component, error } => {
            if args.len() == 1 {
                if let ComponentArgument::String(s) = &args[0] {
                    return match nonempty_id(s.as_str(), component) {
                        Ok(id) => Ok(ComponentPayload::Text(id)),
                        Err(e) => Err(e),
                    };
                }
            }
            Err(message(error))
        },
        ConstructorRule::NonBlankOnly { error } => {
            if args.len() == 1 {
                if let ComponentArgument::String(s) = &args[0] {
                    if !str_is_blank(s.as_str()) {
                        return Ok(ComponentPayload::Text(s.clone()));
                    }
                }
            }
            Err(message(error))
        },
        ConstructorRule::NonEmptyOnly { error } => {
            if args.len() == 1 {
                if let ComponentArgument::String(s) = &args[0] {
                    if s.as_str().unicode_len() > 0 {
                        return Ok(ComponentPayload::Text(s.clone()));
                    }
                }
            }
            Err(message(error))
        },
        ConstructorRule::Oriented { vertical, error } => {
            if args.len() == 1 {
                if let ComponentArgument::String(s) = &args[0] {
                    if !str_is_blank(s.as_str()) {
                        return Ok(ComponentPayload::Oriented(s.clone(), *vertical));
                    }
                }
            }
            Err(message(error))
        },
        ConstructorRule::Separator(kind) => Ok(ComponentPayload::Separator(*kind)),
        ConstructorRule::Form(layout) => Ok(ComponentPayload::Form(*layout)),
        ConstructorRule::Pair { label_required, blank, error } => {
            if args.len() == 2 {
                if let (ComponentArgument::String(id), ComponentArgument::String(label)) = (
                    &args[0],
                    &args[1],
                ) {
                    if str_is_blank(id.as_str()) || (*label_required && str_is_blank(
                        label.as_str(),
                    )) {
                        return Err(message(blank));
                    }
                    return Ok(ComponentPayload::Pair(id.clone(), label.clone()));
                }
            }
            Err(message(error))
        },
        ConstructorRule::Alert { variant, blank, error } => {
            if args.len() == 2 {
                if let (ComponentArgument::String(id), ComponentArgument::String(text)) = (
                    &args[0],
                    &args[1],
                ) {
                    if str_is_blank(id.as_str()) {
                        return Err(message(blank));
                    }
                    return Ok(ComponentPayload::Alert(id.clone(), text.clone(), *variant));
                }
            }
            Err(message(error))
        },
        ConstructorRule::Labels { error } => {
            if args.len() == 1 {
                if let ComponentArgument::String(s) = &args[0] {
                    return Ok(ComponentPayload::Lines(split_text(s.as_str(), '\n')));
                }
            }
            Err(message(error))
        },
        ConstructorRule::Rows { error, token } => {
            if args.len() == 2 {
                if let (ComponentArgument::String(id), ComponentArgument::String(rows)) = (
                    &args[0],
                    &args[1],
                ) {
                    if !str_is_blank(id.as_str()) {
                        return match parse_u64(rows.as_str()) {
                            Some(t) => Ok(ComponentPayload::Rows(id.clone(), t)),
                            None => Err(message(token)),
                        };
                    }
                }
            }
            Err(message(error))
        },
        ConstructorRule::Selection { error, rows, select } => {
            if args.len() == 3 {
                if let (
                    ComponentArgument::String(id),
                    ComponentArgument::String(r),
                    ComponentArgument::String(s),
                ) = (&args[0], &args[1], &args[2]) {
                    if !str_is_blank(id.as_str()) {
                        return match parse_u64(r.as_str()) {
                            Some(rt) => match parse_u64(s.as_str()) {
                                Some(st) => Ok(ComponentPayload::Selection(id.clone(), rt, st)),
                                None => Err(message(select)),
                            },
                            None => Err(message(rows)),
                        };
                    }
                }
            }
            Err(message(error))
        },
        ConstructorRule::Table { error, count } => {
            if args.len() == 2 {
                if let (ComponentArgument::String(id), ComponentArgument::String(c)) = (
                    &args[0],
                    &args[1],
                ) {
                    if !str_is_blank(id.as_str()) {
                        return match parse_u64(c.as_str()) {
                            Some(n) => Ok(ComponentPayload::Table(id.clone(), n)),
                            None => Err(message(count)),
                        };
                    }
                }
            }
            Err(message(error))
        },
        ConstructorRule::PaintArgs => Ok(ComponentPayload::Lines(texts_of(args))),
    }
}

fn first_number_or_exec(args: &Vec<ComponentArgument>, default: u64) -> (n: u64)
    ensures
        n == first_number_or(arguments_view(args@), default),
{
    if args.len() > 0 {
        proof {
            assert(arguments_view(args@)[0] == args@[0]@);
        }
        if let Some(n) = args[0].as_f64() {
            return n;
        }
    }
    default
}

fn numbered_size_exec(n: u64) -> (s: u64)
    ensures
        s == numbered_size(n),
{
    if n == 0 {
        0
    } else if n == 1 {
        1
    } else if n == 3 {
        3
    } else {
        2
    }
}

fn natural_exec(
    positive: bool,
    max: u64,
    label: &'static str,
    too_large: &'static str,
    n: u64,
) -> (r: Result<ComponentPayload, String>)
    ensures
        outcome_view(r) == natural_outcome(positive, max, label@, too_large@, n),
{
    let count = if positive {
        positive_usize(n, label)
    } else {
        nonnegative_usize(n, label)
    };
    match count {
        Ok(v) => {
            if v > max {
                Err(message(too_large))
            } else {
                Ok(ComponentPayload::Count(v))
            }
        },
        Err(e) => Err(e),
    }
}

fn choice_exec(
    list: ChoiceList,
    v: &str,
    unsupported: &'static str,
    echo: bool,
) -> (r: Result<ComponentPayload, String>)
    ensures
        outcome_view(r) == (match literal_index(choice_literals(list), v@) {
            Some(i) => Ok(Payload::Choice(i as u64)),
            None => if echo {
                Err(echoed(unsupported@, v@))
            } else {
                Err(unsupported@)
            },
        }),
{
    match choose_literal(list, v) {
        Some(i) => Ok(ComponentPayload::Choice(i)),
        None => {
            if echo {
                let m = String::from_str(unsupported).concat(v).concat("`");
                proof {
                    assert(m@ =~= echoed(unsupported@, v@));
                }
                Err(m)
            } else {
                Err(message(unsupported))
            }
        },
    }
}

/// The text that an outside parser must judge before a constructor call
/// under `rule` is recorded, if there is one.
pub fn constructor_parse_text(rule: &ConstructorRule, args: &Vec<ComponentArgument>) -> (t: Option<
    String,
>)
    ensures
        match t {
            Some(text) => constructor_text_to_parse(*rule, arguments_view(args@)) == Some(text@),
            None => constructor_text_to_parse(*rule, arguments_view(args@)) is None,
        },
{
    proof {
        if args@.len() > 0 {
            assert(arguments_view(args@)[0] == args@[0]@);
        }
    }
    match rule {
        ConstructorRule::ParsedText { .. } => {
            if args.len() == 1 {
                if let ComponentArgument::String(s) = &args[0] {
                    return Some(s.clone());
                }
            }
            None
        },
        _ => None,
    }
}

/// The text that an outside parser must judge before a method call under
/// `rule` is recorded, if there is one.
pub fn method_parse_text(rule: &MethodRule, args: &Vec<ComponentArgument>) -> (t: Option<String>)
    ensures
        match t {
            Some(text) => method_text_to_parse(*rule, arguments_view(args@)) == Some(text@),
            None => method_text_to_parse(*rule, arguments_view(args@)) is None,
        },
{
    proof {
        if args@.len() > 0 {
            assert(arguments_view(args@)[0] == args@[0]@);
        }
    }
    match rule {
        MethodRule::ParsedText { any_text, .. } => {
            if args.len() == 1 {
                match &args[0] {
                    ComponentArgument::String(s) => {
                        return Some(s.clone());
                    },
                    ComponentArgument::Enum(s) => {
                        if *any_text {
                            return Some(s.clone());
                        }
                    },
                    _ => {},
                }
            }
            None
        },
        _ => None,
    }
}

/// The parser that judges the text of a constructor call under `rule`, for a
/// rule that parses its text.
pub open spec fn constructor_parser(rule: ConstructorRule) -> Option<TextParser> {
    match rule {
        ConstructorRule::ParsedText { parser, .. } => Some(parser),
        _ => None,
    }
}

/// The parser that judges the text of a method call under `rule`, for a rule
/// that parses its text.
pub open spec fn method_parser(rule: MethodRule) -> Option<TextParser> {
    match rule {
        MethodRule::ParsedText { parser, .. } => Some(parser),
        _ => None,
    }
}

/// The parser a constructor rule consults, if any.
pub fn constructor_rule_parser(rule: &ConstructorRule) -> (p: Option<TextParser>)
    ensures
        p == constructor_parser(*rule),
{
    match rule {
        ConstructorRule::ParsedText { parser, .. } => Some(*parser),
        _ => None,
    }
}

/// The parser a method rule consults, if any.
pub fn method_rule_parser(rule: &MethodRule) -> (p: Option<TextParser>)
    ensures
        p == method_parser(*rule),
{
    match rule {
        MethodRule::ParsedText { parser, .. } => Some(*parser),
        _ => None,
    }
}

/// Records a method call from its arguments.
pub fn apply_method(
    rule: &MethodRule,
    args: &Vec<ComponentArgument>,
    verdict: &Result<(), String>,
) -> (r: Result<ComponentPayload, String>)
    ensures
        outcome_view(r) == method_outcome(*rule, arguments_view(args@), verdict_view(*verdict)),
{
    let ghost a = arguments_view(args@);
    proof {
        if args@.len() > 0 {
            assert(a[0] == args@[0]@);
        }
        if args@.len() > 1 {
            assert(a[1] == args@[1]@);
        }
    }
    match rule {
        MethodRule::Unit => Ok(ComponentPayload::Unit),
        MethodRule::Text { error, arity } => {
            if args.len() != 1 {
                return Err(message(arity));
            }
            match &args[0] {
                ComponentArgument::String(s) => Ok(ComponentPayload::Text(s.clone())),
                _ => Err(message(error)),
            }
        },
        MethodRule::Flag { error, arity } => {
            if args.len() != 1 {
                return Err(message(arity));
            }
            match &args[0] {
                ComponentArgument::Boolean(b) => Ok(ComponentPayload::Flag(*b)),
                _ => Err(message(error)),
            }
        },
        MethodRule::Callback { error } => {
            if args.len() == 1 {
                if let ComponentArgument::Callback(t) = &args[0] {
                    return Ok(ComponentPayload::Callback(*t));
                }
            }
            Err(message(error))
        },
        MethodRule::Element { error } => {
            if args.len() == 1 {
                if let ComponentArgument::Element(t) = &args[0] {
                    return Ok(ComponentPayload::Element(*t));
                }
            }
            Err(message(error))
        },
        MethodRule::Choice { list, any_text, unsupported, echo, error, arity } => {
            if args.len() != 1 {
                return Err(message(arity));
            }
            match &args[0] {
                ComponentArgument::Enum(v) => choice_exec(*list, v.as_str(), unsupported, *echo),
                ComponentArgument::String(v) => {
                    if *any_text {
                        choice_exec(*list, v.as_str(), unsupported, *echo)
                    } else {
                        Err(message(error))
                    }
                },
                _ => Err(message(error)),
            }
        },
        MethodRule::Truthy => {
            let on = if args.len() > 0 {
                args[0].is_truthy()
            } else {
                true
            };
            Ok(ComponentPayload::Flag(on))
        },
        MethodRule::NumberedSize => {
            let n = first_number_or_exec(args, 0x4000_0000_0000_0000);
            Ok(ComponentPayload::Choice(numbered_size_exec(f64_saturating_u64(n))))
        },
        MethodRule::NumberOrZero => Ok(ComponentPayload::Number(first_number_or_exec(args, 0))),
        MethodRule::Split { sep, error } => {
            if args.len() > 0 {
                if let Some(s) = args[0].as_str() {
                    return Ok(ComponentPayload::Lines(split_text(s, *sep)));
                }
            }
            Err(message(error))
        },
        MethodRule::Tokens { error } => {
            if args.len() > 0 {
                if let Some(s) = args[0].as_str() {
                    return Ok(ComponentPayload::Tokens(parse_tokens(s)));
                }
            }
            Err(message(error))
        },
        MethodRule::SelectedIndex => Ok(
            ComponentPayload::Count(f64_saturating_u64(first_number_or_exec(args, 0))),
        ),
        MethodRule::CallbackOrNumber { error } => {
            if args.len() == 1 {
                match &args[0] {
                    ComponentArgument::Callback(t) => {
                        return Ok(ComponentPayload::Callback(*t));
                    },
                    ComponentArgument::Number(n) => {
                        return Ok(ComponentPayload::Callback(f64_saturating_u64(*n)));
                    },
                    _ => {},
                }
            }
            Err(message(error))
        },
        MethodRule::Natural { positive, max, label, too_large, not_number, arity } => {
            if args.len() != 1 {
                return Err(message(arity));
            }
            match &args[0] {
                ComponentArgument::Number(n) => natural_exec(
                    *positive,
                    *max,
                    label,
                    too_large,
                    *n,
                ),
                _ => Err(message(not_number)),
            }
        },
        MethodRule::Scalar { error } => {
            if args.len() == 1 {
                if let ComponentArgument::Number(n) = &args[0] {
                    return Ok(ComponentPayload::Number(*n));
                }
            }
            Err(message(error))
        },
        MethodRule::Finite { error } => {
            if args.len() == 1 {
                if let ComponentArgument::Number(n) = &args[0] {
                    if f64_is_finite(*n) {
                        return Ok(ComponentPayload::Number(*n));
                    }
                }
            }
            Err(message(error))
        },
        MethodRule::F32Range { error } => {
            if args.len() == 1 {
                if let ComponentArgument::Number(n) = &args[0] {
                    if f64_in_f32_range(*n) {
                        return Ok(ComponentPayload::Number(*n));
                    }
                }
            }
            Err(message(error))
        },
        MethodRule::NonNegativeF32 { invalid, not_number } => {
            if args.len() == 1 {
                if let ComponentArgument::Number(n) = &args[0] {
                    if f64_in_f32_range(*n) && f64_at_least_zero(*n) {
                        return Ok(ComponentPayload::Number(*n));
                    }
                    return Err(message(invalid));
                }
            }
            Err(message(not_number))
        },
        MethodRule::Threshold => Ok(
            ComponentPayload::Flag(f64_at_least_half(first_number_or_exec(args, 0))),
        ),
        MethodRule::Item { require_label, blank, error } => {
            if args.len() == 2 {
                if let (ComponentArgument::String(label), ComponentArgument::Callback(t)) = (
                    &args[0],
                    &args[1],
                ) {
                    if *require_label && str_is_blank(label.as_str()) {
                        return Err(message(blank));
                    }
                    return Ok(ComponentPayload::Item(label.clone(), *t));
                }
            }
            Err(message(error))
        },
        MethodRule::Columns { error } => {
            if args.len() == 1 {
                if let ComponentArgument::String(s) = &args[0] {
                    return Ok(ComponentPayload::Lines(nonblank_lines(s.as_str())));
                }
            }
            Err(message(error))
        },
        MethodRule::FirstText { error } => {
            if args.len() > 0 {
                if let ComponentArgument::String(s) = &args[0] {
                    return Ok(ComponentPayload::Text(s.clone()));
                }
            }
            Err(message(error))
        },
        MethodRule::FirstFlag { error } => {
            if args.len() > 0 {
                if let ComponentArgument::Boolean(b) = &args[0] {
                    return Ok(ComponentPayload::Flag(*b));
                }
            }
            Err(message(error))
        },
        MethodRule::FirstCount { error } => {
            if args.len() > 0 {
                if let ComponentArgument::Number(n) = &args[0] {
                    if f64_integer_at_least_one(*n) {
                        return Ok(ComponentPayload::Count(f64_saturating_u64(*n)));
                    }
                }
            }
            Err(message(error))
        },
        MethodRule::FirstPositiveF32 { error } => {
            if args.len() > 0 {
                if let ComponentArgument::Number(n) = &args[0] {
                    if f64_positive(*n) && f64_in_f32_range(*n) {
                        return Ok(ComponentPayload::Number(*n));
                    }
                }
            }
            Err(message(error))
        },
        MethodRule::Index { error } => {
            if args.len() == 1 {
                if let ComponentArgument::Number(n) = &args[0] {
                    if f64_at_least_zero(*n) && f64_is_integral(*n) {
                        return Ok(ComponentPayload::Count(f64_saturating_u64(*n)));
                    }
                }
            }
            Err(message(error))
        },
        MethodRule::BoundedIndex { error } => {
            if args.len() == 1 {
                if let ComponentArgument::Number(n) = &args[0] {
                    if f64_is_integral(*n) && f64_at_least_zero(*n) && f64_within_2_64(*n) {
                        return Ok(ComponentPayload::Count(f64_saturating_u64(*n)));
                    }
                }
            }
            Err(message(error))
        },
        MethodRule::Count { error } => {
            if args.len() == 1 {
                if let ComponentArgument::Number(n) = &args[0] {
                    if f64_integer_at_least_one(*n) {
                        return Ok(ComponentPayload::Count(f64_saturating_u64(*n)));
                    }
                }
            }
            Err(message(error))
        },
        MethodRule::Millis { error } => {
            if args.len() == 1 {
                if let ComponentArgument::Number(n) = &args[0] {
                    if f64_at_least_zero(*n) && f64_within_2_64(*n) {
                        return Ok(ComponentPayload::Count(f64_saturating_u64(*n)));
                    }
                }
            }
            Err(message(error))
        },
        MethodRule::PositiveFinite { error } => {
            if args.len() == 1 {
                if let ComponentArgument::Number(n) = &args[0] {
                    if f64_is_finite(*n) && f64_positive(*n) {
                        return Ok(ComponentPayload::Number(*n));
                    }
                }
            }
            Err(message(error))
        },
        MethodRule::PositiveF32 { invalid, not_number } => {
            if args.len() == 1 {
                if let ComponentArgument::Number(n) = &args[0] {
                    if f64_positive(*n) && f64_in_f32_range(*n) {
                        return Ok(ComponentPayload::Number(*n));
                    }
                    return Err(message(invalid));
                }
            }
            Err(message(not_number))
        },
        MethodRule::AcceptCallback { error } => {
            if args.len() == 1 {
                if let ComponentArgument::Callback(_) = &args[0] {
                    return Ok(ComponentPayload::Unit);
                }
            }
            Err(message(error))
        },
        MethodRule::FlagOrNumber { error } => {
            if args.len() == 1 {
                match &args[0] {
                    ComponentArgument::Boolean(b) => {
                        return Ok(ComponentPayload::Flag(*b));
                    },
                    ComponentArgument::Number(n) => {
                        return Ok(ComponentPayload::Flag(f64_nonzero(*n)));
                    },
                    _ => {},
                }
            }
            Err(message(error))
        },
        MethodRule::AnyText { error, arity } => {
            if args.len() != 1 {
                return Err(message(arity));
            }
            match args[0].as_str() {
                Some(s) => Ok(ComponentPayload::Text(String::from_str(s))),
                None => Err(message(error)),
            }
        },
        MethodRule::ParsedText { any_text, invalid, echo, error, arity, .. } => {
            if args.len() != 1 {
                return Err(message(arity));
            }
            let text = match &args[0] {
                ComponentArgument::String(s) => s.clone(),
                ComponentArgument::Enum(s) => {
                    if !*any_text {
                        return Err(message(error));
                    }
                    s.clone()
                },
                _ => {
                    return Err(message(error));
                },
            };
            match verdict {
                Ok(_) => Ok(ComponentPayload::Text(text)),
                Err(m) => {
                    if *echo {
                        Err(String::from_str(invalid).concat(m.as_str()))
                    } else {
                        Err(message(invalid))
                    }
                },
            }
        },
        MethodRule::FirstEnum { error } => {
            if args.len() > 0 {
                if let ComponentArgument::Enum(s) = &args[0] {
                    return Ok(ComponentPayload::Text(s.clone()));
                }
            }
            Err(message(error))
        },
        MethodRule::EnumText { error } => {
            if args.len() == 1 {
                if let ComponentArgument::Enum(s) = &args[0] {
                    return Ok(ComponentPayload::Text(s.clone()));
                }
            }
            Err(message(error))
        },
        MethodRule::NonBlankText { error } => {
            if args.len() == 1 {
                if let ComponentArgument::String(s) = &args[0] {
                    if !str_is_blank(s.as_str()) {
                        return Ok(ComponentPayload::Text(s.clone()));
                    }
                }
            }
            Err(message(error))
        },
    }
}

} // verus!
