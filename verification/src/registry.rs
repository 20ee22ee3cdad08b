//! The component registry: descriptors of every component, their constructors
//! and methods with the argument schemas they declare, and the ordered,
//! frozen catalog the wire ids index.
//!
//! A constructor or method carries a rule that turns its call arguments into a
//! recorded payload (or an error message); `crate::rules` states and
//! implements what each rule does.

use vstd::prelude::*;
use crate::rules::{
    apply_method, arguments_view, construct, constructor_outcome, constructor_parse_text,
    constructor_text_to_parse, method_outcome, method_parse_text, method_text_to_parse, outcome_view,
    verdict_view, constructor_parser, constructor_rule_parser, method_parser, method_rule_parser,
    TextParser,
    ChoiceList, ComponentArgument, ComponentPayload, ConstructorRule, MethodRule,
};

verus! {

/// Every component the shell knows. A descriptor is registered under one kind;
/// the registry accepts each kind once.
#[derive(PartialEq, Eq, Clone, Copy, Debug, Structural)]
pub enum ComponentKind {
    Div,
    Text,
    Button,
    Label,
    Badge,
    Progress,
    Combobox,
    Radio,
    Tabs,
    Scroll,
    Scrollbar,
    Resizable,
    Popover,
    Spinner,
    Separator,
    Skeleton,
    Tag,
    Link,
    Kbd,
    Avatar,
    Icon,
    Collapsible,
    Pagination,
    Rating,
    Clipboard,
    Breadcrumb,
    GroupBox,
    StatusBar,
    Alert,
    Tooltip,
    HoverCard,
    DropdownMenu,
    DropdownButton,
    Tab,
    TabBar,
    List,
    Select,
    DataTable,
    AccordionItem,
    Accordion,
    StepperItem,
    Stepper,
    DescriptionItem,
    DescriptionList,
    Field,
    Form,
    Input,
    NumberInput,
    Textarea,
    OtpInput,
    Slider,
    Editor,
    Canvas,
    Motion,
    Presence,
    PaintRect,
    PaintLine,
    PaintPath,
    PaintGradient,
    PaintShadow,
    HitRegion,
    PaintImage,
    Attachment,
    Bubble,
    Marker,
    Message,
    ShimmerText,
    MessageScroller,
    CommandItem,
    CommandGroup,
    CommandSeparator,
    Command,
    ContextMenuItem,
    ContextMenuSeparator,
    ContextMenu,
    NativeMenuItem,
    NativeMenuSeparator,
    NativeMenuTrigger,
    RadioGroup,
    SidebarMenuItem,
    SidebarMenu,
    SidebarHeader,
    SidebarFooter,
    Sidebar,
    SidebarToggleButton,
    SettingItem,
    SettingGroup,
    SettingPage,
    Settings,
    TableHeader,
    TableBody,
    TableFooter,
    TableRow,
    TableHead,
    TableCell,
    TableCaption,
    Table,
    Calendar,
    DatePicker,
    ColorPicker,
    MenuItem,
    MenuSeparator,
    Menu,
    MenuBar,
    Image,
    EntityHost,
}

/// The wire name of each component kind.
pub open spec fn kind_name(kind: ComponentKind) -> Seq<char> {
    match kind {
        ComponentKind::Div => "Div"@,
        ComponentKind::Text => "Text"@,
        ComponentKind::Button => "Button"@,
        ComponentKind::Label => "Label"@,
        ComponentKind::Badge => "Badge"@,
        ComponentKind::Progress => "Progress"@,
        ComponentKind::Combobox => "Combobox"@,
        ComponentKind::Radio => "Radio"@,
        ComponentKind::Tabs => "Tabs"@,
        ComponentKind::Scroll => "Scroll"@,
        ComponentKind::Scrollbar => "Scrollbar"@,
        ComponentKind::Resizable => "Resizable"@,
        ComponentKind::Popover => "Popover"@,
        ComponentKind::Spinner => "Spinner"@,
        ComponentKind::Separator => "Separator"@,
        ComponentKind::Skeleton => "Skeleton"@,
        ComponentKind::Tag => "Tag"@,
        ComponentKind::Link => "Link"@,
        ComponentKind::Kbd => "Kbd"@,
        ComponentKind::Avatar => "Avatar"@,
        ComponentKind::Icon => "Icon"@,
        ComponentKind::Collapsible => "Collapsible"@,
        ComponentKind::Pagination => "Pagination"@,
        ComponentKind::Rating => "Rating"@,
        ComponentKind::Clipboard => "Clipboard"@,
        ComponentKind::Breadcrumb => "Breadcrumb"@,
        ComponentKind::GroupBox => "GroupBox"@,
        ComponentKind::StatusBar => "StatusBar"@,
        ComponentKind::Alert => "Alert"@,
        ComponentKind::Tooltip => "Tooltip"@,
        ComponentKind::HoverCard => "HoverCard"@,
        ComponentKind::DropdownMenu => "DropdownMenu"@,
        ComponentKind::DropdownButton => "DropdownButton"@,
        ComponentKind::Tab => "Tab"@,
        ComponentKind::TabBar => "TabBar"@,
        ComponentKind::List => "List"@,
        ComponentKind::Select => "Select"@,
        ComponentKind::DataTable => "DataTable"@,
        ComponentKind::AccordionItem => "AccordionItem"@,
        ComponentKind::Accordion => "Accordion"@,
        ComponentKind::StepperItem => "StepperItem"@,
        ComponentKind::Stepper => "Stepper"@,
        ComponentKind::DescriptionItem => "DescriptionItem"@,
        ComponentKind::DescriptionList => "DescriptionList"@,
        ComponentKind::Field => "Field"@,
        ComponentKind::Form => "Form"@,
        ComponentKind::Input => "Input"@,
        ComponentKind::NumberInput => "NumberInput"@,
        ComponentKind::Textarea => "Textarea"@,
        ComponentKind::OtpInput => "OtpInput"@,
        ComponentKind::Slider => "Slider"@,
        ComponentKind::Editor => "Editor"@,
        ComponentKind::Canvas => "Canvas"@,
        ComponentKind::Motion => "Motion"@,
        ComponentKind::Presence => "Presence"@,
        ComponentKind::PaintRect => "PaintRect"@,
        ComponentKind::PaintLine => "PaintLine"@,
        ComponentKind::PaintPath => "PaintPath"@,
        ComponentKind::PaintGradient => "PaintGradient"@,
        ComponentKind::PaintShadow => "PaintShadow"@,
        ComponentKind::HitRegion => "HitRegion"@,
        ComponentKind::PaintImage => "PaintImage"@,
        ComponentKind::Attachment => "Attachment"@,
        ComponentKind::Bubble => "Bubble"@,
        ComponentKind::Marker => "Marker"@,
        ComponentKind::Message => "Message"@,
        ComponentKind::ShimmerText => "ShimmerText"@,
        ComponentKind::MessageScroller => "MessageScroller"@,
        ComponentKind::CommandItem => "CommandItem"@,
        ComponentKind::CommandGroup => "CommandGroup"@,
        ComponentKind::CommandSeparator => "CommandSeparator"@,
        ComponentKind::Command => "Command"@,
        ComponentKind::ContextMenuItem => "ContextMenuItem"@,
        ComponentKind::ContextMenuSeparator => "ContextMenuSeparator"@,
        ComponentKind::ContextMenu => "ContextMenu"@,
        ComponentKind::NativeMenuItem => "NativeMenuItem"@,
        ComponentKind::NativeMenuSeparator => "NativeMenuSeparator"@,
        ComponentKind::NativeMenuTrigger => "NativeMenuTrigger"@,
        ComponentKind::RadioGroup => "RadioGroup"@,
        ComponentKind::SidebarMenuItem => "SidebarMenuItem"@,
        ComponentKind::SidebarMenu => "SidebarMenu"@,
        ComponentKind::SidebarHeader => "SidebarHeader"@,
        ComponentKind::SidebarFooter => "SidebarFooter"@,
        ComponentKind::Sidebar => "Sidebar"@,
        ComponentKind::SidebarToggleButton => "SidebarToggleButton"@,
        ComponentKind::SettingItem => "SettingItem"@,
        ComponentKind::SettingGroup => "SettingGroup"@,
        ComponentKind::SettingPage => "SettingPage"@,
        ComponentKind::Settings => "Settings"@,
        ComponentKind::TableHeader => "TableHeader"@,
        ComponentKind::TableBody => "TableBody"@,
        ComponentKind::TableFooter => "TableFooter"@,
        ComponentKind::TableRow => "TableRow"@,
        ComponentKind::TableHead => "TableHead"@,
        ComponentKind::TableCell => "TableCell"@,
        ComponentKind::TableCaption => "TableCaption"@,
        ComponentKind::Table => "Table"@,
        ComponentKind::Calendar => "Calendar"@,
        ComponentKind::DatePicker => "DatePicker"@,
        ComponentKind::ColorPicker => "ColorPicker"@,
        ComponentKind::MenuItem => "MenuItem"@,
        ComponentKind::MenuSeparator => "MenuSeparator"@,
        ComponentKind::Menu => "Menu"@,
        ComponentKind::MenuBar => "MenuBar"@,
        ComponentKind::Image => "Image"@,
        ComponentKind::EntityHost => "EntityHost"@,
    }
}

/// What tells the wire names apart: the length, the first three characters
/// and the last three.
pub open spec fn name_fingerprint(name: Seq<char>) -> (nat, char, char, char, char, char, char) {
    (
        name.len(),
        name[0],
        name[1],
        name[2],
        name[name.len() - 3],
        name[name.len() - 2],
        name[name.len() - 1],
    )
}

/// The kind whose wire name has the fingerprint `f`, if any.
pub open spec fn kind_of_fingerprint(f: (nat, char, char, char, char, char, char)) -> Option<
    ComponentKind,
> {
    if f == (3nat, 'D', 'i', 'v', 'D', 'i', 'v') {
        Some(ComponentKind::Div)
    } else if f == (4nat, 'T', 'e', 'x', 'e', 'x', 't') {
        Some(ComponentKind::Text)
    } else if f == (6nat, 'B', 'u', 't', 't', 'o', 'n') {
        Some(ComponentKind::Button)
    } else if f == (5nat, 'L', 'a', 'b', 'b', 'e', 'l') {
        Some(ComponentKind::Label)
    } else if f == (5nat, 'B', 'a', 'd', 'd', 'g', 'e') {
        Some(ComponentKind::Badge)
    } else if f == (8nat, 'P', 'r', 'o', 'e', 's', 's') {
        Some(ComponentKind::Progress)
    } else if f == (8nat, 'C', 'o', 'm', 'b', 'o', 'x') {
        Some(ComponentKind::Combobox)
    } else if f == (5nat, 'R', 'a', 'd', 'd', 'i', 'o') {
        Some(ComponentKind::Radio)
    } else if f == (4nat, 'T', 'a', 'b', 'a', 'b', 's') {
        Some(ComponentKind::Tabs)
    } else if f == (6nat, 'S', 'c', 'r', 'o', 'l', 'l') {
        Some(ComponentKind::Scroll)
    } else if f == (9nat, 'S', 'c', 'r', 'b', 'a', 'r') {
        Some(ComponentKind::Scrollbar)
    } else if f == (9nat, 'R', 'e', 's', 'b', 'l', 'e') {
        Some(ComponentKind::Resizable)
    } else if f == (7nat, 'P', 'o', 'p', 'v', 'e', 'r') {
        Some(ComponentKind::Popover)
    } else if f == (7nat, 'S', 'p', 'i', 'n', 'e', 'r') {
        Some(ComponentKind::Spinner)
    } else if f == (9nat, 'S', 'e', 'p', 't', 'o', 'r') {
        Some(ComponentKind::Separator)
    } else if f == (8nat, 'S', 'k', 'e', 't', 'o', 'n') {
        Some(ComponentKind::Skeleton)
    } else if f == (3nat, 'T', 'a', 'g', 'T', 'a', 'g') {
        Some(ComponentKind::Tag)
    } else if f == (4nat, 'L', 'i', 'n', 'i', 'n', 'k') {
        Some(ComponentKind::Link)
    } else if f == (3nat, 'K', 'b', 'd', 'K', 'b', 'd') {
        Some(ComponentKind::Kbd)
    } else if f == (6nat, 'A', 'v', 'a', 't', 'a', 'r') {
        Some(ComponentKind::Avatar)
    } else if f == (4nat, 'I', 'c', 'o', 'c', 'o', 'n') {
        Some(ComponentKind::Icon)
    } else if f == (11nat, 'C', 'o', 'l', 'b', 'l', 'e') {
        Some(ComponentKind::Collapsible)
    } else if f == (10nat, 'P', 'a', 'g', 'i', 'o', 'n') {
        Some(ComponentKind::Pagination)
    } else if f == (6nat, 'R', 'a', 't', 'i', 'n', 'g') {
        Some(ComponentKind::Rating)
    } else if f == (9nat, 'C', 'l', 'i', 'a', 'r', 'd') {
        Some(ComponentKind::Clipboard)
    } else if f == (10nat, 'B', 'r', 'e', 'u', 'm', 'b') {
        Some(ComponentKind::Breadcrumb)
    } else if f == (8nat, 'G', 'r', 'o', 'B', 'o', 'x') {
        Some(ComponentKind::GroupBox)
    } else if f == (9nat, 'S', 't', 'a', 'B', 'a', 'r') {
        Some(ComponentKind::StatusBar)
    } else if f == (5nat, 'A', 'l', 'e', 'e', 'r', 't') {
        Some(ComponentKind::Alert)
    } else if f == (7nat, 'T', 'o', 'o', 't', 'i', 'p') {
        Some(ComponentKind::Tooltip)
    } else if f == (9nat, 'H', 'o', 'v', 'a', 'r', 'd') {
        Some(ComponentKind::HoverCard)
    } else if f == (12nat, 'D', 'r', 'o', 'e', 'n', 'u') {
        Some(ComponentKind::DropdownMenu)
    } else if f == (14nat, 'D', 'r', 'o', 't', 'o', 'n') {
        Some(ComponentKind::DropdownButton)
    } else if f == (3nat, 'T', 'a', 'b', 'T', 'a', 'b') {
        Some(ComponentKind::Tab)
    } else if f == (6nat, 'T', 'a', 'b', 'B', 'a', 'r') {
        Some(ComponentKind::TabBar)
    } else if f == (4nat, 'L', 'i', 's', 'i', 's', 't') {
        Some(ComponentKind::List)
    } else if f == (6nat, 'S', 'e', 'l', 'e', 'c', 't') {
        Some(ComponentKind::Select)
    } else if f == (9nat, 'D', 'a', 't', 'b', 'l', 'e') {
        Some(ComponentKind::DataTable)
    } else if f == (13nat, 'A', 'c', 'c', 't', 'e', 'm') {
        Some(ComponentKind::AccordionItem)
    } else if f == (9nat, 'A', 'c', 'c', 'i', 'o', 'n') {
        Some(ComponentKind::Accordion)
    } else if f == (11nat, 'S', 't', 'e', 't', 'e', 'm') {
        Some(ComponentKind::StepperItem)
    } else if f == (7nat, 'S', 't', 'e', 'p', 'e', 'r') {
        Some(ComponentKind::Stepper)
    } else if f == (15nat, 'D', 'e', 's', 't', 'e', 'm') {
        Some(ComponentKind::DescriptionItem)
    } else if f == (15nat, 'D', 'e', 's', 'i', 's', 't') {
        Some(ComponentKind::DescriptionList)
    } else if f == (5nat, 'F', 'i', 'e', 'e', 'l', 'd') {
        Some(ComponentKind::Field)
    } else if f == (4nat, 'F', 'o', 'r', 'o', 'r', 'm') {
        Some(ComponentKind::Form)
    } else if f == (5nat, 'I', 'n', 'p', 'p', 'u', 't') {
        Some(ComponentKind::Input)
    } else if f == (11nat, 'N', 'u', 'm', 'p', 'u', 't') {
        Some(ComponentKind::NumberInput)
    } else if f == (8nat, 'T', 'e', 'x', 'r', 'e', 'a') {
        Some(ComponentKind::Textarea)
    } else if f == (8nat, 'O', 't', 'p', 'p', 'u', 't') {
        Some(ComponentKind::OtpInput)
    } else if f == (6nat, 'S', 'l', 'i', 'd', 'e', 'r') {
        Some(ComponentKind::Slider)
    } else if f == (6nat, 'E', 'd', 'i', 't', 'o', 'r') {
        Some(ComponentKind::Editor)
    } else if f == (6nat, 'C', 'a', 'n', 'v', 'a', 's') {
        Some(ComponentKind::Canvas)
    } else if f == (6nat, 'M', 'o', 't', 'i', 'o', 'n') {
        Some(ComponentKind::Motion)
    } else if f == (8nat, 'P', 'r', 'e', 'n', 'c', 'e') {
        Some(ComponentKind::Presence)
    } else if f == (9nat, 'P', 'a', 'i', 'e', 'c', 't') {
        Some(ComponentKind::PaintRect)
    } else if f == (9nat, 'P', 'a', 'i', 'i', 'n', 'e') {
        Some(ComponentKind::PaintLine)
    } else if f == (9nat, 'P', 'a', 'i', 'a', 't', 'h') {
        Some(ComponentKind::PaintPath)
    } else if f == (13nat, 'P', 'a', 'i', 'e', 'n', 't') {
        Some(ComponentKind::PaintGradient)
    } else if f == (11nat, 'P', 'a', 'i', 'd', 'o', 'w') {
        Some(ComponentKind::PaintShadow)
    } else if f == (9nat, 'H', 'i', 't', 'i', 'o', 'n') {
        Some(ComponentKind::HitRegion)
    } else if f == (10nat, 'P', 'a', 'i', 'a', 'g', 'e') {
        Some(ComponentKind::PaintImage)
    } else if f == (10nat, 'A', 't', 't', 'e', 'n', 't') {
        Some(ComponentKind::Attachment)
    } else if f == (6nat, 'B', 'u', 'b', 'b', 'l', 'e') {
        Some(ComponentKind::Bubble)
    } else if f == (6nat, 'M', 'a', 'r', 'k', 'e', 'r') {
        Some(ComponentKind::Marker)
    } else if f == (7nat, 'M', 'e', 's', 'a', 'g', 'e') {
        Some(ComponentKind::Message)
    } else if f == (11nat, 'S', 'h', 'i', 'e', 'x', 't') {
        Some(ComponentKind::ShimmerText)
    } else if f == (15nat, 'M', 'e', 's', 'l', 'e', 'r') {
        Some(ComponentKind::MessageScroller)
    } else if f == (11nat, 'C', 'o', 'm', 't', 'e', 'm') {
        Some(ComponentKind::CommandItem)
    } else if f == (12nat, 'C', 'o', 'm', 'o', 'u', 'p') {
        Some(ComponentKind::CommandGroup)
    } else if f == (16nat, 'C', 'o', 'm', 't', 'o', 'r') {
        Some(ComponentKind::CommandSeparator)
    } else if f == (7nat, 'C', 'o', 'm', 'a', 'n', 'd') {
        Some(ComponentKind::Command)
    } else if f == (15nat, 'C', 'o', 'n', 't', 'e', 'm') {
        Some(ComponentKind::ContextMenuItem)
    } else if f == (20nat, 'C', 'o', 'n', 't', 'o', 'r') {
        Some(ComponentKind::ContextMenuSeparator)
    } else if f == (11nat, 'C', 'o', 'n', 'e', 'n', 'u') {
        Some(ComponentKind::ContextMenu)
    } else if f == (14nat, 'N', 'a', 't', 't', 'e', 'm') {
        Some(ComponentKind::NativeMenuItem)
    } else if f == (19nat, 'N', 'a', 't', 't', 'o', 'r') {
        Some(ComponentKind::NativeMenuSeparator)
    } else if f == (17nat, 'N', 'a', 't', 'g', 'e', 'r') {
        Some(ComponentKind::NativeMenuTrigger)
    } else if f == (10nat, 'R', 'a', 'd', 'o', 'u', 'p') {
        Some(ComponentKind::RadioGroup)
    } else if f == (15nat, 'S', 'i', 'd', 't', 'e', 'm') {
        Some(ComponentKind::SidebarMenuItem)
    } else if f == (11nat, 'S', 'i', 'd', 'e', 'n', 'u') {
        Some(ComponentKind::SidebarMenu)
    } else if f == (13nat, 'S', 'i', 'd', 'd', 'e', 'r') {
        Some(ComponentKind::SidebarHeader)
    } else if f == (13nat, 'S', 'i', 'd', 't', 'e', 'r') {
        Some(ComponentKind::SidebarFooter)
    } else if f == (7nat, 'S', 'i', 'd', 'b', 'a', 'r') {
        Some(ComponentKind::Sidebar)
    } else if f == (19nat, 'S', 'i', 'd', 't', 'o', 'n') {
        Some(ComponentKind::SidebarToggleButton)
    } else if f == (11nat, 'S', 'e', 't', 't', 'e', 'm') {
        Some(ComponentKind::SettingItem)
    } else if f == (12nat, 'S', 'e', 't', 'o', 'u', 'p') {
        Some(ComponentKind::SettingGroup)
    } else if f == (11nat, 'S', 'e', 't', 'a', 'g', 'e') {
        Some(ComponentKind::SettingPage)
    } else if f == (8nat, 'S', 'e', 't', 'n', 'g', 's') {
        Some(ComponentKind::Settings)
    } else if f == (11nat, 'T', 'a', 'b', 'd', 'e', 'r') {
        Some(ComponentKind::TableHeader)
    } else if f == (9nat, 'T', 'a', 'b', 'o', 'd', 'y') {
        Some(ComponentKind::TableBody)
    } else if f == (11nat, 'T', 'a', 'b', 't', 'e', 'r') {
        Some(ComponentKind::TableFooter)
    } else if f == (8nat, 'T', 'a', 'b', 'R', 'o', 'w') {
        Some(ComponentKind::TableRow)
    } else if f == (9nat, 'T', 'a', 'b', 'e', 'a', 'd') {
        Some(ComponentKind::TableHead)
    } else if f == (9nat, 'T', 'a', 'b', 'e', 'l', 'l') {
        Some(ComponentKind::TableCell)
    } else if f == (12nat, 'T', 'a', 'b', 'i', 'o', 'n') {
        Some(ComponentKind::TableCaption)
    } else if f == (5nat, 'T', 'a', 'b', 'b', 'l', 'e') {
        Some(ComponentKind::Table)
    } else if f == (8nat, 'C', 'a', 'l', 'd', 'a', 'r') {
        Some(ComponentKind::Calendar)
    } else if f == (10nat, 'D', 'a', 't', 'k', 'e', 'r') {
        Some(ComponentKind::DatePicker)
    } else if f == (11nat, 'C', 'o', 'l', 'k', 'e', 'r') {
        Some(ComponentKind::ColorPicker)
    } else if f == (8nat, 'M', 'e', 'n', 't', 'e', 'm') {
        Some(ComponentKind::MenuItem)
    } else if f == (13nat, 'M', 'e', 'n', 't', 'o', 'r') {
        Some(ComponentKind::MenuSeparator)
    } else if f == (4nat, 'M', 'e', 'n', 'e', 'n', 'u') {
        Some(ComponentKind::Menu)
    } else if f == (7nat, 'M', 'e', 'n', 'B', 'a', 'r') {
        Some(ComponentKind::MenuBar)
    } else if f == (5nat, 'I', 'm', 'a', 'a', 'g', 'e') {
        Some(ComponentKind::Image)
    } else if f == (10nat, 'E', 'n', 't', 'o', 's', 't') {
        Some(ComponentKind::EntityHost)
    } else {
        None
    }
}

/// The fingerprint of each kind's wire name leads back to that kind.
proof fn lemma_fingerprint_of_kind(kind: ComponentKind)
    ensures
        kind_of_fingerprint(name_fingerprint(kind_name(kind))) == Some(kind),
{
    match kind {
        ComponentKind::Div => reveal_strlit("Div"),
        ComponentKind::Text => reveal_strlit("Text"),
        ComponentKind::Button => reveal_strlit("Button"),
        ComponentKind::Label => reveal_strlit("Label"),
        ComponentKind::Badge => reveal_strlit("Badge"),
        ComponentKind::Progress => reveal_strlit("Progress"),
        ComponentKind::Combobox => reveal_strlit("Combobox"),
        ComponentKind::Radio => reveal_strlit("Radio"),
        ComponentKind::Tabs => reveal_strlit("Tabs"),
        ComponentKind::Scroll => reveal_strlit("Scroll"),
        ComponentKind::Scrollbar => reveal_strlit("Scrollbar"),
        ComponentKind::Resizable => reveal_strlit("Resizable"),
        ComponentKind::Popover => reveal_strlit("Popover"),
        ComponentKind::Spinner => reveal_strlit("Spinner"),
        ComponentKind::Separator => reveal_strlit("Separator"),
        ComponentKind::Skeleton => reveal_strlit("Skeleton"),
        ComponentKind::Tag => reveal_strlit("Tag"),
        ComponentKind::Link => reveal_strlit("Link"),
        ComponentKind::Kbd => reveal_strlit("Kbd"),
        ComponentKind::Avatar => reveal_strlit("Avatar"),
        ComponentKind::Icon => reveal_strlit("Icon"),
        ComponentKind::Collapsible => reveal_strlit("Collapsible"),
        ComponentKind::Pagination => reveal_strlit("Pagination"),
        ComponentKind::Rating => reveal_strlit("Rating"),
        ComponentKind::Clipboard => reveal_strlit("Clipboard"),
        ComponentKind::Breadcrumb => reveal_strlit("Breadcrumb"),
        ComponentKind::GroupBox => reveal_strlit("GroupBox"),
        ComponentKind::StatusBar => reveal_strlit("StatusBar"),
        ComponentKind::Alert => reveal_strlit("Alert"),
        ComponentKind::Tooltip => reveal_strlit("Tooltip"),
        ComponentKind::HoverCard => reveal_strlit("HoverCard"),
        ComponentKind::DropdownMenu => reveal_strlit("DropdownMenu"),
        ComponentKind::DropdownButton => reveal_strlit("DropdownButton"),
        ComponentKind::Tab => reveal_strlit("Tab"),
        ComponentKind::TabBar => reveal_strlit("TabBar"),
        ComponentKind::List => reveal_strlit("List"),
        ComponentKind::Select => reveal_strlit("Select"),
        ComponentKind::DataTable => reveal_strlit("DataTable"),
        ComponentKind::AccordionItem => reveal_strlit("AccordionItem"),
        ComponentKind::Accordion => reveal_strlit("Accordion"),
        ComponentKind::StepperItem => reveal_strlit("StepperItem"),
        ComponentKind::Stepper => reveal_strlit("Stepper"),
        ComponentKind::DescriptionItem => reveal_strlit("DescriptionItem"),
        ComponentKind::DescriptionList => reveal_strlit("DescriptionList"),
        ComponentKind::Field => reveal_strlit("Field"),
        ComponentKind::Form => reveal_strlit("Form"),
        ComponentKind::Input => reveal_strlit("Input"),
        ComponentKind::NumberInput => reveal_strlit("NumberInput"),
        ComponentKind::Textarea => reveal_strlit("Textarea"),
        ComponentKind::OtpInput => reveal_strlit("OtpInput"),
        ComponentKind::Slider => reveal_strlit("Slider"),
        ComponentKind::Editor => reveal_strlit("Editor"),
        ComponentKind::Canvas => reveal_strlit("Canvas"),
        ComponentKind::Motion => reveal_strlit("Motion"),
        ComponentKind::Presence => reveal_strlit("Presence"),
        ComponentKind::PaintRect => reveal_strlit("PaintRect"),
        ComponentKind::PaintLine => reveal_strlit("PaintLine"),
        ComponentKind::PaintPath => reveal_strlit("PaintPath"),
        ComponentKind::PaintGradient => reveal_strlit("PaintGradient"),
        ComponentKind::PaintShadow => reveal_strlit("PaintShadow"),
        ComponentKind::HitRegion => reveal_strlit("HitRegion"),
        ComponentKind::PaintImage => reveal_strlit("PaintImage"),
        ComponentKind::Attachment => reveal_strlit("Attachment"),
        ComponentKind::Bubble => reveal_strlit("Bubble"),
        ComponentKind::Marker => reveal_strlit("Marker"),
        ComponentKind::Message => reveal_strlit("Message"),
        ComponentKind::ShimmerText => reveal_strlit("ShimmerText"),
        ComponentKind::MessageScroller => reveal_strlit("MessageScroller"),
        ComponentKind::CommandItem => reveal_strlit("CommandItem"),
        ComponentKind::CommandGroup => reveal_strlit("CommandGroup"),
        ComponentKind::CommandSeparator => reveal_strlit("CommandSeparator"),
        ComponentKind::Command => reveal_strlit("Command"),
        ComponentKind::ContextMenuItem => reveal_strlit("ContextMenuItem"),
        ComponentKind::ContextMenuSeparator => reveal_strlit("ContextMenuSeparator"),
        ComponentKind::ContextMenu => reveal_strlit("ContextMenu"),
        ComponentKind::NativeMenuItem => reveal_strlit("NativeMenuItem"),
        ComponentKind::NativeMenuSeparator => reveal_strlit("NativeMenuSeparator"),
        ComponentKind::NativeMenuTrigger => reveal_strlit("NativeMenuTrigger"),
        ComponentKind::RadioGroup => reveal_strlit("RadioGroup"),
        ComponentKind::SidebarMenuItem => reveal_strlit("SidebarMenuItem"),
        ComponentKind::SidebarMenu => reveal_strlit("SidebarMenu"),
        ComponentKind::SidebarHeader => reveal_strlit("SidebarHeader"),
        ComponentKind::SidebarFooter => reveal_strlit("SidebarFooter"),
        ComponentKind::Sidebar => reveal_strlit("Sidebar"),
        ComponentKind::SidebarToggleButton => reveal_strlit("SidebarToggleButton"),
        ComponentKind::SettingItem => reveal_strlit("SettingItem"),
        ComponentKind::SettingGroup => reveal_strlit("SettingGroup"),
        ComponentKind::SettingPage => reveal_strlit("SettingPage"),
        ComponentKind::Settings => reveal_strlit("Settings"),
        ComponentKind::TableHeader => reveal_strlit("TableHeader"),
        ComponentKind::TableBody => reveal_strlit("TableBody"),
        ComponentKind::TableFooter => reveal_strlit("TableFooter"),
        ComponentKind::TableRow => reveal_strlit("TableRow"),
        ComponentKind::TableHead => reveal_strlit("TableHead"),
        ComponentKind::TableCell => reveal_strlit("TableCell"),
        ComponentKind::TableCaption => reveal_strlit("TableCaption"),
        ComponentKind::Table => reveal_strlit("Table"),
        ComponentKind::Calendar => reveal_strlit("Calendar"),
        ComponentKind::DatePicker => reveal_strlit("DatePicker"),
        ComponentKind::ColorPicker => reveal_strlit("ColorPicker"),
        ComponentKind::MenuItem => reveal_strlit("MenuItem"),
        ComponentKind::MenuSeparator => reveal_strlit("MenuSeparator"),
        ComponentKind::Menu => reveal_strlit("Menu"),
        ComponentKind::MenuBar => reveal_strlit("MenuBar"),
        ComponentKind::Image => reveal_strlit("Image"),
        ComponentKind::EntityHost => reveal_strlit("EntityHost"),
    }
}

/// No two component kinds share a wire name.
pub proof fn lemma_kind_name_injective(a: ComponentKind, b: ComponentKind)
    ensures
        kind_name(a) == kind_name(b) ==> a == b,
{
    lemma_fingerprint_of_kind(a);
    lemma_fingerprint_of_kind(b);
}

/// Components of distinct kinds never share a wire name, so a registry
/// without a repeated kind has no repeated name.
pub proof fn lemma_names_distinct(descriptors: Seq<ComponentDescriptor>)
    requires
        kinds(descriptors).no_duplicates(),
    ensures
        names(descriptors).no_duplicates(),
{
    assert forall|i: int, j: int|
        0 <= i < names(descriptors).len() && 0 <= j < names(descriptors).len() && i != j implies
        names(descriptors)[i] != names(descriptors)[j] by {
        assert(kinds(descriptors)[i] != kinds(descriptors)[j]);
        lemma_kind_name_injective(descriptors[i].kind, descriptors[j].kind);
    }
}

impl ComponentKind {
    /// The wire name of the component.
    pub fn name(&self) -> (name: &'static str)
        ensures
            name@ == kind_name(*self),
    {
        match self {
            ComponentKind::Div => "Div",
            ComponentKind::Text => "Text",
            ComponentKind::Button => "Button",
            ComponentKind::Label => "Label",
            ComponentKind::Badge => "Badge",
            ComponentKind::Progress => "Progress",
            ComponentKind::Combobox => "Combobox",
            ComponentKind::Radio => "Radio",
            ComponentKind::Tabs => "Tabs",
            ComponentKind::Scroll => "Scroll",
            ComponentKind::Scrollbar => "Scrollbar",
            ComponentKind::Resizable => "Resizable",
            ComponentKind::Popover => "Popover",
            ComponentKind::Spinner => "Spinner",
            ComponentKind::Separator => "Separator",
            ComponentKind::Skeleton => "Skeleton",
            ComponentKind::Tag => "Tag",
            ComponentKind::Link => "Link",
            ComponentKind::Kbd => "Kbd",
            ComponentKind::Avatar => "Avatar",
            ComponentKind::Icon => "Icon",
            ComponentKind::Collapsible => "Collapsible",
            ComponentKind::Pagination => "Pagination",
            ComponentKind::Rating => "Rating",
            ComponentKind::Clipboard => "Clipboard",
            ComponentKind::Breadcrumb => "Breadcrumb",
            ComponentKind::GroupBox => "GroupBox",
            ComponentKind::StatusBar => "StatusBar",
            ComponentKind::Alert => "Alert",
            ComponentKind::Tooltip => "Tooltip",
            ComponentKind::HoverCard => "HoverCard",
            ComponentKind::DropdownMenu => "DropdownMenu",
            ComponentKind::DropdownButton => "DropdownButton",
            ComponentKind::Tab => "Tab",
            ComponentKind::TabBar => "TabBar",
            ComponentKind::List => "List",
            ComponentKind::Select => "Select",
            ComponentKind::DataTable => "DataTable",
            ComponentKind::AccordionItem => "AccordionItem",
            ComponentKind::Accordion => "Accordion",
            ComponentKind::StepperItem => "StepperItem",
            ComponentKind::Stepper => "Stepper",
            ComponentKind::DescriptionItem => "DescriptionItem",
            ComponentKind::DescriptionList => "DescriptionList",
            ComponentKind::Field => "Field",
            ComponentKind::Form => "Form",
            ComponentKind::Input => "Input",
            ComponentKind::NumberInput => "NumberInput",
            ComponentKind::Textarea => "Textarea",
            ComponentKind::OtpInput => "OtpInput",
            ComponentKind::Slider => "Slider",
            ComponentKind::Editor => "Editor",
            ComponentKind::Canvas => "Canvas",
            ComponentKind::Motion => "Motion",
            ComponentKind::Presence => "Presence",
            ComponentKind::PaintRect => "PaintRect",
            ComponentKind::PaintLine => "PaintLine",
            ComponentKind::PaintPath => "PaintPath",
            ComponentKind::PaintGradient => "PaintGradient",
            ComponentKind::PaintShadow => "PaintShadow",
            ComponentKind::HitRegion => "HitRegion",
            ComponentKind::PaintImage => "PaintImage",
            ComponentKind::Attachment => "Attachment",
            ComponentKind::Bubble => "Bubble",
            ComponentKind::Marker => "Marker",
            ComponentKind::Message => "Message",
            ComponentKind::ShimmerText => "ShimmerText",
            ComponentKind::MessageScroller => "MessageScroller",
            ComponentKind::CommandItem => "CommandItem",
            ComponentKind::CommandGroup => "CommandGroup",
            ComponentKind::CommandSeparator => "CommandSeparator",
            ComponentKind::Command => "Command",
            ComponentKind::ContextMenuItem => "ContextMenuItem",
            ComponentKind::ContextMenuSeparator => "ContextMenuSeparator",
            ComponentKind::ContextMenu => "ContextMenu",
            ComponentKind::NativeMenuItem => "NativeMenuItem",
            ComponentKind::NativeMenuSeparator => "NativeMenuSeparator",
            ComponentKind::NativeMenuTrigger => "NativeMenuTrigger",
            ComponentKind::RadioGroup => "RadioGroup",
            ComponentKind::SidebarMenuItem => "SidebarMenuItem",
            ComponentKind::SidebarMenu => "SidebarMenu",
            ComponentKind::SidebarHeader => "SidebarHeader",
            ComponentKind::SidebarFooter => "SidebarFooter",
            ComponentKind::Sidebar => "Sidebar",
            ComponentKind::SidebarToggleButton => "SidebarToggleButton",
            ComponentKind::SettingItem => "SettingItem",
            ComponentKind::SettingGroup => "SettingGroup",
            ComponentKind::SettingPage => "SettingPage",
            ComponentKind::Settings => "Settings",
            ComponentKind::TableHeader => "TableHeader",
            ComponentKind::TableBody => "TableBody",
            ComponentKind::TableFooter => "TableFooter",
            ComponentKind::TableRow => "TableRow",
            ComponentKind::TableHead => "TableHead",
            ComponentKind::TableCell => "TableCell",
            ComponentKind::TableCaption => "TableCaption",
            ComponentKind::Table => "Table",
            ComponentKind::Calendar => "Calendar",
            ComponentKind::DatePicker => "DatePicker",
            ComponentKind::ColorPicker => "ColorPicker",
            ComponentKind::MenuItem => "MenuItem",
            ComponentKind::MenuSeparator => "MenuSeparator",
            ComponentKind::Menu => "Menu",
            ComponentKind::MenuBar => "MenuBar",
            ComponentKind::Image => "Image",
            ComponentKind::EntityHost => "EntityHost",
        }
    }
}

/// The type of value an argument slot declares.
#[derive(PartialEq, Eq, Clone, Copy, Debug, Structural)]
pub enum ArgumentSchema {
    String,
    Number,
    Boolean,
    Callback,
    Element,
    /// One of a fixed list of literals.
    Enum(ChoiceList),
}

/// A named argument slot of a constructor or method.
#[derive(Clone, Copy, Debug)]
pub struct ArgumentDescriptor {
    pub name: &'static str,
    pub schema: ArgumentSchema,
}

impl ArgumentDescriptor {
    pub fn new(name: &'static str, schema: ArgumentSchema) -> (d: Self)
        ensures
            d.name == name,
            d.schema == schema,
    {
        ArgumentDescriptor { name, schema }
    }
}

/// A constructor: the export name the managed side calls, its argument slots,
/// and the rule that makes the component payload from the call's arguments.
pub struct ConstructorDescriptor {
    pub export: &'static str,
    pub arguments: Vec<ArgumentDescriptor>,
    pub rule: ConstructorRule,
}

impl ConstructorDescriptor {
    pub fn new(
        export: &'static str,
        arguments: Vec<ArgumentDescriptor>,
        rule: ConstructorRule,
    ) -> (d: Self)
        ensures
            d.export == export,
            d.arguments == arguments,
            d.rule == rule,
    {
        ConstructorDescriptor { export, arguments, rule }
    }

    /// Makes the payload of a constructor call from its arguments.
    pub fn payload(&self, arguments: &Vec<ComponentArgument>) -> (r: Result<
        ComponentPayload,
        String,
    >)
        requires
            !(self.rule is ParsedText),
        ensures
            outcome_view(r) == constructor_outcome(self.rule, arguments_view(arguments@), Ok(())),
    {
        construct(&self.rule, arguments, &Ok(()))
    }

    /// The parser that judges this constructor's text, if it parses one.
    pub fn parser(&self) -> (p: Option<TextParser>)
        ensures
            p == constructor_parser(self.rule),
    {
        constructor_rule_parser(&self.rule)
    }

    /// The text that the outside parser must judge before a call of this
    /// constructor is recorded, if there is one.
    pub fn text_to_parse(&self, arguments: &Vec<ComponentArgument>) -> (t: Option<String>)
        ensures
            match t {
                Some(text) => constructor_text_to_parse(self.rule, arguments_view(arguments@))
                    == Some(text@),
                None => constructor_text_to_parse(self.rule, arguments_view(arguments@)) is None,
            },
    {
        constructor_parse_text(&self.rule, arguments)
    }

    /// Makes the payload of a constructor call from its arguments and from
    /// what the outside parser said of `text_to_parse`.
    pub fn payload_parsed(&self, arguments: &Vec<ComponentArgument>, verdict: &Result<(), String>) -> (r:
        Result<ComponentPayload, String>)
        ensures
            outcome_view(r) == constructor_outcome(
                self.rule,
                arguments_view(arguments@),
                verdict_view(*verdict),
            ),
    {
        construct(&self.rule, arguments, verdict)
    }
}

/// A method: its name, argument slots, the rule that records a call, and the
/// documentation shown to managed authors.
pub struct MethodDescriptor {
    pub name: &'static str,
    pub arguments: Vec<ArgumentDescriptor>,
    pub rule: MethodRule,
    pub documentation: &'static str,
}

impl MethodDescriptor {
    pub fn new(
        name: &'static str,
        arguments: Vec<ArgumentDescriptor>,
        rule: MethodRule,
    ) -> (d: Self)
        ensures
            d.name == name,
            d.arguments == arguments,
            d.rule == rule,
            d.documentation@ == Seq::<char>::empty(),
    {
        proof {
            reveal_strlit("");
        }
        MethodDescriptor { name, arguments, rule, documentation: "" }
    }

    pub fn with_documentation(self, documentation: &'static str) -> (d: Self)
        ensures
            d.name == self.name,
            d.arguments == self.arguments,
            d.rule == self.rule,
            d.documentation == documentation,
    {
        MethodDescriptor { documentation, ..self }
    }

    /// Records a call of the method from its arguments.
    pub fn record(&self, arguments: &Vec<ComponentArgument>) -> (r: Result<
        ComponentPayload,
        String,
    >)
        requires
            !(self.rule is ParsedText),
        ensures
            outcome_view(r) == method_outcome(self.rule, arguments_view(arguments@), Ok(())),
    {
        apply_method(&self.rule, arguments, &Ok(()))
    }

    /// The parser that judges this method's text, if it parses one.
    pub fn parser(&self) -> (p: Option<TextParser>)
        ensures
            p == method_parser(self.rule),
    {
        method_rule_parser(&self.rule)
    }

    /// The text that the outside parser must judge before a call of this
    /// method is recorded, if there is one.
    pub fn text_to_parse(&self, arguments: &Vec<ComponentArgument>) -> (t: Option<String>)
        ensures
            match t {
                Some(text) => method_text_to_parse(self.rule, arguments_view(arguments@))
                    == Some(text@),
                None => method_text_to_parse(self.rule, arguments_view(arguments@)) is None,
            },
    {
        method_parse_text(&self.rule, arguments)
    }

    /// Records a call of the method from its arguments and from what the
    /// outside parser said of `text_to_parse`.
    pub fn record_parsed(&self, arguments: &Vec<ComponentArgument>, verdict: &Result<(), String>) -> (r:
        Result<ComponentPayload, String>)
        ensures
            outcome_view(r) == method_outcome(
                self.rule,
                arguments_view(arguments@),
                verdict_view(*verdict),
            ),
    {
        apply_method(&self.rule, arguments, verdict)
    }
}

/// One component: its kind, constructors, methods and documentation.
pub struct ComponentDescriptor {
    pub kind: ComponentKind,
    pub constructors: Vec<ConstructorDescriptor>,
    pub methods: Vec<MethodDescriptor>,
    pub documentation: &'static str,
}

/// An argument slot as its name and schema.
pub type ArgumentRow = (Seq<char>, ArgumentSchema);

/// A constructor as its export name, argument slots and rule.
pub type ConstructorRow = (Seq<char>, Seq<ArgumentRow>, ConstructorRule);

/// A method as its name, argument slots, rule and documentation.
pub type MethodRow = (Seq<char>, Seq<ArgumentRow>, MethodRule, Seq<char>);

/// Each argument slot as its name and schema, in order.
pub open spec fn argument_table(arguments: Seq<ArgumentDescriptor>) -> Seq<ArgumentRow> {
    arguments.map_values(|a: ArgumentDescriptor| (a.name@, a.schema))
}

/// Each constructor as its export name, argument slots and rule, in order.
pub open spec fn constructor_table(constructors: Seq<ConstructorDescriptor>) -> Seq<
    ConstructorRow,
> {
    constructors.map_values(
        |c: ConstructorDescriptor| (c.export@, argument_table(c.arguments@), c.rule),
    )
}

/// Each method as its name, argument slots, rule and documentation, in order.
pub open spec fn method_table(methods: Seq<MethodDescriptor>) -> Seq<MethodRow> {
    methods.map_values(
        |m: MethodDescriptor| (m.name@, argument_table(m.arguments@), m.rule, m.documentation@),
    )
}

/// The index of the first method named `name`.
pub open spec fn first_method(methods: Seq<MethodDescriptor>, name: Seq<char>) -> Option<int> {
    if exists|i: int| 0 <= i < methods.len() && #[trigger] methods[i].name@ == name {
        let i = choose|i: int|
            0 <= i < methods.len() && #[trigger] methods[i].name@ == name && (forall|j: int|
                0 <= j < i ==> #[trigger] methods[j].name@ != name);
        Some(i)
    } else {
        None
    }
}

impl ComponentDescriptor {
    pub fn new(kind: ComponentKind) -> (d: Self)
        ensures
            d.kind == kind,
            d.constructors@.len() == 0,
            d.methods@.len() == 0,
            d.documentation@ == Seq::<char>::empty(),
    {
        proof {
            reveal_strlit("");
        }
        ComponentDescriptor {
            kind,
            constructors: Vec::new(),
            methods: Vec::new(),
            documentation: "",
        }
    }

    pub fn with_constructors(self, constructors: Vec<ConstructorDescriptor>) -> (d: Self)
        ensures
            d.kind == self.kind,
            d.constructors == constructors,
            d.methods == self.methods,
            d.documentation == self.documentation,
    {
        ComponentDescriptor { constructors, ..self }
    }

    pub fn with_methods(self, methods: Vec<MethodDescriptor>) -> (d: Self)
        ensures
            d.kind == self.kind,
            d.constructors == self.constructors,
            d.methods == methods,
            d.documentation == self.documentation,
    {
        ComponentDescriptor { methods, ..self }
    }

    pub fn with_documentation(self, documentation: &'static str) -> (d: Self)
        ensures
            d.kind == self.kind,
            d.constructors == self.constructors,
            d.methods == self.methods,
            d.documentation == documentation,
    {
        ComponentDescriptor { documentation, ..self }
    }

    /// The wire name of the component.
    pub fn name(&self) -> (name: &'static str)
        ensures
            name@ == kind_name(self.kind),
    {
        self.kind.name()
    }

    /// The method named `name`, the first one when several share it.
    pub fn method(&self, name: &str) -> (m: Option<&MethodDescriptor>)
        ensures
            match first_method(self.methods@, name@) {
                Some(i) => m == Some(&self.methods@[i]),
                None => m is None,
            },
    {
        let n = self.methods.len();
        let mut i: usize = 0;
        while i < n
            invariant
                n == self.methods@.len(),
                i <= n,
                forall|j: int| 0 <= j < i ==> #[trigger] self.methods@[j].name@ != name@,
            decreases n - i,
        {
            if crate::text::str_equal(self.methods[i].name, name) {
                proof {
                    let k = i as int;
                    assert(0 <= k < self.methods@.len() && self.methods@[k].name@ == name@ && (
                    forall|j: int| 0 <= j < k ==> #[trigger] self.methods@[j].name@ != name@));
                    let c = choose|c: int|
                        0 <= c < self.methods@.len() && #[trigger] self.methods@[c].name@ == name@
                            && (forall|j: int|
                            0 <= j < c ==> #[trigger] self.methods@[j].name@ != name@);
                    if c < k {
                        assert(self.methods@[c].name@ != name@);
                    }
                    if k < c {
                        assert(self.methods@[k].name@ != name@);
                    }
                }
                return Some(&self.methods[i]);
            }
            i = i + 1;
        }
        None
    }
}

/// The kinds of `descriptors`, in order.
pub open spec fn kinds(descriptors: Seq<ComponentDescriptor>) -> Seq<ComponentKind> {
    descriptors.map_values(|d: ComponentDescriptor| d.kind)
}

/// The wire names of `descriptors`, in order.
pub open spec fn names(descriptors: Seq<ComponentDescriptor>) -> Seq<Seq<char>> {
    descriptors.map_values(|d: ComponentDescriptor| kind_name(d.kind))
}

/// Appending a descriptor appends its kind.
pub proof fn lemma_kinds_push(descriptors: Seq<ComponentDescriptor>, d: ComponentDescriptor)
    ensures
        kinds(descriptors.push(d)) == kinds(descriptors).push(d.kind),
        forall|k: ComponentKind|
            #[trigger] kinds(descriptors.push(d)).contains(k) <==> (kinds(descriptors).contains(k)
                || k == d.kind),
{
    let before = kinds(descriptors);
    let after = kinds(descriptors.push(d));
    assert(after =~= before.push(d.kind));
    assert forall|k: ComponentKind| after.contains(k) <==> (before.contains(k) || k == d.kind) by {
        if after.contains(k) {
            let i = choose|i: int| 0 <= i < after.len() && after[i] == k;
            if i < before.len() {
                assert(before[i] == k);
            }
        }
        if before.contains(k) {
            let i = choose|i: int| 0 <= i < before.len() && before[i] == k;
            assert(after[i] == k);
        }
        if k == d.kind {
            assert(after[before.len() as int] == k);
        }
    }
}

/// A registry that grew by one descriptor kept what it had and holds one
/// more kind.
pub proof fn lemma_grew_by_one(before: Seq<ComponentDescriptor>, after: Seq<ComponentDescriptor>)
    requires
        after.len() == before.len() + 1,
        after.take(before.len() as int) == before,
    ensures
        after == before.push(after[before.len() as int]),
        forall|k: ComponentKind|
            #[trigger] kinds(after).contains(k) <==> (kinds(before).contains(k)
                || k == after[before.len() as int].kind),
{
    assert(after =~= before.push(after[before.len() as int]));
    lemma_kinds_push(before, after[before.len() as int]);
}

/// The message a second registration of `kind` is refused with.
pub open spec fn duplicate_message(kind: ComponentKind) -> Seq<char> {
    "component `"@ + kind_name(kind) + "` is already registered"@
}

/// Descriptors added in registration order; each kind at most once.
pub struct ComponentRegistry {
    descriptors: Vec<ComponentDescriptor>,
}

impl View for ComponentRegistry {
    type V = Seq<ComponentDescriptor>;

    closed spec fn view(&self) -> Seq<ComponentDescriptor> {
        self.descriptors@
    }
}

impl ComponentRegistry {
    #[verifier::type_invariant]
    closed spec fn kinds_are_distinct(self) -> bool {
        kinds(self.descriptors@).no_duplicates()
    }

    /// An empty registry.
    pub fn new() -> (registry: Self)
        ensures
            registry@ == Seq::<ComponentDescriptor>::empty(),
    {
        let registry = ComponentRegistry { descriptors: Vec::new() };
        proof {
            assert(kinds(registry.descriptors@) =~= Seq::<ComponentKind>::empty());
        }
        registry
    }

    /// Whether a descriptor of `kind` has been registered.
    pub fn contains(&self, kind: ComponentKind) -> (b: bool)
        ensures
            b == kinds(self@).contains(kind),
    {
        let n = self.descriptors.len();
        let mut i: usize = 0;
        while i < n
            invariant
                n == self.descriptors@.len(),
                i <= n,
                forall|j: int| 0 <= j < i ==> #[trigger] self.descriptors@[j].kind != kind,
            decreases n - i,
        {
            if self.descriptors[i].kind == kind {
                proof {
                    assert(kinds(self@)[i as int] == kind);
                }
                return true;
            }
            i = i + 1;
        }
        proof {
            if kinds(self@).contains(kind) {
                let k = choose|k: int| 0 <= k < kinds(self@).len() && kinds(self@)[k] == kind;
                assert(self.descriptors@[k].kind == kind);
            }
        }
        false
    }

    /// Appends `descriptor` after the ones already registered, unless a
    /// descriptor of the same kind is registered already.
    pub fn register(&mut self, descriptor: ComponentDescriptor) -> (r: Result<(), String>)
        ensures
            r is Ok <==> !kinds(old(self)@).contains(descriptor.kind),
            r is Ok ==> final(self)@ == old(self)@.push(descriptor),
            r matches Err(message) ==> final(self)@ == old(self)@ && message@ == duplicate_message(
                descriptor.kind,
            ),
            kinds(final(self)@).no_duplicates(),
    {
        proof {
            use_type_invariant(&*self);
        }
        if self.contains(descriptor.kind) {
            let message = String::from_str("component `").concat(descriptor.kind.name()).concat(
                "` is already registered",
            );
            proof {
                assert(message@ =~= duplicate_message(descriptor.kind));
            }
            return Err(message);
        }
        let ghost before = self.descriptors@;
        let ghost kind = descriptor.kind;
        let mut descriptors = Vec::new();
        std::mem::swap(&mut descriptors, &mut self.descriptors);
        descriptors.push(descriptor);
        proof {
            assert(kinds(descriptors@) =~= kinds(before).push(kind));
            assert forall|i: int, j: int|
                0 <= i < kinds(descriptors@).len() && 0 <= j < kinds(descriptors@).len() && i
                    != j implies kinds(descriptors@)[i] != kinds(descriptors@)[j] by {
                if i == before.len() {
                    assert(kinds(before)[j] == kinds(descriptors@)[j]);
                } else if j == before.len() {
                    assert(kinds(before)[i] == kinds(descriptors@)[i]);
                }
            }
        }
        self.descriptors = descriptors;
        Ok(())
    }

    /// Stops registration; the frozen catalog keeps the registration order.
    pub fn freeze(self) -> (frozen: FrozenComponentRegistry)
        ensures
            frozen@ == self@,
            kinds(frozen@).no_duplicates(),
    {
        proof {
            use_type_invariant(&self);
        }
        FrozenComponentRegistry { descriptors: self.descriptors }
    }
}

/// The catalog after registration: descriptors in wire id order.
pub struct FrozenComponentRegistry {
    descriptors: Vec<ComponentDescriptor>,
}

impl View for FrozenComponentRegistry {
    type V = Seq<ComponentDescriptor>;

    closed spec fn view(&self) -> Seq<ComponentDescriptor> {
        self.descriptors@
    }
}

impl FrozenComponentRegistry {
    #[verifier::type_invariant]
    closed spec fn kinds_are_distinct(self) -> bool {
        kinds(self.descriptors@).no_duplicates()
    }

    /// The descriptors in wire id order.
    pub fn descriptors(&self) -> (d: &Vec<ComponentDescriptor>)
        ensures
            d@ == self@,
            kinds(d@).no_duplicates(),
    {
        proof {
            use_type_invariant(self);
        }
        &self.descriptors
    }

    /// The descriptor with wire id `id`.
    pub fn get(&self, id: usize) -> (d: Option<&ComponentDescriptor>)
        ensures
            id < self@.len() ==> d == Some(&self@[id as int]),
            id >= self@.len() ==> d is None,
    {
        if id < self.descriptors.len() {
            Some(&self.descriptors[id])
        } else {
            None
        }
    }

    /// The wire id of the descriptor of `kind`.
    pub fn id_of(&self, kind: ComponentKind) -> (id: Option<usize>)
        ensures
            match id {
                Some(i) => i < self@.len() && self@[i as int].kind == kind,
                None => !kinds(self@).contains(kind),
            },
    {
        let n = self.descriptors.len();
        let mut i: usize = 0;
        while i < n
            invariant
                n == self.descriptors@.len(),
                i <= n,
                forall|j: int| 0 <= j < i ==> #[trigger] self.descriptors@[j].kind != kind,
            decreases n - i,
        {
            if self.descriptors[i].kind == kind {
                return Some(i);
            }
            i = i + 1;
        }
        proof {
            if kinds(self@).contains(kind) {
                let k = choose|k: int| 0 <= k < kinds(self@).len() && kinds(self@)[k] == kind;
                assert(self.descriptors@[k].kind == kind);
            }
        }
        None
    }

    /// The descriptor whose wire name is `name` (the first one, were two to
    /// share it).
    pub fn find(&self, name: &str) -> (d: Option<&ComponentDescriptor>)
        ensures
            match d {
                Some(found) => exists|i: int|
                    0 <= i < self@.len() && self@[i] == *found && kind_name(found.kind) == name@
                        && forall|j: int| 0 <= j < i ==> #[trigger] names(self@)[j] != name@,
                None => !names(self@).contains(name@),
            },
    {
        let n = self.descriptors.len();
        let mut i: usize = 0;
        while i < n
            invariant
                n == self.descriptors@.len(),
                i <= n,
                forall|j: int|
                    0 <= j < i ==> kind_name(#[trigger] self.descriptors@[j].kind) != name@,
            decreases n - i,
        {
            if crate::text::str_equal(self.descriptors[i].name(), name) {
                proof {
                    assert(self@[i as int] == self.descriptors@[i as int]);
                    assert forall|j: int| 0 <= j < i implies #[trigger] names(self@)[j] != name@ by {
                        assert(names(self@)[j] == kind_name(self.descriptors@[j].kind));
                    }
                }
                return Some(&self.descriptors[i]);
            }
            i = i + 1;
        }
        proof {
            if names(self@).contains(name@) {
                let k = choose|k: int| 0 <= k < names(self@).len() && names(self@)[k] == name@;
                assert(kind_name(self.descriptors@[k].kind) == name@);
            }
        }
        None
    }
}

} // verus!
