//! The built-in component catalog: one module per component (or family of
//! components), and the registration of the catalog in wire id order.

pub mod accordion;
pub mod alert;
pub mod avatar;
pub mod badge;
pub mod breadcrumb;
pub mod button;
pub mod calendar;
pub mod canvas;
pub mod chat;
pub mod clipboard;
pub mod collapsible;
pub mod color_picker;
pub mod combobox;
pub mod command;
pub mod common;
pub mod context_menu;
pub mod data_table;
pub mod date_picker;
pub mod description_list;
pub mod div;
pub mod dropdown_button;
pub mod dropdown_menu;
pub mod editor;
pub mod entity_host;
pub mod form;
pub mod group_box;
pub mod hover_card;
pub mod icon;
pub mod image;
pub mod input;
pub mod input_events;
pub mod kbd;
pub mod label;
pub mod link;
pub mod list;
pub mod menu;
pub mod motion;
pub mod native_menu;
pub mod number_input;
pub mod otp_input;
pub mod pagination;
pub mod paint;
pub mod popover;
pub mod progress;
pub mod radio;
pub mod radio_group;
pub mod rating;
pub mod resizable;
pub mod scroll;
pub mod select;
pub mod separator;
pub mod settings;
pub mod sidebar;
pub mod skeleton;
pub mod slider;
pub mod spinner;
pub mod status_bar;
pub mod stepper;
pub mod tab_bar;
pub mod table;
pub mod tabs;
pub mod tag;
pub mod text;
pub mod textarea;
pub mod tooltip;

use vstd::prelude::*;
use crate::registry::{
    kinds, ComponentDescriptor, ComponentKind, ComponentRegistry, FrozenComponentRegistry,
};

verus! {

/// The kind of the component with wire id `id` in the built-in catalog.
pub open spec fn catalog_kind(id: int) -> ComponentKind {
    if id == 0 {
        ComponentKind::Div
    } else if id == 1 {
        ComponentKind::Text
    } else if id == 2 {
        ComponentKind::Button
    } else if id == 3 {
        ComponentKind::Label
    } else if id == 4 {
        ComponentKind::Badge
    } else if id == 5 {
        ComponentKind::Progress
    } else if id == 6 {
        ComponentKind::Combobox
    } else if id == 7 {
        ComponentKind::Radio
    } else if id == 8 {
        ComponentKind::Tabs
    } else if id == 9 {
        ComponentKind::Scroll
    } else if id == 10 {
        ComponentKind::Scrollbar
    } else if id == 11 {
        ComponentKind::Resizable
    } else if id == 12 {
        ComponentKind::Popover
    } else if id == 13 {
        ComponentKind::Spinner
    } else if id == 14 {
        ComponentKind::Separator
    } else if id == 15 {
        ComponentKind::Skeleton
    } else if id == 16 {
        ComponentKind::Tag
    } else if id == 17 {
        ComponentKind::Link
    } else if id == 18 {
        ComponentKind::Kbd
    } else if id == 19 {
        ComponentKind::Avatar
    } else if id == 20 {
        ComponentKind::Icon
    } else if id == 21 {
        ComponentKind::Collapsible
    } else if id == 22 {
        ComponentKind::Pagination
    } else if id == 23 {
        ComponentKind::Rating
    } else if id == 24 {
        ComponentKind::Clipboard
    } else if id == 25 {
        ComponentKind::Breadcrumb
    } else if id == 26 {
        ComponentKind::GroupBox
    } else if id == 27 {
        ComponentKind::StatusBar
    } else if id == 28 {
        ComponentKind::Alert
    } else if id == 29 {
        ComponentKind::Tooltip
    } else if id == 30 {
        ComponentKind::HoverCard
    } else if id == 31 {
        ComponentKind::DropdownMenu
    } else if id == 32 {
        ComponentKind::DropdownButton
    } else if id == 33 {
        ComponentKind::Tab
    } else if id == 34 {
        ComponentKind::TabBar
    } else if id == 35 {
        ComponentKind::List
    } else if id == 36 {
        ComponentKind::Select
    } else if id == 37 {
        ComponentKind::DataTable
    } else if id == 38 {
        ComponentKind::AccordionItem
    } else if id == 39 {
        ComponentKind::Accordion
    } else if id == 40 {
        ComponentKind::StepperItem
    } else if id == 41 {
        ComponentKind::Stepper
    } else if id == 42 {
        ComponentKind::DescriptionItem
    } else if id == 43 {
        ComponentKind::DescriptionList
    } else if id == 44 {
        ComponentKind::Field
    } else if id == 45 {
        ComponentKind::Form
    } else if id == 46 {
        ComponentKind::Input
    } else if id == 47 {
        ComponentKind::NumberInput
    } else if id == 48 {
        ComponentKind::Textarea
    } else if id == 49 {
        ComponentKind::OtpInput
    } else {
        ComponentKind::Slider
    }
}

/// The kinds of the built-in catalog, in wire id order.
pub open spec fn catalog_kinds() -> Seq<ComponentKind> {
    Seq::new(51, |id: int| catalog_kind(id))
}

/// The wire id of `kind` in the built-in catalog, `-1` for a kind it leaves out.
pub open spec fn catalog_position(kind: ComponentKind) -> int {
    match kind {
        ComponentKind::Div => 0,
        ComponentKind::Text => 1,
        ComponentKind::Button => 2,
        ComponentKind::Label => 3,
        ComponentKind::Badge => 4,
        ComponentKind::Progress => 5,
        ComponentKind::Combobox => 6,
        ComponentKind::Radio => 7,
        ComponentKind::Tabs => 8,
        ComponentKind::Scroll => 9,
        ComponentKind::Scrollbar => 10,
        ComponentKind::Resizable => 11,
        ComponentKind::Popover => 12,
        ComponentKind::Spinner => 13,
        ComponentKind::Avatar => 19,
        ComponentKind::Icon => 20,
        ComponentKind::GroupBox => 26,
        ComponentKind::Tooltip => 29,
        ComponentKind::HoverCard => 30,
        ComponentKind::Textarea => 48,
        ComponentKind::Separator => 14,
        ComponentKind::Skeleton => 15,
        ComponentKind::Tag => 16,
        ComponentKind::Link => 17,
        ComponentKind::Kbd => 18,
        ComponentKind::Collapsible => 21,
        ComponentKind::Pagination => 22,
        ComponentKind::Rating => 23,
        ComponentKind::Clipboard => 24,
        ComponentKind::Breadcrumb => 25,
        ComponentKind::StatusBar => 27,
        ComponentKind::Alert => 28,
        ComponentKind::DropdownMenu => 31,
        ComponentKind::DropdownButton => 32,
        ComponentKind::Tab => 33,
        ComponentKind::TabBar => 34,
        ComponentKind::List => 35,
        ComponentKind::Select => 36,
        ComponentKind::DataTable => 37,
        ComponentKind::AccordionItem => 38,
        ComponentKind::Accordion => 39,
        ComponentKind::StepperItem => 40,
        ComponentKind::Stepper => 41,
        ComponentKind::DescriptionItem => 42,
        ComponentKind::DescriptionList => 43,
        ComponentKind::Field => 44,
        ComponentKind::Form => 45,
        ComponentKind::Input => 46,
        ComponentKind::NumberInput => 47,
        ComponentKind::OtpInput => 49,
        ComponentKind::Slider => 50,
        ComponentKind::Editor => -1,
        ComponentKind::Canvas => -1,
        ComponentKind::Motion => -1,
        ComponentKind::Presence => -1,
        ComponentKind::PaintRect => -1,
        ComponentKind::PaintLine => -1,
        ComponentKind::PaintPath => -1,
        ComponentKind::PaintGradient => -1,
        ComponentKind::PaintShadow => -1,
        ComponentKind::HitRegion => -1,
        ComponentKind::PaintImage => -1,
        ComponentKind::Attachment => -1,
        ComponentKind::Bubble => -1,
        ComponentKind::Marker => -1,
        ComponentKind::Message => -1,
        ComponentKind::ShimmerText => -1,
        ComponentKind::MessageScroller => -1,
        ComponentKind::CommandItem => -1,
        ComponentKind::CommandGroup => -1,
        ComponentKind::CommandSeparator => -1,
        ComponentKind::Command => -1,
        ComponentKind::ContextMenuItem => -1,
        ComponentKind::ContextMenuSeparator => -1,
        ComponentKind::ContextMenu => -1,
        ComponentKind::NativeMenuItem => -1,
        ComponentKind::NativeMenuSeparator => -1,
        ComponentKind::NativeMenuTrigger => -1,
        ComponentKind::RadioGroup => -1,
        ComponentKind::SidebarMenuItem => -1,
        ComponentKind::SidebarMenu => -1,
        ComponentKind::SidebarHeader => -1,
        ComponentKind::SidebarFooter => -1,
        ComponentKind::Sidebar => -1,
        ComponentKind::SidebarToggleButton => -1,
        ComponentKind::SettingItem => -1,
        ComponentKind::SettingGroup => -1,
        ComponentKind::SettingPage => -1,
        ComponentKind::Settings => -1,
        ComponentKind::TableHeader => -1,
        ComponentKind::TableBody => -1,
        ComponentKind::TableFooter => -1,
        ComponentKind::TableRow => -1,
        ComponentKind::TableHead => -1,
        ComponentKind::TableCell => -1,
        ComponentKind::TableCaption => -1,
        ComponentKind::Table => -1,
        ComponentKind::Calendar => -1,
        ComponentKind::DatePicker => -1,
        ComponentKind::ColorPicker => -1,
        ComponentKind::MenuItem => -1,
        ComponentKind::MenuSeparator => -1,
        ComponentKind::Menu => -1,
        ComponentKind::MenuBar => -1,
        ComponentKind::Image => -1,
        ComponentKind::EntityHost => -1,
    }
}

/// Whether `d` is the built-in descriptor of its kind.
pub open spec fn is_builtin_descriptor(d: ComponentDescriptor) -> bool {
    match d.kind {
        ComponentKind::Div => div::is_div_descriptor(d),
        ComponentKind::Text => text::is_text_descriptor(d),
        ComponentKind::Button => button::is_button_descriptor(d),
        ComponentKind::Label => label::is_label_descriptor(d),
        ComponentKind::Badge => badge::is_badge_descriptor(d),
        ComponentKind::Progress => progress::is_progress_descriptor(d),
        ComponentKind::Combobox => combobox::is_combobox_descriptor(d),
        ComponentKind::Radio => radio::is_radio_descriptor(d),
        ComponentKind::Tabs => tabs::is_tabs_descriptor(d),
        ComponentKind::Scroll => scroll::is_scroll_descriptor(d),
        ComponentKind::Scrollbar => scroll::is_scrollbar_descriptor(d),
        ComponentKind::Resizable => resizable::is_resizable_descriptor(d),
        ComponentKind::Popover => popover::is_popover_descriptor(d),
        ComponentKind::Spinner => spinner::is_spinner_descriptor(d),
        ComponentKind::Avatar => avatar::is_avatar_descriptor(d),
        ComponentKind::Icon => icon::is_icon_descriptor(d),
        ComponentKind::GroupBox => group_box::is_group_box_descriptor(d),
        ComponentKind::Tooltip => tooltip::is_tooltip_descriptor(d),
        ComponentKind::HoverCard => hover_card::is_hover_card_descriptor(d),
        ComponentKind::Textarea => textarea::is_textarea_descriptor(d),
        ComponentKind::Separator => separator::is_separator_descriptor(d),
        ComponentKind::Skeleton => skeleton::is_skeleton_descriptor(d),
        ComponentKind::Tag => tag::is_tag_descriptor(d),
        ComponentKind::Link => link::is_link_descriptor(d),
        ComponentKind::Kbd => kbd::is_kbd_descriptor(d),
        ComponentKind::Collapsible => collapsible::is_collapsible_descriptor(d),
        ComponentKind::Pagination => pagination::is_pagination_descriptor(d),
        ComponentKind::Rating => rating::is_rating_descriptor(d),
        ComponentKind::Clipboard => clipboard::is_clipboard_descriptor(d),
        ComponentKind::Breadcrumb => breadcrumb::is_breadcrumb_descriptor(d),
        ComponentKind::StatusBar => status_bar::is_status_bar_descriptor(d),
        ComponentKind::Alert => alert::is_alert_descriptor(d),
        ComponentKind::DropdownMenu => dropdown_menu::is_dropdown_menu_descriptor(d),
        ComponentKind::DropdownButton => dropdown_button::is_dropdown_button_descriptor(d),
        ComponentKind::Tab => tab_bar::is_tab_descriptor(d),
        ComponentKind::TabBar => tab_bar::is_tab_bar_descriptor(d),
        ComponentKind::List => list::is_list_descriptor(d),
        ComponentKind::Select => select::is_select_descriptor(d),
        ComponentKind::DataTable => data_table::is_data_table_descriptor(d),
        ComponentKind::AccordionItem => accordion::is_accordion_item_descriptor(d),
        ComponentKind::Accordion => accordion::is_accordion_descriptor(d),
        ComponentKind::StepperItem => stepper::is_stepper_item_descriptor(d),
        ComponentKind::Stepper => stepper::is_stepper_descriptor(d),
        ComponentKind::DescriptionItem => description_list::is_description_item_descriptor(d),
        ComponentKind::DescriptionList => description_list::is_description_list_descriptor(d),
        ComponentKind::Field => form::is_field_descriptor(d),
        ComponentKind::Form => form::is_form_descriptor(d),
        ComponentKind::Input => input::is_input_descriptor(d),
        ComponentKind::NumberInput => number_input::is_number_input_descriptor(d),
        ComponentKind::OtpInput => otp_input::is_otp_input_descriptor(d),
        ComponentKind::Slider => slider::is_slider_descriptor(d),
        ComponentKind::Editor => editor::is_editor_descriptor(d),
        ComponentKind::Canvas => canvas::is_canvas_descriptor(d),
        ComponentKind::Motion => motion::is_motion_descriptor(d),
        ComponentKind::Presence => motion::is_presence_descriptor(d),
        ComponentKind::PaintRect => paint::is_paint_rect_descriptor(d),
        ComponentKind::PaintLine => paint::is_paint_line_descriptor(d),
        ComponentKind::PaintPath => paint::is_paint_path_descriptor(d),
        ComponentKind::PaintGradient => paint::is_paint_gradient_descriptor(d),
        ComponentKind::PaintShadow => paint::is_paint_shadow_descriptor(d),
        ComponentKind::HitRegion => paint::is_hit_region_descriptor(d),
        ComponentKind::PaintImage => paint::is_paint_image_descriptor(d),
        ComponentKind::Attachment => chat::is_attachment_descriptor(d),
        ComponentKind::Bubble => chat::is_bubble_descriptor(d),
        ComponentKind::Marker => chat::is_marker_descriptor(d),
        ComponentKind::Message => chat::is_message_descriptor(d),
        ComponentKind::ShimmerText => chat::is_shimmer_text_descriptor(d),
        ComponentKind::MessageScroller => chat::is_message_scroller_descriptor(d),
        ComponentKind::CommandItem => command::is_command_item_descriptor(d),
        ComponentKind::CommandGroup => command::is_command_group_descriptor(d),
        ComponentKind::CommandSeparator => command::is_command_separator_descriptor(d),
        ComponentKind::Command => command::is_command_descriptor(d),
        ComponentKind::ContextMenuItem => context_menu::is_context_menu_item_descriptor(d),
        ComponentKind::ContextMenuSeparator => context_menu::is_context_menu_separator_descriptor(d),
        ComponentKind::ContextMenu => context_menu::is_context_menu_descriptor(d),
        ComponentKind::NativeMenuItem => native_menu::is_native_menu_item_descriptor(d),
        ComponentKind::NativeMenuSeparator => native_menu::is_native_menu_separator_descriptor(d),
        ComponentKind::NativeMenuTrigger => native_menu::is_native_menu_trigger_descriptor(d),
        ComponentKind::RadioGroup => radio_group::is_radio_group_descriptor(d),
        ComponentKind::SidebarMenuItem => sidebar::is_sidebar_menu_item_descriptor(d),
        ComponentKind::SidebarMenu => sidebar::is_sidebar_menu_descriptor(d),
        ComponentKind::SidebarHeader => sidebar::is_sidebar_header_descriptor(d),
        ComponentKind::SidebarFooter => sidebar::is_sidebar_footer_descriptor(d),
        ComponentKind::Sidebar => sidebar::is_sidebar_descriptor(d),
        ComponentKind::SidebarToggleButton => sidebar::is_sidebar_toggle_button_descriptor(d),
        ComponentKind::SettingItem => settings::is_setting_item_descriptor(d),
        ComponentKind::SettingGroup => settings::is_setting_group_descriptor(d),
        ComponentKind::SettingPage => settings::is_setting_page_descriptor(d),
        ComponentKind::Settings => settings::is_settings_descriptor(d),
        ComponentKind::TableHeader => table::is_table_header_descriptor(d),
        ComponentKind::TableBody => table::is_table_body_descriptor(d),
        ComponentKind::TableFooter => table::is_table_footer_descriptor(d),
        ComponentKind::TableRow => table::is_table_row_descriptor(d),
        ComponentKind::TableHead => table::is_table_head_descriptor(d),
        ComponentKind::TableCell => table::is_table_cell_descriptor(d),
        ComponentKind::TableCaption => table::is_table_caption_descriptor(d),
        ComponentKind::Table => table::is_table_descriptor(d),
        ComponentKind::Calendar => calendar::is_calendar_descriptor(d),
        ComponentKind::DatePicker => date_picker::is_date_picker_descriptor(d),
        ComponentKind::ColorPicker => color_picker::is_color_picker_descriptor(d),
        ComponentKind::MenuItem => menu::is_menu_item_descriptor(d),
        ComponentKind::MenuSeparator => menu::is_menu_separator_descriptor(d),
        ComponentKind::Menu => menu::is_menu_descriptor(d),
        ComponentKind::MenuBar => menu::is_menu_bar_descriptor(d),
        ComponentKind::Image => image::is_image_descriptor(d),
        ComponentKind::EntityHost => entity_host::is_entity_host_descriptor(d),
    }
}

/// `cur` is `start` followed by the first `count` built-in components, in
/// wire id order.
#[verifier::opaque]
spec fn catalog_prefix(
    start: Seq<ComponentDescriptor>,
    cur: Seq<ComponentDescriptor>,
    count: int,
) -> bool {
    &&& 0 <= count <= catalog_kinds().len()
    &&& cur.len() == start.len() + count
    &&& cur.take(start.len() as int) == start
    &&& forall|i: int|
        start.len() <= i < cur.len() ==> #[trigger] cur[i].kind == catalog_kind(i - start.len())
            && is_builtin_descriptor(cur[i])
}

/// Each wire id of the catalog names a kind whose position is that id.
proof fn lemma_catalog_position(id: int)
    requires
        0 <= id < catalog_kinds().len(),
    ensures
        catalog_position(catalog_kind(id)) == id,
{
}

/// While the catalog is being registered after `start`, the kinds still to
/// come are not registered yet.
proof fn lemma_catalog_absent(
    start: Seq<ComponentDescriptor>,
    cur: Seq<ComponentDescriptor>,
    count: int,
    id: int,
)
    requires
        catalog_prefix(start, cur, count),
        count <= id < catalog_kinds().len(),
        forall|k: ComponentKind| catalog_kinds().contains(k) ==> !kinds(start).contains(k),
    ensures
        !kinds(cur).contains(catalog_kind(id)),
{
    reveal(catalog_prefix);
    if kinds(cur).contains(catalog_kind(id)) {
        let p = choose|p: int| 0 <= p < kinds(cur).len() && kinds(cur)[p] == catalog_kind(id);
        if p < start.len() {
            assert(cur.take(start.len() as int)[p] == cur[p]);
            assert(kinds(start)[p] == catalog_kind(id));
            assert(catalog_kinds()[id] == catalog_kind(id));
            assert(catalog_kinds().contains(catalog_kind(id)));
            assert(kinds(start).contains(catalog_kind(id)));
            assert(false);
        } else {
            assert(kinds(cur)[p] == cur[p].kind);
            assert(cur[p].kind == catalog_kind(p - start.len()));
            lemma_catalog_position(p - start.len());
            lemma_catalog_position(id);
            assert(false);
        }
    }
}

/// Registering the next `added` built-in components extends the prefix.
proof fn lemma_catalog_step(
    start: Seq<ComponentDescriptor>,
    before: Seq<ComponentDescriptor>,
    after: Seq<ComponentDescriptor>,
    count: int,
    added: int,
)
    requires
        catalog_prefix(start, before, count),
        0 <= added,
        count + added <= catalog_kinds().len(),
        after.len() == before.len() + added,
        after.take(before.len() as int) == before,
        forall|i: int|
            before.len() <= i < after.len() ==> #[trigger] after[i].kind == catalog_kind(
                count + i - before.len(),
            ) && is_builtin_descriptor(after[i]),
    ensures
        catalog_prefix(start, after, count + added),
{
    reveal(catalog_prefix);
    assert(after.take(start.len() as int) =~= start) by {
        assert forall|i: int| 0 <= i < start.len() implies after[i] == start[i] by {
            assert(after.take(before.len() as int)[i] == after[i]);
            assert(before.take(start.len() as int)[i] == before[i]);
        }
    }
    assert forall|i: int| start.len() <= i < after.len() implies #[trigger] after[i].kind
        == catalog_kind(i - start.len()) && is_builtin_descriptor(after[i]) by {
        if i < before.len() {
            assert(after.take(before.len() as int)[i] == after[i]);
            assert(before[i].kind == catalog_kind(i - start.len()));
        }
    }
}

/// Nothing of the catalog is registered after `start` yet.
proof fn lemma_catalog_start(start: Seq<ComponentDescriptor>)
    ensures
        catalog_prefix(start, start, 0),
{
    reveal(catalog_prefix);
    assert(start.take(start.len() as int) =~= start);
}

/// The whole catalog registered after `start`, in wire id order.
proof fn lemma_catalog_done(start: Seq<ComponentDescriptor>, done: Seq<ComponentDescriptor>)
    requires
        catalog_prefix(start, done, catalog_kinds().len() as int),
    ensures
        done.len() == start.len() + catalog_kinds().len(),
        done.take(start.len() as int) == start,
        kinds(done.skip(start.len() as int)) == catalog_kinds(),
        forall|i: int| start.len() <= i < done.len() ==> is_builtin_descriptor(#[trigger] done[i]),
{
    reveal(catalog_prefix);
    assert(kinds(done.skip(start.len() as int)) =~= catalog_kinds()) by {
        assert forall|i: int| 0 <= i < catalog_kinds().len() implies kinds(
            done.skip(start.len() as int),
        )[i] == catalog_kinds()[i] by {
            assert(done[start.len() + i].kind == catalog_kind(i));
        }
    }
}

/// Registers the catalog from `Div` through `Tabs`, wire ids 0 to 8.
fn register_div_to_tabs(
    registry: &mut ComponentRegistry,
    Ghost(start): Ghost<Seq<ComponentDescriptor>>,
)
    requires
        catalog_prefix(start, old(registry)@, 0),
        forall|k: ComponentKind| catalog_kinds().contains(k) ==> !kinds(start).contains(k),
    ensures
        catalog_prefix(start, final(registry)@, 9),
{
    proof {
        lemma_catalog_absent(start, registry@, 0, 0);
    }
    let ghost before = registry@;
    div::register(registry);
    proof {
        lemma_catalog_step(start, before, registry@, 0, 1);
    }
    proof {
        lemma_catalog_absent(start, registry@, 1, 1);
    }
    let ghost before = registry@;
    text::register(registry);
    proof {
        lemma_catalog_step(start, before, registry@, 1, 1);
    }
    proof {
        lemma_catalog_absent(start, registry@, 2, 2);
    }
    let ghost before = registry@;
    button::register(registry);
    proof {
        lemma_catalog_step(start, before, registry@, 2, 1);
    }
    proof {
        lemma_catalog_absent(start, registry@, 3, 3);
    }
    let ghost before = registry@;
    label::register(registry);
    proof {
        lemma_catalog_step(start, before, registry@, 3, 1);
    }
    proof {
        lemma_catalog_absent(start, registry@, 4, 4);
    }
    let ghost before = registry@;
    badge::register(registry);
    proof {
        lemma_catalog_step(start, before, registry@, 4, 1);
    }
    proof {
        lemma_catalog_absent(start, registry@, 5, 5);
    }
    let ghost before = registry@;
    progress::register(registry);
    proof {
        lemma_catalog_step(start, before, registry@, 5, 1);
    }
    proof {
        lemma_catalog_absent(start, registry@, 6, 6);
    }
    let ghost before = registry@;
    combobox::register(registry);
    proof {
        lemma_catalog_step(start, before, registry@, 6, 1);
    }
    proof {
        lemma_catalog_absent(start, registry@, 7, 7);
    }
    let ghost before = registry@;
    radio::register(registry);
    proof {
        lemma_catalog_step(start, before, registry@, 7, 1);
    }
    proof {
        lemma_catalog_absent(start, registry@, 8, 8);
    }
    let ghost before = registry@;
    tabs::register(registry);
    proof {
        lemma_catalog_step(start, before, registry@, 8, 1);
    }
}

/// Registers the catalog from `Scroll` through `Kbd`, wire ids 9 to 18.
fn register_scroll_to_kbd(
    registry: &mut ComponentRegistry,
    Ghost(start): Ghost<Seq<ComponentDescriptor>>,
)
    requires
        catalog_prefix(start, old(registry)@, 9),
        forall|k: ComponentKind| catalog_kinds().contains(k) ==> !kinds(start).contains(k),
    ensures
        catalog_prefix(start, final(registry)@, 19),
{
    proof {
        lemma_catalog_absent(start, registry@, 9, 9);
        lemma_catalog_absent(start, registry@, 9, 10);
    }
    let ghost before = registry@;
    scroll::register(registry);
    proof {
        lemma_catalog_step(start, before, registry@, 9, 2);
    }
    proof {
        lemma_catalog_absent(start, registry@, 11, 11);
    }
    let ghost before = registry@;
    resizable::register(registry);
    proof {
        lemma_catalog_step(start, before, registry@, 11, 1);
    }
    proof {
        lemma_catalog_absent(start, registry@, 12, 12);
    }
    let ghost before = registry@;
    popover::register(registry);
    proof {
        lemma_catalog_step(start, before, registry@, 12, 1);
    }
    proof {
        lemma_catalog_absent(start, registry@, 13, 13);
    }
    let ghost before = registry@;
    spinner::register(registry);
    proof {
        lemma_catalog_step(start, before, registry@, 13, 1);
    }
    proof {
        lemma_catalog_absent(start, registry@, 14, 14);
    }
    let ghost before = registry@;
    separator::register(registry);
    proof {
        lemma_catalog_step(start, before, registry@, 14, 1);
    }
    proof {
        lemma_catalog_absent(start, registry@, 15, 15);
    }
    let ghost before = registry@;
    skeleton::register(registry);
    proof {
        lemma_catalog_step(start, before, registry@, 15, 1);
    }
    proof {
        lemma_catalog_absent(start, registry@, 16, 16);
    }
    let ghost before = registry@;
    tag::register(registry);
    proof {
        lemma_catalog_step(start, before, registry@, 16, 1);
    }
    proof {
        lemma_catalog_absent(start, registry@, 17, 17);
    }
    let ghost before = registry@;
    link::register(registry);
    proof {
        lemma_catalog_step(start, before, registry@, 17, 1);
    }
    proof {
        lemma_catalog_absent(start, registry@, 18, 18);
    }
    let ghost before = registry@;
    kbd::register(registry);
    proof {
        lemma_catalog_step(start, before, registry@, 18, 1);
    }
}

/// Registers the catalog from `Avatar` through `StatusBar`, wire ids 19 to 27.
fn register_avatar_to_status_bar(
    registry: &mut ComponentRegistry,
    Ghost(start): Ghost<Seq<ComponentDescriptor>>,
)
    requires
        catalog_prefix(start, old(registry)@, 19),
        forall|k: ComponentKind| catalog_kinds().contains(k) ==> !kinds(start).contains(k),
    ensures
        catalog_prefix(start, final(registry)@, 28),
{
    proof {
        lemma_catalog_absent(start, registry@, 19, 19);
    }
    let ghost before = registry@;
    avatar::register(registry);
    proof {
        lemma_catalog_step(start, before, registry@, 19, 1);
    }
    proof {
        lemma_catalog_absent(start, registry@, 20, 20);
    }
    let ghost before = registry@;
    icon::register(registry);
    proof {
        lemma_catalog_step(start, before, registry@, 20, 1);
    }
    proof {
        lemma_catalog_absent(start, registry@, 21, 21);
    }
    let ghost before = registry@;
    collapsible::register(registry);
    proof {
        lemma_catalog_step(start, before, registry@, 21, 1);
    }
    proof {
        lemma_catalog_absent(start, registry@, 22, 22);
    }
    let ghost before = registry@;
    pagination::register(registry);
    proof {
        lemma_catalog_step(start, before, registry@, 22, 1);
    }
    proof {
        lemma_catalog_absent(start, registry@, 23, 23);
    }
    let ghost before = registry@;
    rating::register(registry);
    proof {
        lemma_catalog_step(start, before, registry@, 23, 1);
    }
    proof {
        lemma_catalog_absent(start, registry@, 24, 24);
    }
    let ghost before = registry@;
    clipboard::register(registry);
    proof {
        lemma_catalog_step(start, before, registry@, 24, 1);
    }
    proof {
        lemma_catalog_absent(start, registry@, 25, 25);
    }
    let ghost before = registry@;
    breadcrumb::register(registry);
    proof {
        lemma_catalog_step(start, before, registry@, 25, 1);
    }
    proof {
        lemma_catalog_absent(start, registry@, 26, 26);
    }
    let ghost before = registry@;
    group_box::register(registry);
    proof {
        lemma_catalog_step(start, before, registry@, 26, 1);
    }
    proof {
        lemma_catalog_absent(start, registry@, 27, 27);
    }
    let ghost before = registry@;
    status_bar::register(registry);
    proof {
        lemma_catalog_step(start, before, registry@, 27, 1);
    }
}

/// Registers the catalog from `Alert` through `DataTable`, wire ids 28 to 37.
fn register_alert_to_data_table(
    registry: &mut ComponentRegistry,
    Ghost(start): Ghost<Seq<ComponentDescriptor>>,
)
    requires
        catalog_prefix(start, old(registry)@, 28),
        forall|k: ComponentKind| catalog_kinds().contains(k) ==> !kinds(start).contains(k),
    ensures
        catalog_prefix(start, final(registry)@, 38),
{
    proof {
        lemma_catalog_absent(start, registry@, 28, 28);
    }
    let ghost before = registry@;
    alert::register(registry);
    proof {
        lemma_catalog_step(start, before, registry@, 28, 1);
    }
    proof {
        lemma_catalog_absent(start, registry@, 29, 29);
    }
    let ghost before = registry@;
    tooltip::register(registry);
    proof {
        lemma_catalog_step(start, before, registry@, 29, 1);
    }
    proof {
        lemma_catalog_absent(start, registry@, 30, 30);
    }
    let ghost before = registry@;
    hover_card::register(registry);
    proof {
        lemma_catalog_step(start, before, registry@, 30, 1);
    }
    proof {
        lemma_catalog_absent(start, registry@, 31, 31);
    }
    let ghost before = registry@;
    dropdown_menu::register(registry);
    proof {
        lemma_catalog_step(start, before, registry@, 31, 1);
    }
    proof {
        lemma_catalog_absent(start, registry@, 32, 32);
    }
    let ghost before = registry@;
    dropdown_button::register(registry);
    proof {
        lemma_catalog_step(start, before, registry@, 32, 1);
    }
    proof {
        lemma_catalog_absent(start, registry@, 33, 33);
        lemma_catalog_absent(start, registry@, 33, 34);
    }
    let ghost before = registry@;
    tab_bar::register(registry);
    proof {
        lemma_catalog_step(start, before, registry@, 33, 2);
    }
    proof {
        lemma_catalog_absent(start, registry@, 35, 35);
    }
    let ghost before = registry@;
    list::register(registry);
    proof {
        lemma_catalog_step(start, before, registry@, 35, 1);
    }
    proof {
        lemma_catalog_absent(start, registry@, 36, 36);
    }
    let ghost before = registry@;
    select::register(registry);
    proof {
        lemma_catalog_step(start, before, registry@, 36, 1);
    }
    proof {
        lemma_catalog_absent(start, registry@, 37, 37);
    }
    let ghost before = registry@;
    data_table::register(registry);
    proof {
        lemma_catalog_step(start, before, registry@, 37, 1);
    }
}

/// Registers the catalog from `AccordionItem` through `Slider`, wire ids 38 to 50.
fn register_accordion_to_slider(
    registry: &mut ComponentRegistry,
    Ghost(start): Ghost<Seq<ComponentDescriptor>>,
)
    requires
        catalog_prefix(start, old(registry)@, 38),
        forall|k: ComponentKind| catalog_kinds().contains(k) ==> !kinds(start).contains(k),
    ensures
        catalog_prefix(start, final(registry)@, 51),
{
    proof {
        lemma_catalog_absent(start, registry@, 38, 38);
        lemma_catalog_absent(start, registry@, 38, 39);
    }
    let ghost before = registry@;
    accordion::register(registry);
    proof {
        lemma_catalog_step(start, before, registry@, 38, 2);
    }
    proof {
        lemma_catalog_absent(start, registry@, 40, 40);
        lemma_catalog_absent(start, registry@, 40, 41);
    }
    let ghost before = registry@;
    stepper::register(registry);
    proof {
        lemma_catalog_step(start, before, registry@, 40, 2);
    }
    proof {
        lemma_catalog_absent(start, registry@, 42, 42);
        lemma_catalog_absent(start, registry@, 42, 43);
    }
    let ghost before = registry@;
    description_list::register(registry);
    proof {
        lemma_catalog_step(start, before, registry@, 42, 2);
    }
    proof {
        lemma_catalog_absent(start, registry@, 44, 44);
        lemma_catalog_absent(start, registry@, 44, 45);
    }
    let ghost before = registry@;
    form::register(registry);
    proof {
        lemma_catalog_step(start, before, registry@, 44, 2);
    }
    proof {
        lemma_catalog_absent(start, registry@, 46, 46);
    }
    let ghost before = registry@;
    input::register(registry);
    proof {
        lemma_catalog_step(start, before, registry@, 46, 1);
    }
    proof {
        lemma_catalog_absent(start, registry@, 47, 47);
    }
    let ghost before = registry@;
    number_input::register(registry);
    proof {
        lemma_catalog_step(start, before, registry@, 47, 1);
    }
    proof {
        lemma_catalog_absent(start, registry@, 48, 48);
    }
    let ghost before = registry@;
    textarea::register(registry);
    proof {
        lemma_catalog_step(start, before, registry@, 48, 1);
    }
    proof {
        lemma_catalog_absent(start, registry@, 49, 49);
    }
    let ghost before = registry@;
    otp_input::register(registry);
    proof {
        lemma_catalog_step(start, before, registry@, 49, 1);
    }
    proof {
        lemma_catalog_absent(start, registry@, 50, 50);
    }
    let ghost before = registry@;
    slider::register(registry);
    proof {
        lemma_catalog_step(start, before, registry@, 50, 1);
    }
}


/// Registers every built-in component after the components already
/// registered. The order is the wire id order.
pub fn register(registry: &mut ComponentRegistry)
    requires
        forall|k: ComponentKind|
            catalog_kinds().contains(k) ==> !kinds(old(registry)@).contains(k),
    ensures
        final(registry)@.len() == old(registry)@.len() + catalog_kinds().len(),
        final(registry)@.take(old(registry)@.len() as int) == old(registry)@,
        kinds(final(registry)@.skip(old(registry)@.len() as int)) == catalog_kinds(),
        forall|i: int|
            old(registry)@.len() <= i < final(registry)@.len() ==> is_builtin_descriptor(
                #[trigger] final(registry)@[i],
            ),
{
    let ghost start = registry@;
    proof {
        lemma_catalog_start(start);
    }
    register_div_to_tabs(registry, Ghost(start));
    register_scroll_to_kbd(registry, Ghost(start));
    register_avatar_to_status_bar(registry, Ghost(start));
    register_alert_to_data_table(registry, Ghost(start));
    register_accordion_to_slider(registry, Ghost(start));
    proof {
        lemma_catalog_done(start, registry@);
    }
}

/// Builds and freezes the built-in catalog.
pub fn catalog() -> (frozen: FrozenComponentRegistry)
    ensures
        kinds(frozen@) == catalog_kinds(),
        forall|i: int| 0 <= i < frozen@.len() ==> is_builtin_descriptor(#[trigger] frozen@[i]),
{
    let mut registry = ComponentRegistry::new();
    proof {
        assert(kinds(registry@) =~= Seq::<ComponentKind>::empty());
    }
    register(&mut registry);
    proof {
        assert(registry@.skip(0) =~= registry@);
    }
    registry.freeze()
}

} // verus!
