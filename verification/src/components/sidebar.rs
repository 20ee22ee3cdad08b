//! The application `Sidebar`, its menu, items, header and footer, and the `SidebarToggleButton`.

use vstd::prelude::*;
use crate::registry::{
    constructor_table, kinds, lemma_kinds_push, method_table, ArgumentDescriptor, ArgumentSchema,
    ComponentDescriptor, ComponentKind, ComponentRegistry, ConstructorDescriptor, ConstructorRow,
    MethodDescriptor, MethodRow,
};
use crate::rules::{ChoiceList, ConstructorRule, MethodRule};

verus! {

/// The constructors of `SidebarMenuItem`: export name, argument slots and rule.
#[verifier::opaque]
pub open spec fn sidebar_menu_item_constructors() -> Seq<ConstructorRow> {
    seq![
        (
            "SidebarMenuItem"@,
            seq![("label"@, ArgumentSchema::String)],
            ConstructorRule::NonEmptyOnly {
                error: "SidebarMenuItem(label) expects a non-empty string",
            },
        ),
    ]
}

/// The methods of `SidebarMenuItem`: name, argument slots, rule and documentation.
#[verifier::opaque]
pub open spec fn sidebar_menu_item_methods() -> Seq<MethodRow> {
    seq![
        (
            "default_open"@,
            seq![("default_open"@, ArgumentSchema::Boolean)],
            MethodRule::Flag {
                error: "SidebarMenuItem.default_open expects one boolean",
                arity: "SidebarMenuItem.default_open expects one boolean",
            },
            "Sets the initial submenu disclosure state."@,
        ),
        (
            "click_to_open"@,
            seq![("click_to_open"@, ArgumentSchema::Boolean)],
            MethodRule::Flag {
                error: "SidebarMenuItem.click_to_open expects one boolean",
                arity: "SidebarMenuItem.click_to_open expects one boolean",
            },
            "Lets a row click open its submenu."@,
        ),
        (
            "click_to_toggle"@,
            seq![("click_to_toggle"@, ArgumentSchema::Boolean)],
            MethodRule::Flag {
                error: "SidebarMenuItem.click_to_toggle expects one boolean",
                arity: "SidebarMenuItem.click_to_toggle expects one boolean",
            },
            "Lets a row click toggle its submenu."@,
        ),
        (
            "icon"@,
            seq![("icon"@, ArgumentSchema::Enum(ChoiceList::SidebarIcon))],
            MethodRule::Choice {
                list: ChoiceList::SidebarIcon,
                any_text: false,
                unsupported: "unsupported SidebarMenuItem icon `",
                echo: true,
                error: "SidebarMenuItem.icon expects one icon name",
                arity: "SidebarMenuItem.icon expects one icon name",
            },
            "Sets the navigation icon."@,
        ),
    ]
}

/// Whether `d` is the `SidebarMenuItem` descriptor: its constructors, methods and documentation.
pub open spec fn is_sidebar_menu_item_descriptor(d: ComponentDescriptor) -> bool {
    &&& d.kind == ComponentKind::SidebarMenuItem
    &&& d.documentation@ == "A typed navigation row accepted by SidebarMenu. Shell style is unsupported."@
    &&& constructor_table(d.constructors@) == sidebar_menu_item_constructors()
    &&& method_table(d.methods@) == sidebar_menu_item_methods()
}

fn sidebar_menu_item_descriptor() -> (d: ComponentDescriptor)
    ensures
        is_sidebar_menu_item_descriptor(d),
{
    let d = ComponentDescriptor::new(ComponentKind::SidebarMenuItem)
        .with_constructors(
            vec![
                ConstructorDescriptor::new(
                    "SidebarMenuItem",
                    vec![ArgumentDescriptor::new("label", ArgumentSchema::String)],
                    ConstructorRule::NonEmptyOnly {
                        error: "SidebarMenuItem(label) expects a non-empty string",
                    },
                ),
            ],
        )
        .with_methods(
            vec![
                MethodDescriptor::new(
                    "default_open",
                    vec![ArgumentDescriptor::new("default_open", ArgumentSchema::Boolean)],
                    MethodRule::Flag {
                        error: "SidebarMenuItem.default_open expects one boolean",
                        arity: "SidebarMenuItem.default_open expects one boolean",
                    },
                ).with_documentation("Sets the initial submenu disclosure state."),
                MethodDescriptor::new(
                    "click_to_open",
                    vec![ArgumentDescriptor::new("click_to_open", ArgumentSchema::Boolean)],
                    MethodRule::Flag {
                        error: "SidebarMenuItem.click_to_open expects one boolean",
                        arity: "SidebarMenuItem.click_to_open expects one boolean",
                    },
                ).with_documentation("Lets a row click open its submenu."),
                MethodDescriptor::new(
                    "click_to_toggle",
                    vec![ArgumentDescriptor::new("click_to_toggle", ArgumentSchema::Boolean)],
                    MethodRule::Flag {
                        error: "SidebarMenuItem.click_to_toggle expects one boolean",
                        arity: "SidebarMenuItem.click_to_toggle expects one boolean",
                    },
                ).with_documentation("Lets a row click toggle its submenu."),
                MethodDescriptor::new(
                    "icon",
                    vec![
                        ArgumentDescriptor::new(
                            "icon",
                            ArgumentSchema::Enum(ChoiceList::SidebarIcon),
                        ),
                    ],
                    MethodRule::Choice {
                        list: ChoiceList::SidebarIcon,
                        any_text: false,
                        unsupported: "unsupported SidebarMenuItem icon `",
                        echo: true,
                        error: "SidebarMenuItem.icon expects one icon name",
                        arity: "SidebarMenuItem.icon expects one icon name",
                    },
                ).with_documentation("Sets the navigation icon."),
            ],
        )
        .with_documentation(
            "A typed navigation row accepted by SidebarMenu. Shell style is unsupported.",
        );
    proof {
        reveal(sidebar_menu_item_constructors);
        assert(constructor_table(d.constructors@) =~~= sidebar_menu_item_constructors());
        reveal(sidebar_menu_item_methods);
        assert(method_table(d.methods@) =~~= sidebar_menu_item_methods());
    }
    d
}

/// The constructors of `SidebarMenu`: export name, argument slots and rule.
#[verifier::opaque]
pub open spec fn sidebar_menu_constructors() -> Seq<ConstructorRow> {
    seq![("SidebarMenu"@, seq![], ConstructorRule::Unit)]
}

/// Whether `d` is the `SidebarMenu` descriptor: its constructors, methods and documentation.
pub open spec fn is_sidebar_menu_descriptor(d: ComponentDescriptor) -> bool {
    &&& d.kind == ComponentKind::SidebarMenu
    &&& d.documentation@ == "A typed Sidebar menu accepting SidebarMenuItem children."@
    &&& constructor_table(d.constructors@) == sidebar_menu_constructors()
    &&& d.methods@.len() == 0
}

fn sidebar_menu_descriptor() -> (d: ComponentDescriptor)
    ensures
        is_sidebar_menu_descriptor(d),
{
    let d = ComponentDescriptor::new(ComponentKind::SidebarMenu)
        .with_constructors(
            vec![ConstructorDescriptor::new("SidebarMenu", Vec::new(), ConstructorRule::Unit)],
        )
        .with_documentation("A typed Sidebar menu accepting SidebarMenuItem children.");
    proof {
        reveal(sidebar_menu_constructors);
        assert(constructor_table(d.constructors@) =~~= sidebar_menu_constructors());
    }
    d
}

/// The constructors of `SidebarHeader`: export name, argument slots and rule.
#[verifier::opaque]
pub open spec fn sidebar_header_constructors() -> Seq<ConstructorRow> {
    seq![("SidebarHeader"@, seq![], ConstructorRule::Unit)]
}

/// Whether `d` is the `SidebarHeader` descriptor: its constructors, methods and documentation.
pub open spec fn is_sidebar_header_descriptor(d: ComponentDescriptor) -> bool {
    &&& d.kind == ComponentKind::SidebarHeader
    &&& d.documentation@ == "A styled sidebar header accepting ordinary children."@
    &&& constructor_table(d.constructors@) == sidebar_header_constructors()
    &&& d.methods@.len() == 0
}

fn sidebar_header_descriptor() -> (d: ComponentDescriptor)
    ensures
        is_sidebar_header_descriptor(d),
{
    let d = ComponentDescriptor::new(ComponentKind::SidebarHeader)
        .with_constructors(
            vec![ConstructorDescriptor::new("SidebarHeader", Vec::new(), ConstructorRule::Unit)],
        )
        .with_documentation("A styled sidebar header accepting ordinary children.");
    proof {
        reveal(sidebar_header_constructors);
        assert(constructor_table(d.constructors@) =~~= sidebar_header_constructors());
    }
    d
}

/// The constructors of `SidebarFooter`: export name, argument slots and rule.
#[verifier::opaque]
pub open spec fn sidebar_footer_constructors() -> Seq<ConstructorRow> {
    seq![("SidebarFooter"@, seq![], ConstructorRule::Unit)]
}

/// Whether `d` is the `SidebarFooter` descriptor: its constructors, methods and documentation.
pub open spec fn is_sidebar_footer_descriptor(d: ComponentDescriptor) -> bool {
    &&& d.kind == ComponentKind::SidebarFooter
    &&& d.documentation@ == "A styled sidebar footer accepting ordinary children."@
    &&& constructor_table(d.constructors@) == sidebar_footer_constructors()
    &&& d.methods@.len() == 0
}

fn sidebar_footer_descriptor() -> (d: ComponentDescriptor)
    ensures
        is_sidebar_footer_descriptor(d),
{
    let d = ComponentDescriptor::new(ComponentKind::SidebarFooter)
        .with_constructors(
            vec![ConstructorDescriptor::new("SidebarFooter", Vec::new(), ConstructorRule::Unit)],
        )
        .with_documentation("A styled sidebar footer accepting ordinary children.");
    proof {
        reveal(sidebar_footer_constructors);
        assert(constructor_table(d.constructors@) =~~= sidebar_footer_constructors());
    }
    d
}

/// The constructors of `Sidebar`: export name, argument slots and rule.
#[verifier::opaque]
pub open spec fn sidebar_constructors() -> Seq<ConstructorRow> {
    seq![
        (
            "Sidebar"@,
            seq![("id"@, ArgumentSchema::String)],
            ConstructorRule::NonBlank {
                component: "Sidebar",
                error: "Sidebar(id) expects a string id",
            },
        ),
    ]
}

/// The methods of `Sidebar`: name, argument slots, rule and documentation.
#[verifier::opaque]
pub open spec fn sidebar_methods() -> Seq<MethodRow> {
    seq![
        (
            "side"@,
            seq![("side"@, ArgumentSchema::Enum(ChoiceList::Side))],
            MethodRule::Choice {
                list: ChoiceList::Side,
                any_text: false,
                unsupported: "unsupported Sidebar side `",
                echo: true,
                error: "Sidebar.side expects `left` or `right`",
                arity: "Sidebar.side expects `left` or `right`",
            },
            "Sets the physical side occupied by the sidebar control."@,
        ),
        (
            "collapsible"@,
            seq![("mode"@, ArgumentSchema::Enum(ChoiceList::SidebarCollapsible))],
            MethodRule::Choice {
                list: ChoiceList::SidebarCollapsible,
                any_text: false,
                unsupported: "unsupported Sidebar collapsible mode `",
                echo: true,
                error: "Sidebar.collapsible expects `icon`, `offcanvas`, or `none`",
                arity: "Sidebar.collapsible expects `icon`, `offcanvas`, or `none`",
            },
            "Sets the sidebar collapse behavior."@,
        ),
        (
            "collapsed"@,
            seq![("collapsed"@, ArgumentSchema::Boolean)],
            MethodRule::Flag {
                error: "Sidebar.collapsed expects one boolean",
                arity: "Sidebar.collapsed expects one boolean",
            },
            "Sets the controlled collapsed state."@,
        ),
    ]
}

/// Whether `d` is the `Sidebar` descriptor: its constructors, methods and documentation.
pub open spec fn is_sidebar_descriptor(d: ComponentDescriptor) -> bool {
    &&& d.kind == ComponentKind::Sidebar
    &&& d.documentation@ == "A typed application sidebar accepting SidebarMenu children and named header/footer slots."@
    &&& constructor_table(d.constructors@) == sidebar_constructors()
    &&& method_table(d.methods@) == sidebar_methods()
}

fn sidebar_descriptor() -> (d: ComponentDescriptor)
    ensures
        is_sidebar_descriptor(d),
{
    let d = ComponentDescriptor::new(ComponentKind::Sidebar)
        .with_constructors(
            vec![
                ConstructorDescriptor::new(
                    "Sidebar",
                    vec![ArgumentDescriptor::new("id", ArgumentSchema::String)],
                    ConstructorRule::NonBlank {
                        component: "Sidebar",
                        error: "Sidebar(id) expects a string id",
                    },
                ),
            ],
        )
        .with_methods(
            vec![
                MethodDescriptor::new(
                    "side",
                    vec![ArgumentDescriptor::new("side", ArgumentSchema::Enum(ChoiceList::Side))],
                    MethodRule::Choice {
                        list: ChoiceList::Side,
                        any_text: false,
                        unsupported: "unsupported Sidebar side `",
                        echo: true,
                        error: "Sidebar.side expects `left` or `right`",
                        arity: "Sidebar.side expects `left` or `right`",
                    },
                ).with_documentation("Sets the physical side occupied by the sidebar control."),
                MethodDescriptor::new(
                    "collapsible",
                    vec![
                        ArgumentDescriptor::new(
                            "mode",
                            ArgumentSchema::Enum(ChoiceList::SidebarCollapsible),
                        ),
                    ],
                    MethodRule::Choice {
                        list: ChoiceList::SidebarCollapsible,
                        any_text: false,
                        unsupported: "unsupported Sidebar collapsible mode `",
                        echo: true,
                        error: "Sidebar.collapsible expects `icon`, `offcanvas`, or `none`",
                        arity: "Sidebar.collapsible expects `icon`, `offcanvas`, or `none`",
                    },
                ).with_documentation("Sets the sidebar collapse behavior."),
                MethodDescriptor::new(
                    "collapsed",
                    vec![ArgumentDescriptor::new("collapsed", ArgumentSchema::Boolean)],
                    MethodRule::Flag {
                        error: "Sidebar.collapsed expects one boolean",
                        arity: "Sidebar.collapsed expects one boolean",
                    },
                ).with_documentation("Sets the controlled collapsed state."),
            ],
        )
        .with_documentation(
            "A typed application sidebar accepting SidebarMenu children and named header/footer slots.",
        );
    proof {
        reveal(sidebar_constructors);
        assert(constructor_table(d.constructors@) =~~= sidebar_constructors());
        reveal(sidebar_methods);
        assert(method_table(d.methods@) =~~= sidebar_methods());
    }
    d
}

/// The constructors of `SidebarToggleButton`: export name, argument slots and rule.
#[verifier::opaque]
pub open spec fn sidebar_toggle_button_constructors() -> Seq<ConstructorRow> {
    seq![("SidebarToggleButton"@, seq![], ConstructorRule::Unit)]
}

/// The methods of `SidebarToggleButton`: name, argument slots, rule and documentation.
#[verifier::opaque]
pub open spec fn sidebar_toggle_button_methods() -> Seq<MethodRow> {
    seq![
        (
            "side"@,
            seq![("side"@, ArgumentSchema::Enum(ChoiceList::Side))],
            MethodRule::Choice {
                list: ChoiceList::Side,
                any_text: false,
                unsupported: "unsupported SidebarToggleButton side `",
                echo: true,
                error: "SidebarToggleButton.side expects `left` or `right`",
                arity: "SidebarToggleButton.side expects `left` or `right`",
            },
            "Sets the physical side occupied by the sidebar control."@,
        ),
        (
            "collapsed"@,
            seq![("collapsed"@, ArgumentSchema::Boolean)],
            MethodRule::Flag {
                error: "SidebarToggleButton.collapsed expects one boolean",
                arity: "SidebarToggleButton.collapsed expects one boolean",
            },
            "Sets the icon for the current collapsed state."@,
        ),
    ]
}

/// Whether `d` is the `SidebarToggleButton` descriptor: its constructors, methods and
/// documentation.
pub open spec fn is_sidebar_toggle_button_descriptor(d: ComponentDescriptor) -> bool {
    &&& d.kind == ComponentKind::SidebarToggleButton
    &&& d.documentation@ == "A button that reflects sidebar side and collapsed state; on_click is forwarded."@
    &&& constructor_table(d.constructors@) == sidebar_toggle_button_constructors()
    &&& method_table(d.methods@) == sidebar_toggle_button_methods()
}

fn sidebar_toggle_button_descriptor() -> (d: ComponentDescriptor)
    ensures
        is_sidebar_toggle_button_descriptor(d),
{
    let d = ComponentDescriptor::new(ComponentKind::SidebarToggleButton)
        .with_constructors(
            vec![
                ConstructorDescriptor::new(
                    "SidebarToggleButton",
                    Vec::new(),
                    ConstructorRule::Unit,
                ),
            ],
        )
        .with_methods(
            vec![
                MethodDescriptor::new(
                    "side",
                    vec![ArgumentDescriptor::new("side", ArgumentSchema::Enum(ChoiceList::Side))],
                    MethodRule::Choice {
                        list: ChoiceList::Side,
                        any_text: false,
                        unsupported: "unsupported SidebarToggleButton side `",
                        echo: true,
                        error: "SidebarToggleButton.side expects `left` or `right`",
                        arity: "SidebarToggleButton.side expects `left` or `right`",
                    },
                ).with_documentation("Sets the physical side occupied by the sidebar control."),
                MethodDescriptor::new(
                    "collapsed",
                    vec![ArgumentDescriptor::new("collapsed", ArgumentSchema::Boolean)],
                    MethodRule::Flag {
                        error: "SidebarToggleButton.collapsed expects one boolean",
                        arity: "SidebarToggleButton.collapsed expects one boolean",
                    },
                ).with_documentation("Sets the icon for the current collapsed state."),
            ],
        )
        .with_documentation(
            "A button that reflects sidebar side and collapsed state; on_click is forwarded.",
        );
    proof {
        reveal(sidebar_toggle_button_constructors);
        assert(constructor_table(d.constructors@) =~~= sidebar_toggle_button_constructors());
        reveal(sidebar_toggle_button_methods);
        assert(method_table(d.methods@) =~~= sidebar_toggle_button_methods());
    }
    d
}

/// Registers `SidebarMenuItem`, `SidebarMenu`, `SidebarHeader`, `SidebarFooter`, `Sidebar`,
/// `SidebarToggleButton` after the components already registered, in this order.
pub fn register(registry: &mut ComponentRegistry)
    requires
        !kinds(old(registry)@).contains(ComponentKind::SidebarMenuItem),
        !kinds(old(registry)@).contains(ComponentKind::SidebarMenu),
        !kinds(old(registry)@).contains(ComponentKind::SidebarHeader),
        !kinds(old(registry)@).contains(ComponentKind::SidebarFooter),
        !kinds(old(registry)@).contains(ComponentKind::Sidebar),
        !kinds(old(registry)@).contains(ComponentKind::SidebarToggleButton),
    ensures
        final(registry)@.len() == old(registry)@.len() + 6,
        final(registry)@.take(old(registry)@.len() as int) == old(registry)@,
        is_sidebar_menu_item_descriptor(final(registry)@[old(registry)@.len() as int]),
        is_sidebar_menu_descriptor(final(registry)@[old(registry)@.len() as int + 1]),
        is_sidebar_header_descriptor(final(registry)@[old(registry)@.len() as int + 2]),
        is_sidebar_footer_descriptor(final(registry)@[old(registry)@.len() as int + 3]),
        is_sidebar_descriptor(final(registry)@[old(registry)@.len() as int + 4]),
        is_sidebar_toggle_button_descriptor(final(registry)@[old(registry)@.len() as int + 5]),
{
    let ghost start = registry@;
    let ghost before_sidebar_menu_item = registry@;
    let sidebar_menu_item = sidebar_menu_item_descriptor();
    let ghost added_sidebar_menu_item = sidebar_menu_item;
    let sidebar_menu_item_registered = registry.register(sidebar_menu_item);
    proof {
        assert(sidebar_menu_item_registered is Ok);
        lemma_kinds_push(before_sidebar_menu_item, added_sidebar_menu_item);
    }
    let ghost before_sidebar_menu = registry@;
    let sidebar_menu = sidebar_menu_descriptor();
    let ghost added_sidebar_menu = sidebar_menu;
    let sidebar_menu_registered = registry.register(sidebar_menu);
    proof {
        assert(sidebar_menu_registered is Ok);
        lemma_kinds_push(before_sidebar_menu, added_sidebar_menu);
    }
    let ghost before_sidebar_header = registry@;
    let sidebar_header = sidebar_header_descriptor();
    let ghost added_sidebar_header = sidebar_header;
    let sidebar_header_registered = registry.register(sidebar_header);
    proof {
        assert(sidebar_header_registered is Ok);
        lemma_kinds_push(before_sidebar_header, added_sidebar_header);
    }
    let ghost before_sidebar_footer = registry@;
    let sidebar_footer = sidebar_footer_descriptor();
    let ghost added_sidebar_footer = sidebar_footer;
    let sidebar_footer_registered = registry.register(sidebar_footer);
    proof {
        assert(sidebar_footer_registered is Ok);
        lemma_kinds_push(before_sidebar_footer, added_sidebar_footer);
    }
    let ghost before_sidebar = registry@;
    let sidebar = sidebar_descriptor();
    let ghost added_sidebar = sidebar;
    let sidebar_registered = registry.register(sidebar);
    proof {
        assert(sidebar_registered is Ok);
        lemma_kinds_push(before_sidebar, added_sidebar);
    }
    let sidebar_toggle_button = sidebar_toggle_button_descriptor();
    let sidebar_toggle_button_registered = registry.register(sidebar_toggle_button);
    proof {
        assert(sidebar_toggle_button_registered is Ok);
    }
    proof {
        assert(registry@.take(start.len() as int) =~= start);
    }
}

} // verus!
