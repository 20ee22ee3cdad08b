use gpui_net_shell::components::catalog;
use gpui_net_shell::registry::FrozenComponentRegistry;
use gpui_net_shell::rules::{AlertVariant, ComponentArgument, ComponentPayload, SeparatorKind};

fn s(text: &str) -> ComponentArgument {
    ComponentArgument::String(text.to_string())
}

fn n(value: f64) -> ComponentArgument {
    ComponentArgument::Number(value.to_bits())
}

fn e(text: &str) -> ComponentArgument {
    ComponentArgument::Enum(text.to_string())
}

fn construct(
    frozen: &FrozenComponentRegistry,
    component: &str,
    index: usize,
    arguments: Vec<ComponentArgument>,
) -> Result<ComponentPayload, String> {
    let descriptor = frozen.find(component).expect("registered");
    descriptor.constructors[index].payload(&arguments)
}

fn record(
    frozen: &FrozenComponentRegistry,
    component: &str,
    method: &str,
    arguments: Vec<ComponentArgument>,
) -> Result<ComponentPayload, String> {
    let descriptor = frozen.find(component).expect("registered");
    descriptor.method(method).expect("method").record(&arguments)
}

#[test]
fn constructors_and_methods_record_their_payloads() {
    let frozen = catalog();
    let descriptor = frozen
        .descriptors()
        .iter()
        .find(|descriptor| descriptor.name() == "Button")
        .expect("Button is registered");

    let payload = descriptor.constructors[0].payload(&vec![s("save")]).unwrap();
    assert_eq!(payload, ComponentPayload::Text("save".into()));

    let label = descriptor.method("label").unwrap().record(&vec![s("Save")]).unwrap();
    assert_eq!(label, ComponentPayload::Text("Save".into()));
}

#[test]
fn constructors_refuse_wrong_arguments_with_their_messages() {
    let frozen = catalog();
    assert_eq!(
        construct(&frozen, "Button", 0, vec![s("")]),
        Err("Button id must not be empty".into())
    );
    assert_eq!(
        construct(&frozen, "Button", 0, vec![n(1.0)]),
        Err("Button(id) expects one string".into())
    );
    assert_eq!(
        construct(&frozen, "Radio", 0, vec![s(" \t")]),
        Err("Radio(id) expects a nonempty string id".into())
    );
    assert_eq!(
        construct(&frozen, "Radio", 0, vec![]),
        Err("Radio(id) expects a string id".into())
    );
    assert_eq!(construct(&frozen, "Text", 0, vec![s("hello")]), Ok(ComponentPayload::Text("hello".into())));
    assert_eq!(
        construct(&frozen, "Popover", 0, vec![s("p"), s(" ")]),
        Err("Popover id and label must not be empty".into())
    );
    assert_eq!(
        construct(&frozen, "DropdownButton", 0, vec![s("d"), s("")]),
        Ok(ComponentPayload::Pair("d".into(), "".into()))
    );
    assert_eq!(
        construct(&frozen, "Alert", 3, vec![s("a"), s("careful")]),
        Ok(ComponentPayload::Alert("a".into(), "careful".into(), AlertVariant::Warning))
    );
    assert_eq!(
        construct(&frozen, "Alert", 0, vec![s(""), s("m")]),
        Err("Alert(id) expects a nonempty string id".into())
    );
    assert_eq!(
        construct(&frozen, "Separator", 3, vec![]),
        Ok(ComponentPayload::Separator(SeparatorKind::VerticalDashed))
    );
    assert_eq!(
        construct(&frozen, "Breadcrumb", 0, vec![s("Home\nSettings")]),
        Ok(ComponentPayload::Lines(vec!["Home".into(), "Settings".into()]))
    );
    assert_eq!(
        construct(&frozen, "List", 0, vec![s("l"), s("12")]),
        Ok(ComponentPayload::Rows("l".into(), 12))
    );
    assert_eq!(
        construct(&frozen, "List", 0, vec![s("l"), s("twelve")]),
        Err("List rows token must be a number".into())
    );
    assert_eq!(
        construct(&frozen, "List", 0, vec![s(" "), s("12")]),
        Err("List expects a non-empty id and a rows callback".into())
    );
    assert_eq!(
        construct(&frozen, "Select", 0, vec![s("s"), s("1"), s("x")]),
        Err("Select on_select token must be a number".into())
    );
    assert_eq!(
        construct(&frozen, "Select", 0, vec![s("s"), s("1"), s("2")]),
        Ok(ComponentPayload::Selection("s".into(), 1, 2))
    );
    assert_eq!(
        construct(&frozen, "DataTable", 0, vec![s("t"), s("-1")]),
        Err("DataTable row_count must be a non-negative integer".into())
    );
    assert_eq!(
        construct(&frozen, "TabBar", 0, vec![s("  ")]),
        Err("TabBar(id) expects a nonempty string id".into())
    );
}

#[test]
fn method_rules_record_or_refuse() {
    let frozen = catalog();
    assert_eq!(
        record(&frozen, "Badge", "size", vec![e("large")]),
        Ok(ComponentPayload::Choice(3))
    );
    assert_eq!(
        record(&frozen, "Badge", "size", vec![e("huge")]),
        Err("unsupported Badge size `huge`".into())
    );
    assert_eq!(
        record(&frozen, "Badge", "count", vec![n(1.5)]),
        Err("Badge.count expects a non-negative integer".into())
    );
    assert_eq!(record(&frozen, "Badge", "count", vec![n(0.0)]), Ok(ComponentPayload::Count(0)));
    assert_eq!(
        record(&frozen, "Pagination", "total_pages", vec![n(3.0)]),
        Ok(ComponentPayload::Count(3))
    );
    assert_eq!(
        record(&frozen, "Pagination", "total_pages", vec![n(0.0)]),
        Err("Pagination.total_pages(total_pages) expects a positive integer".into())
    );
    assert!(record(&frozen, "Pagination", "total_pages", vec![n(1.5)]).is_err());
    assert!(record(&frozen, "Pagination", "total_pages", vec![n(f64::INFINITY)]).is_err());
    assert_eq!(
        record(&frozen, "Pagination", "total_pages", vec![]),
        Err("Pagination.total_pages(total_pages) expects one argument".into())
    );
    assert_eq!(
        record(&frozen, "Rating", "max", vec![n(usize::MAX as f64)]),
        Err("Rating.max(max) expects a non-negative integer".into())
    );
    assert_eq!(
        record(&frozen, "Rating", "max", vec![s("5")]),
        Err("Rating.max(max) expects a number".into())
    );
    assert_eq!(
        record(&frozen, "DescriptionList", "columns", vec![n(11.0)]),
        Err("DescriptionList.columns expects an integer from 1 through 10".into())
    );
    assert_eq!(
        record(&frozen, "DescriptionList", "columns", vec![n(10.0)]),
        Ok(ComponentPayload::Count(10))
    );
    assert_eq!(
        record(&frozen, "Combobox", "tokens", vec![s("3,,x,4")]),
        Ok(ComponentPayload::Tokens(vec![3, 4]))
    );
    assert_eq!(
        record(&frozen, "Combobox", "options", vec![s("a\nb")]),
        Ok(ComponentPayload::Lines(vec!["a".into(), "b".into()]))
    );
    assert_eq!(
        record(&frozen, "Combobox", "selected", vec![n(-3.0)]),
        Ok(ComponentPayload::Count(0))
    );
    assert_eq!(
        record(&frozen, "Combobox", "selected", vec![n(2.7)]),
        Ok(ComponentPayload::Count(2))
    );
    assert_eq!(record(&frozen, "Button", "size", vec![]), Ok(ComponentPayload::Choice(2)));
    assert_eq!(record(&frozen, "Button", "size", vec![n(3.0)]), Ok(ComponentPayload::Choice(3)));
    assert_eq!(record(&frozen, "Button", "size", vec![n(7.0)]), Ok(ComponentPayload::Choice(2)));
    assert_eq!(record(&frozen, "Button", "loading", vec![]), Ok(ComponentPayload::Flag(true)));
    assert_eq!(record(&frozen, "Button", "loading", vec![n(0.0)]), Ok(ComponentPayload::Flag(false)));
    assert_eq!(
        record(&frozen, "Slider", "value", vec![n(1e39)]),
        Err("Slider.value expects a finite number".into())
    );
    assert_eq!(
        record(&frozen, "Resizable", "axis", vec![n(0.5)]),
        Ok(ComponentPayload::Flag(true))
    );
    assert_eq!(
        record(&frozen, "TabBar", "selected_index", vec![n(-1.0)]),
        Err("TabBar.selected_index(index) expects a nonnegative integer".into())
    );
    assert_eq!(
        record(&frozen, "DropdownMenu", "item", vec![s(" "), ComponentArgument::Callback(4)]),
        Err("DropdownMenu.item label must not be empty".into())
    );
    assert_eq!(
        record(&frozen, "DataTable", "columns", vec![s("a\n \nb\n")]),
        Ok(ComponentPayload::Lines(vec!["a".into(), "b".into()]))
    );
    assert_eq!(
        record(&frozen, "OtpInput", "length", vec![n(0.0)]),
        Err("OtpInput.length received an invalid value".into())
    );
    assert_eq!(
        record(&frozen, "Form", "label_width", vec![n(-1.0)]),
        Err("Form.label_width expects a nonnegative finite number".into())
    );
    assert_eq!(
        record(&frozen, "Scroll", "scroll_axis", vec![e("diagonal")]),
        Err("axis expects vertical, horizontal, or both".into())
    );
    assert_eq!(
        record(&frozen, "Radio", "on_change", vec![n(9.0)]),
        Ok(ComponentPayload::Callback(9))
    );
}

#[test]
fn the_frozen_catalog_finds_components_and_ids() {
    let frozen = catalog();
    assert_eq!(frozen.descriptors().len(), 51);
    assert!(frozen.find("Canvas").is_none());
    assert_eq!(frozen.get(2).map(|d| d.name()), Some("Button"));
    assert!(frozen.get(51).is_none());
    let button = frozen.find("Button").unwrap();
    assert_eq!(frozen.id_of(button.kind), Some(2));
}

#[test]
fn badge_numbers_reject_fractional_negative_and_overflow_values() {
    let frozen = catalog();
    assert_eq!(record(&frozen, "Badge", "count", vec![n(7.0)]), Ok(ComponentPayload::Count(7)));
    assert!(record(&frozen, "Badge", "count", vec![n(1.5)]).is_err());
    assert!(record(&frozen, "Badge", "count", vec![n(-1.0)]).is_err());
    assert!(record(&frozen, "Badge", "count", vec![n(usize::MAX as f64)]).is_err());
    assert!(record(&frozen, "Badge", "count", vec![n(f64::INFINITY)]).is_err());
}

#[test]
fn positive_integer_validation() {
    let frozen = catalog();
    assert_eq!(
        record(&frozen, "Pagination", "total_pages", vec![n(3.)]),
        Ok(ComponentPayload::Count(3))
    );
    assert!(record(&frozen, "Pagination", "total_pages", vec![n(0.)]).is_err());
    assert!(record(&frozen, "Pagination", "total_pages", vec![n(1.5)]).is_err());
    assert!(record(&frozen, "Pagination", "total_pages", vec![n(f64::INFINITY)]).is_err());
}

#[test]
fn rejects_the_rounded_usize_overflow_boundary() {
    let frozen = catalog();
    assert!(record(&frozen, "Rating", "max", vec![n(usize::MAX as f64)]).is_err());
}
