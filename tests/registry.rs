use handlebars::Handlebars;
use zenkit_codegen::templates::{add_helpers, add_templates, Template};

fn helpers_only() -> Handlebars<'static> {
    let mut hb = Handlebars::new();
    add_helpers(&mut hb).unwrap();
    hb
}

fn render(hb: &Handlebars<'static>, text: &str) -> Result<String, String> {
    hb.render_template(text, &serde_json::Map::<String, serde_json::Value>::new()).map_err(|e| e.to_string())
}

#[test]
fn workspace_helpers_write_symbols() {
    let hb = helpers_only();
    assert_eq!(render(&hb, "{{to-workspace-uuid \"Customer Support\"}}").unwrap(), "WORKSPACE_CUSTOMER_SUPPORT_UUID");
    assert_eq!(render(&hb, "{{to-workspace-id \"Customer Support\"}}").unwrap(), "WORKSPACE_CUSTOMER_SUPPORT_ID");
    assert_eq!(render(&hb, "{{to-workspace-name \"Customer Support\"}}").unwrap(), "WORKSPACE_CUSTOMER_SUPPORT_NAME");
}

#[test]
fn list_and_field_helpers_write_symbols() {
    let hb = helpers_only();
    let cases = [
        ("{{to-list-id \"Ticket\"}}", "LIST_TICKET_ID"),
        ("{{to-list-short-id \"Ticket\"}}", "LIST_TICKET_SHORT_ID"),
        ("{{to-list-uuid \"Ticket\"}}", "LIST_TICKET_UUID"),
        ("{{to-list-class \"Customers\"}}", "CustomersList"),
        ("{{to-list-name \"Customer\"}}", "LIST_CUSTOMER_NAME"),
        ("{{to-field-id \"Title\"}}", "FIELD_TITLE_ID"),
        ("{{to-field-uuid \"Title\"}}", "FIELD_TITLE_UUID"),
        ("{{to-field-name \"Title\"}}", "FIELD_TITLE_NAME"),
    ];
    for (text, expected) in cases {
        assert_eq!(render(&hb, text).unwrap(), expected, "{}", text);
    }
}

#[test]
fn helper_without_string_parameter_fails() {
    let hb = helpers_only();
    let missing = render(&hb, "{{to-list-id}}").unwrap_err();
    assert!(missing.contains("param not found"), "{}", missing);
    let number = render(&hb, "{{to-list-id 5}}").unwrap_err();
    assert!(number.contains("not string"), "{}", number);
}

#[test]
fn every_template_is_registered_with_its_text() {
    let mut hb = Handlebars::new();
    add_templates(&mut hb).unwrap();
    assert_eq!(hb.get_templates().len(), 34);
    for t in [Template::LibMain, Template::StartListImpl, Template::CategoryLabelLookup, Template::CargoToml] {
        assert!(hb.has_template(t.name()), "{}", t.name());
    }
    assert!(Template::CargoToml.source().contains("name = \"{{ crate }}\""));
}
