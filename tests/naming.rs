use zenkit_codegen::error::Error;
use zenkit_codegen::naming::{concat3, module_name, SymbolKind};

#[test]
fn constant_symbols() {
    assert_eq!(SymbolKind::WorkspaceUuid.symbol("Customer Support"), "WORKSPACE_CUSTOMER_SUPPORT_UUID");
    assert_eq!(SymbolKind::WorkspaceId.symbol("Customer Support"), "WORKSPACE_CUSTOMER_SUPPORT_ID");
    assert_eq!(SymbolKind::ListShortId.symbol("Ticket"), "LIST_TICKET_SHORT_ID");
    assert_eq!(SymbolKind::FieldName.symbol("Title"), "FIELD_TITLE_NAME");
    assert_eq!(SymbolKind::FieldUuid.symbol("due date"), "FIELD_DUE_DATE_UUID");
}

#[test]
fn list_class_symbol() {
    assert_eq!(SymbolKind::ListClass.symbol("Deal Tracker"), "DealTrackerList");
    assert_eq!(SymbolKind::ListClass.helper_name(), "to-list-class");
}

#[test]
fn module_names_are_snake_case() {
    assert_eq!(module_name("Open Issues"), "open_issues");
    assert_eq!(concat3("a", "", "c"), "ac");
}

#[test]
fn error_description_quotes_message() {
    assert_eq!(Error::Message("bad \"x\"".to_string()).describe(), "\"bad \\\"x\\\"\"");
    assert_eq!(Error::Zenkit("down".to_string()).describe(), "\"down\"");
}
