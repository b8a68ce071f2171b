use zenkit_codegen::generator::{Generator, OutputFile};
use zenkit_codegen::schema::{
    Field, FieldKind, Label, ListSchema, NumericType, UnsupportedCategory, WorkspaceInfo,
};

fn field(id: u64, name: &str, multiple: bool, kind: FieldKind) -> Field {
    Field {
        id,
        uuid: format!("uuid-{}", id),
        name: name.to_string(),
        description: format!("{} field", name),
        multiple,
        deprecated_at: None,
        kind,
    }
}

fn list(name: &str, fields: Vec<Field>) -> ListSchema {
    ListSchema {
        id: 7,
        short_id: "abc".to_string(),
        uuid: "list-uuid".to_string(),
        name: name.to_string(),
        description: "things to do".to_string(),
        item_name: None,
        item_name_plural: None,
        fields,
    }
}

fn workspace() -> WorkspaceInfo {
    WorkspaceInfo {
        id: 42,
        uuid: "ws-uuid".to_string(),
        name: "Customer Support".to_string(),
        description: Some("support desk".to_string()),
    }
}

fn render_list(l: &ListSchema) -> String {
    let mut gen = Generator::init().expect("templates parse");
    gen.gen_list(l).expect("list renders");
    String::from_utf8(gen.clone_reset().to_vec()).expect("utf-8 output")
}

fn count(haystack: &str, needle: &str) -> usize {
    haystack.matches(needle).count()
}

/// Splits rendered list output into (item impl, create builder, update builder).
fn sections(out: &str) -> (String, String, String) {
    let new_at = out.find("pub struct NewTaskBuilder").expect("create builder");
    let upd_at = out.find("pub struct UpdateTaskBuilder").expect("update builder");
    (out[..new_at].to_string(), out[new_at..upd_at].to_string(), out[upd_at..].to_string())
}

#[test]
fn scenario_text_and_checkbox_list() {
    let l = list(
        "Tasks",
        vec![field(1, "Title", false, FieldKind::Text), field(2, "Done", false, FieldKind::Checkbox)],
    );
    let out = render_list(&l);
    assert_eq!(count(&out, "pub fn get_title(&self)"), 1);
    assert_eq!(count(&out, "pub fn get_title_format(&self)"), 1);
    assert_eq!(count(&out, "pub fn is_checked_done(&self)"), 1);
    let (_, create, update) = sections(&out);
    assert_eq!(count(&create, "pub fn check_done(&mut self"), 1);
    assert_eq!(count(&update, "pub fn check_done(&mut self"), 1);
    for accessor in [
        "pub fn get_id(&self)",
        "pub fn get_uuid(&self)",
        "pub fn get_display_string(&self)",
        "pub fn get_created_by_id(&self)",
        "pub fn get_updated_by_id(&self)",
        "pub fn get_created_date(&self)",
        "pub fn get_updated_date(&self)",
    ] {
        assert_eq!(count(&out, accessor), 1, "{}", accessor);
    }
    assert!(out.contains("pub struct TasksList"));
    assert!(out.contains("pub const LIST_TASKS_ID: ID = 7;"));
    assert!(out.contains("pub const FIELD_TITLE_UUID: &'static str = \"uuid-1\";"));
}

fn priority_labels() -> Vec<Label> {
    vec![
        Label { id: 11, name: "Low".to_string() },
        Label { id: 12, name: "Medium".to_string() },
        Label { id: 13, name: "High".to_string() },
    ]
}

#[test]
fn scenario_categories_label_table() {
    let l = list("Tasks", vec![field(3, "Priority", false, FieldKind::Categories(Some(priority_labels())))]);
    let out = render_list(&l);
    let high = out.find("(\"High\", Task::LABEL_PRIORITY_HIGH_ID)").expect("High entry");
    let low = out.find("(\"Low\", Task::LABEL_PRIORITY_LOW_ID)").expect("Low entry");
    let medium = out.find("(\"Medium\", Task::LABEL_PRIORITY_MEDIUM_ID)").expect("Medium entry");
    assert!(high < low && low < medium);
    assert!(out.contains("pub fn label_id_for_priority(label: &str) -> Option<ID>"));
    assert!(out.contains("pub const LABEL_PRIORITY_MEDIUM_ID : ID = 12;"));
    assert!(out.contains("[(&'static str,u64);3]"));

    let table = zenkit_codegen::labels::sort_labels(&priority_labels());
    let names: Vec<&str> = table.iter().map(|l| l.name.as_str()).collect();
    assert_eq!(names, vec!["High", "Low", "Medium"]);
    assert_eq!(zenkit_codegen::labels::lookup_label(&table, "Medium"), Some(12));
    assert_eq!(zenkit_codegen::labels::lookup_label(&table, "Urgent"), None);
}

#[test]
fn scenario_references_builders() {
    let l = list(
        "Tasks",
        vec![field(4, "Assignee", true, FieldKind::References(Some("People".to_string())))],
    );
    let out = render_list(&l);
    let (items, create, update) = sections(&out);
    assert!(items.contains("pub fn get_assignee"));
    assert_eq!(count(&create, "pub fn set_assignee("), 1);
    assert_eq!(count(&create, "pub fn add_assignee("), 0);
    assert_eq!(count(&create, "pub fn remove_assignee("), 0);
    assert_eq!(count(&create, "pub fn unset_assignee("), 0);
    assert_eq!(count(&update, "pub fn set_assignee("), 1);
    assert_eq!(count(&update, "pub fn add_assignee("), 1);
    assert_eq!(count(&update, "pub fn remove_assignee("), 1);
    assert_eq!(count(&update, "pub fn unset_assignee("), 1);
    assert!(out.contains("People"));
}

#[test]
fn scenario_formula_empty_error_is_no_error() {
    let l = list("Tasks", vec![field(5, "Total", false, FieldKind::Formula)]);
    let out = render_list(&l);
    assert!(out.contains("pub fn get_total(&self) -> Option<f64>"));
    assert!(out.contains("if let None = self.get_total_error()"));
    assert!(out.contains("_valueErrorMessage"));
    assert!(out.contains("if s.len() > 0"));
    let (_, create, update) = sections(&out);
    assert!(!create.contains("total"));
    assert!(!update.contains("total"));
}

#[test]
fn number_fields_choose_integer_or_float() {
    let l = list(
        "Tasks",
        vec![
            field(6, "Count", false, FieldKind::Number(Some(NumericType::Integer))),
            field(7, "Weight", false, FieldKind::Number(Some(NumericType::Decimal))),
            field(8, "Score", false, FieldKind::Number(None)),
        ],
    );
    let out = render_list(&l);
    assert!(out.contains("pub fn get_count(&self) -> Option<i64>"));
    assert!(out.contains("pub fn get_weight(&self) -> Option<f64>"));
    assert!(out.contains("pub fn get_score(&self) -> Option<f64>"));
}

#[test]
fn deprecated_field_produces_nothing() {
    let mut old = field(9, "Legacy", false, FieldKind::Text);
    old.deprecated_at = Some("2020-01-01T00:00:00Z".to_string());
    let with = list("Tasks", vec![field(1, "Title", false, FieldKind::Text), old]);
    let without = list("Tasks", vec![field(1, "Title", false, FieldKind::Text)]);
    let a = render_list(&with);
    let b = render_list(&without);
    assert_eq!(a, b);
    assert!(!a.contains("legacy"));
    assert!(!a.contains("LEGACY"));
}

#[test]
fn unsupported_categories_are_skipped_and_reported() {
    let l = list(
        "Tasks",
        vec![
            field(1, "Title", false, FieldKind::Text),
            field(2, "Parent", false, FieldKind::Hierarchy),
            field(3, "Blocks", true, FieldKind::Dependencies),
        ],
    );
    let mut gen = Generator::init().unwrap();
    gen.gen_list(&l).unwrap();
    let skipped = gen.skipped_fields();
    assert_eq!(skipped.len(), 2);
    assert_eq!(skipped[0].list, "Tasks");
    assert_eq!(skipped[0].field, "Parent");
    assert_eq!(skipped[0].category, UnsupportedCategory::Hierarchy);
    assert_eq!(skipped[1].field, "Blocks");
    assert_eq!(skipped[1].category, UnsupportedCategory::Dependencies);
    let out = String::from_utf8(gen.clone_reset().to_vec()).unwrap();
    assert!(!out.contains("get_parent"));
    assert!(!out.contains("get_blocks"));
}

#[test]
fn metadata_fields_have_no_accessors() {
    let l = list(
        "Tasks",
        vec![field(1, "Created", false, FieldKind::DateCreated), field(2, "Author", false, FieldKind::UserCreatedBy)],
    );
    let out = render_list(&l);
    assert!(!out.contains("pub fn get_created("));
    assert!(!out.contains("pub fn get_author("));
    assert_eq!(count(&out, "pub fn get_created_by_id(&self)"), 1);
}

#[test]
fn context_is_clean_between_lists() {
    let cats = list("Tasks", vec![field(3, "Priority", false, FieldKind::Categories(Some(priority_labels())))]);
    let plain = list("Tasks", vec![field(1, "Title", true, FieldKind::References(None))]);
    let mut gen = Generator::init().unwrap();
    gen.gen_list(&cats).unwrap();
    let _ = gen.clone_reset();
    gen.gen_list(&plain).unwrap();
    let second = String::from_utf8(gen.clone_reset().to_vec()).unwrap();
    assert_eq!(second, render_list(&plain));
}

#[test]
fn clone_reset_takes_and_clears() {
    let l = list("Tasks", vec![field(1, "Title", false, FieldKind::Url)]);
    let mut gen = Generator::init().unwrap();
    gen.gen_list(&l).unwrap();
    let first = gen.clone_reset();
    assert!(!first.is_empty());
    assert!(gen.clone_reset().is_empty());
}

fn files_of(dir: &str) -> Vec<OutputFile> {
    let lists = vec![
        list("Tasks", vec![field(1, "Title", false, FieldKind::Text)]),
        list("Open Issues", vec![field(2, "Done", false, FieldKind::Checkbox)]),
    ];
    let mut gen = Generator::init().unwrap();
    gen.gen_workspace(&workspace(), &lists, dir).unwrap()
}

#[test]
fn workspace_files_and_paths() {
    let files = files_of("out");
    let paths: Vec<&str> = files.iter().map(|f| f.path.as_str()).collect();
    assert_eq!(paths, vec!["out/src/tasks.rs", "out/src/open_issues.rs", "out/src/lib.rs", "out/Cargo.toml.sample"]);
    let lib = String::from_utf8(files[2].contents.to_vec()).unwrap();
    assert!(lib.contains("mod tasks;"));
    assert!(lib.contains("pub use open_issues::*;"));
    assert!(lib.contains("pub const WORKSPACE_CUSTOMER_SUPPORT_ID: ID = 42;"));
    let manifest = String::from_utf8(files[3].contents.to_vec()).unwrap();
    assert!(manifest.contains("name = \"customer_support\""));
}

#[test]
fn generating_twice_gives_identical_files() {
    let a = files_of("first");
    let b = files_of("second/dir");
    assert_eq!(a.len(), b.len());
    for (x, y) in a.iter().zip(b.iter()) {
        assert_eq!(x.contents, y.contents);
    }
}

#[test]
fn item_name_overrides() {
    let mut l = list("Open Issues", vec![field(1, "Title", false, FieldKind::Text)]);
    l.item_name = Some("ticket".to_string());
    l.item_name_plural = Some("tickets".to_string());
    let out = render_list(&l);
    assert!(out.contains("pub struct Ticket {"));
    assert!(out.contains("pub struct NewTicketBuilder"));
    assert!(out.contains("pub struct UpdateTicketBuilder"));
    assert!(out.contains("List of Ticket"));
}

#[test]
fn empty_list_renders_boilerplate_only() {
    let l = list("Tasks", vec![]);
    let out = render_list(&l);
    assert!(out.contains("pub struct TasksList"));
    assert!(out.contains("pub async fn execute(&mut self)"));
    assert_eq!(count(&out, "pub const FIELD_"), 0);
}
