//! The workspace schema that generation reads: lists, their fields and the
//! predefined labels of category fields.
use vstd::prelude::*;

verus! {

/// Numeric subtype of a number field.
#[derive(Clone, Copy, Debug, PartialEq, Eq, Structural)]
pub enum NumericType {
    Integer,
    Decimal,
}

/// A predefined label of a categories field.
#[derive(Clone, Debug)]
pub struct Label {
    pub id: u64,
    pub name: String,
}

/// The category of a field, with the payload that the category carries.
#[derive(Clone, Debug)]
pub enum FieldKind {
    Text,
    /// Number field; `None` when the schema gives no recognised format.
    Number(Option<NumericType>),
    Url,
    Date,
    Checkbox,
    /// Categories field with its predefined labels, in schema order.
    Categories(Option<Vec<Label>>),
    Formula,
    DateCreated,
    DateUpdated,
    DateDeprecated,
    UserCreatedBy,
    UserUpdatedBy,
    UserDeprecatedBy,
    Persons,
    Files,
    /// Reference field, with the name of the target list when it is accessible.
    References(Option<String>),
    Hierarchy,
    SubEntries,
    Dependencies,
}

/// A field (element) of a list.
#[derive(Clone, Debug)]
pub struct Field {
    pub id: u64,
    pub uuid: String,
    pub name: String,
    pub description: String,
    /// Whether the field holds several values.
    pub multiple: bool,
    /// Deprecation timestamp; a deprecated field is left out of the output.
    pub deprecated_at: Option<String>,
    pub kind: FieldKind,
}

impl Field {
    pub open spec fn is_live(&self) -> bool {
        self.deprecated_at is None
    }
}

/// A list with its fields, in schema order.
#[derive(Clone, Debug)]
pub struct ListSchema {
    pub id: u64,
    pub short_id: String,
    pub uuid: String,
    pub name: String,
    pub description: String,
    pub item_name: Option<String>,
    pub item_name_plural: Option<String>,
    pub fields: Vec<Field>,
}

/// Workspace metadata.
#[derive(Clone, Debug)]
pub struct WorkspaceInfo {
    pub id: u64,
    pub uuid: String,
    pub name: String,
    pub description: Option<String>,
}

/// A field category that has no generator support.
#[derive(Clone, Copy, Debug, PartialEq, Eq, Structural)]
pub enum UnsupportedCategory {
    Hierarchy,
    Dependencies,
}

/// A field that was skipped because its category is not supported.
#[derive(Clone, Debug)]
pub struct SkippedField {
    pub list: String,
    pub field: String,
    pub category: UnsupportedCategory,
}

} // verus!
