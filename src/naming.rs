//! Symbol names used in generated code, built from the casing functions of
//! the `inflector` crate.
use crate::schema::ListSchema;
use inflector::cases::classcase::to_class_case;
use inflector::cases::pascalcase::to_pascal_case;
use inflector::cases::screamingsnakecase::to_screaming_snake_case;
use inflector::cases::snakecase::to_snake_case;
use inflector::string::pluralize::to_plural;
use vstd::prelude::*;
use vstd::string::*;

verus! {

/// What `inflector`'s `to_class_case` returns for a text.
pub uninterp spec fn class_case_of(s: Seq<char>) -> Seq<char>;

/// What `inflector`'s `to_plural` returns for a text.
pub uninterp spec fn plural_of(s: Seq<char>) -> Seq<char>;

/// What `inflector`'s `to_snake_case` returns for a text.
pub uninterp spec fn snake_case_of(s: Seq<char>) -> Seq<char>;

/// What `inflector`'s `to_pascal_case` returns for a text.
pub uninterp spec fn pascal_case_of(s: Seq<char>) -> Seq<char>;

/// What `inflector`'s `to_screaming_snake_case` returns for a text.
pub uninterp spec fn screaming_snake_case_of(s: Seq<char>) -> Seq<char>;

/// Relies on `inflector::cases::classcase::to_class_case`: a function of the text alone.
pub assume_specification[ inflector::cases::classcase::to_class_case ](
    non_class_case_string: &str,
) -> (r: String)
    ensures
        r@ == class_case_of(non_class_case_string@),
;

/// Relies on `inflector::string::pluralize::to_plural`: a function of the text alone.
pub assume_specification[ inflector::string::pluralize::to_plural ](
    non_plural_string: &str,
) -> (r: String)
    ensures
        r@ == plural_of(non_plural_string@),
;

/// Relies on `inflector::cases::snakecase::to_snake_case`: a function of the text alone.
pub assume_specification[ inflector::cases::snakecase::to_snake_case ](
    non_snake_case_string: &str,
) -> (r: String)
    ensures
        r@ == snake_case_of(non_snake_case_string@),
;

/// Relies on `inflector::cases::pascalcase::to_pascal_case`: a function of the text alone.
pub assume_specification[ inflector::cases::pascalcase::to_pascal_case ](
    non_pascalized_string: &str,
) -> (r: String)
    ensures
        r@ == pascal_case_of(non_pascalized_string@),
;

/// Relies on `inflector::cases::screamingsnakecase::to_screaming_snake_case`: a
/// function of the text alone.
pub assume_specification[ inflector::cases::screamingsnakecase::to_screaming_snake_case ](
    non_snake_case_string: &str,
) -> (r: String)
    ensures
        r@ == screaming_snake_case_of(non_snake_case_string@),
;

/// `a`, then `b`, then `c`.
pub fn concat3(a: &str, b: &str, c: &str) -> (r: String)
    ensures
        r@ == a@ + b@ + c@,
{
    let mut r = String::new();
    r.append(a);
    r.append(b);
    r.append(c);
    r
}

/// The symbol helpers that templates call, one per kind of generated constant.
#[derive(Clone, Copy, Debug, PartialEq, Eq, Structural)]
pub enum SymbolKind {
    WorkspaceUuid,
    WorkspaceId,
    WorkspaceName,
    ListId,
    ListShortId,
    ListUuid,
    ListClass,
    ListName,
    FieldId,
    FieldUuid,
    FieldName,
}

impl SymbolKind {
    /// Text before the cased name.
    pub open spec fn spec_prefix(self) -> Seq<char> {
        match self {
            SymbolKind::WorkspaceUuid | SymbolKind::WorkspaceId | SymbolKind::WorkspaceName => "WORKSPACE_"@,
            SymbolKind::ListId | SymbolKind::ListShortId | SymbolKind::ListUuid | SymbolKind::ListName => "LIST_"@,
            SymbolKind::ListClass => ""@,
            SymbolKind::FieldId | SymbolKind::FieldUuid | SymbolKind::FieldName => "FIELD_"@,
        }
    }

    /// Text after the cased name.
    pub open spec fn spec_suffix(self) -> Seq<char> {
        match self {
            SymbolKind::WorkspaceUuid | SymbolKind::ListUuid | SymbolKind::FieldUuid => "_UUID"@,
            SymbolKind::WorkspaceId | SymbolKind::ListId | SymbolKind::FieldId => "_ID"@,
            SymbolKind::WorkspaceName | SymbolKind::ListName | SymbolKind::FieldName => "_NAME"@,
            SymbolKind::ListShortId => "_SHORT_ID"@,
            SymbolKind::ListClass => "List"@,
        }
    }

    /// The cased form of a name that goes between prefix and suffix: pascal
    /// case for type names, screaming snake case for constants.
    pub open spec fn spec_cased(self, name: Seq<char>) -> Seq<char> {
        match self {
            SymbolKind::ListClass => pascal_case_of(name),
            _ => screaming_snake_case_of(name),
        }
    }

    /// The symbol generated for `name`, e.g. `LIST_TICKET_ID` or `TicketList`.
    pub open spec fn spec_symbol(self, name: Seq<char>) -> Seq<char> {
        self.spec_prefix() + self.spec_cased(name) + self.spec_suffix()
    }

    /// Name under which the helper is registered, e.g. `to-list-id`.
    pub open spec fn spec_helper_name(self) -> Seq<char> {
        match self {
            SymbolKind::WorkspaceUuid => "to-workspace-uuid"@,
            SymbolKind::WorkspaceId => "to-workspace-id"@,
            SymbolKind::WorkspaceName => "to-workspace-name"@,
            SymbolKind::ListId => "to-list-id"@,
            SymbolKind::ListShortId => "to-list-short-id"@,
            SymbolKind::ListUuid => "to-list-uuid"@,
            SymbolKind::ListClass => "to-list-class"@,
            SymbolKind::ListName => "to-list-name"@,
            SymbolKind::FieldId => "to-field-id"@,
            SymbolKind::FieldUuid => "to-field-uuid"@,
            SymbolKind::FieldName => "to-field-name"@,
        }
    }

    pub fn helper_name(self) -> (r: &'static str)
        ensures
            r@ == self.spec_helper_name(),
    {
        match self {
            SymbolKind::WorkspaceUuid => "to-workspace-uuid",
            SymbolKind::WorkspaceId => "to-workspace-id",
            SymbolKind::WorkspaceName => "to-workspace-name",
            SymbolKind::ListId => "to-list-id",
            SymbolKind::ListShortId => "to-list-short-id",
            SymbolKind::ListUuid => "to-list-uuid",
            SymbolKind::ListClass => "to-list-class",
            SymbolKind::ListName => "to-list-name",
            SymbolKind::FieldId => "to-field-id",
            SymbolKind::FieldUuid => "to-field-uuid",
            SymbolKind::FieldName => "to-field-name",
        }
    }

    fn prefix(self) -> (r: &'static str)
        ensures
            r@ == self.spec_prefix(),
    {
        match self {
            SymbolKind::WorkspaceUuid | SymbolKind::WorkspaceId | SymbolKind::WorkspaceName => "WORKSPACE_",
            SymbolKind::ListId | SymbolKind::ListShortId | SymbolKind::ListUuid | SymbolKind::ListName => "LIST_",
            SymbolKind::ListClass => "",
            SymbolKind::FieldId | SymbolKind::FieldUuid | SymbolKind::FieldName => "FIELD_",
        }
    }

    fn suffix(self) -> (r: &'static str)
        ensures
            r@ == self.spec_suffix(),
    {
        match self {
            SymbolKind::WorkspaceUuid | SymbolKind::ListUuid | SymbolKind::FieldUuid => "_UUID",
            SymbolKind::WorkspaceId | SymbolKind::ListId | SymbolKind::FieldId => "_ID",
            SymbolKind::WorkspaceName | SymbolKind::ListName | SymbolKind::FieldName => "_NAME",
            SymbolKind::ListShortId => "_SHORT_ID",
            SymbolKind::ListClass => "List",
        }
    }

    /// The symbol for `name`: prefix, cased name, suffix.
    pub fn symbol(self, name: &str) -> (r: String)
        ensures
            r@ == self.spec_symbol(name@),
    {
        let cased = match self {
            SymbolKind::ListClass => to_pascal_case(name),
            _ => to_screaming_snake_case(name),
        };
        concat3(self.prefix(), cased.as_str(), self.suffix())
    }
}

/// Type name of a list's items: the list's item name when it has one, else
/// the list name, in class case.
pub open spec fn item_name_of(l: ListSchema) -> Seq<char> {
    match l.item_name {
        Some(n) => class_case_of(n@),
        None => class_case_of(l.name@),
    }
}

/// Plural of the item type name: the list's plural item name in class case
/// when it has one, else the plural of the item name.
pub open spec fn item_plural_of(l: ListSchema) -> Seq<char> {
    match l.item_name_plural {
        Some(n) => class_case_of(n@),
        None => plural_of(item_name_of(l)),
    }
}

pub fn item_name(l: &ListSchema) -> (r: String)
    requires
        l.name@.len() > 0,
        l.item_name is Some ==> l.item_name->Some_0@.len() > 0,
    ensures
        r@ == item_name_of(*l),
{
    match &l.item_name {
        Some(n) => to_class_case(n.as_str()),
        None => to_class_case(l.name.as_str()),
    }
}

pub fn item_plural(l: &ListSchema, item: &String) -> (r: String)
    requires
        item@ == item_name_of(*l),
        l.item_name_plural is Some ==> l.item_name_plural->Some_0@.len() > 0,
    ensures
        r@ == item_plural_of(*l),
{
    match &l.item_name_plural {
        Some(n) => to_class_case(n.as_str()),
        None => to_plural(item.as_str()),
    }
}

/// Module (and file) name of a list: its name in snake case. An empty name
/// is no valid input.
pub fn module_name(name: &str) -> (r: String)
    requires
        name@.len() > 0,
    ensures
        r@ == snake_case_of(name@),
{
    to_snake_case(name)
}

} // verus!
