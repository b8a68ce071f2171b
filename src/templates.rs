//! The templates that generated modules are rendered from, and the
//! registration of templates and symbol helpers in a registry.
use crate::error::Error;
use crate::naming::SymbolKind;
use crate::render::{
    register_symbol_helper, register_template, registry_ready, registry_symbol_helpers, registry_templates,
    template_error_text, template_parses,
};
use vstd::prelude::*;

verus! {

/// A named template.
#[derive(Clone, Copy, Debug, PartialEq, Eq, Structural)]
pub enum Template {
    LibMain,
    StartListImpl,
    CategoryLabelLookup,
    EndListImpl,
    StartItemBuilder,
    EndItemBuilder,
    FieldConst,
    GetTextField,
    GetUrlField,
    GetIntField,
    GetFloatField,
    GetFormulaField,
    GetCheckboxField,
    GetDateField,
    GetDateXField,
    CategoryGetterPerLabel,
    CategoryGettersPerField,
    GetPersonField,
    GetReferences,
    GetSubitemsField,
    GetFilesField,
    SetTextField,
    SetIntField,
    SetFloatField,
    SetCheckboxField,
    SetUrlField,
    SetDateField,
    SetPersonField,
    SetReferences,
    SetSubitems,
    CategorySetterPerLabel,
    CategorySetterPerField,
    BuilderExecute,
    CargoToml,
}

/// Every template, in registration order.
pub open spec fn template_list() -> Seq<Template> {
    seq![
        Template::LibMain,
        Template::StartListImpl,
        Template::CategoryLabelLookup,
        Template::EndListImpl,
        Template::StartItemBuilder,
        Template::EndItemBuilder,
        Template::FieldConst,
        Template::GetTextField,
        Template::GetUrlField,
        Template::GetIntField,
        Template::GetFloatField,
        Template::GetFormulaField,
        Template::GetCheckboxField,
        Template::GetDateField,
        Template::GetDateXField,
        Template::CategoryGetterPerLabel,
        Template::CategoryGettersPerField,
        Template::GetPersonField,
        Template::GetReferences,
        Template::GetSubitemsField,
        Template::GetFilesField,
        Template::SetTextField,
        Template::SetIntField,
        Template::SetFloatField,
        Template::SetCheckboxField,
        Template::SetUrlField,
        Template::SetDateField,
        Template::SetPersonField,
        Template::SetReferences,
        Template::SetSubitems,
        Template::CategorySetterPerLabel,
        Template::CategorySetterPerField,
        Template::BuilderExecute,
        Template::CargoToml,
    ]
}

/// `m` with each template of `ts` registered in turn under its name.
pub open spec fn insert_templates(m: Map<Seq<char>, Seq<char>>, ts: Seq<Template>) -> Map<Seq<char>, Seq<char>>
    decreases ts.len(),
{
    if ts.len() == 0 {
        m
    } else {
        insert_templates(m, ts.drop_last()).insert(ts.last().spec_name(), ts.last().spec_source())
    }
}

/// The templates of the generator's registry.
pub open spec fn template_table() -> Map<Seq<char>, Seq<char>> {
    insert_templates(Map::empty(), template_list())
}

/// Whether every template parses.
pub open spec fn all_templates_parse() -> bool {
    forall|t: Template| #[trigger] template_parses(t.spec_source())
}

pub proof fn lemma_template_position(t: Template)
    ensures
        0 <= t.spec_position() < template_list().len(),
        template_list()[t.spec_position()] == t,
{
}

spec fn template_named(n: Seq<char>) -> Option<Template> {
    if n.len() == 8 {
        Some(Template::LibMain)
    } else if n.len() == 15 && n[0] == 's' && n[1] == 't' {
        Some(Template::StartListImpl)
    } else if n.len() == 21 {
        Some(Template::CategoryLabelLookup)
    } else if n.len() == 13 && n[0] == 'e' {
        Some(Template::EndListImpl)
    } else if n.len() == 18 && n[0] == 's' && n[1] == 't' {
        Some(Template::StartItemBuilder)
    } else if n.len() == 16 && n[0] == 'e' {
        Some(Template::EndItemBuilder)
    } else if n.len() == 11 {
        Some(Template::FieldConst)
    } else if n.len() == 14 && n[0] == 'g' && n[4] == 't' {
        Some(Template::GetTextField)
    } else if n.len() == 13 && n[0] == 'g' && n[4] == 'u' {
        Some(Template::GetUrlField)
    } else if n.len() == 13 && n[0] == 'g' && n[4] == 'i' {
        Some(Template::GetIntField)
    } else if n.len() == 15 && n[0] == 'g' && n[5] == 'l' {
        Some(Template::GetFloatField)
    } else if n.len() == 17 {
        Some(Template::GetFormulaField)
    } else if n.len() == 18 && n[0] == 'g' && n[4] == 'c' {
        Some(Template::GetCheckboxField)
    } else if n.len() == 14 && n[0] == 'g' && n[4] == 'd' {
        Some(Template::GetDateField)
    } else if n.len() == 16 && n[0] == 'g' && n[4] == 'd' {
        Some(Template::GetDateXField)
    } else if n.len() == 25 && n[9] == 'g' {
        Some(Template::CategoryGetterPerLabel)
    } else if n.len() == 26 {
        Some(Template::CategoryGettersPerField)
    } else if n.len() == 16 && n[0] == 'g' && n[4] == 'p' {
        Some(Template::GetPersonField)
    } else if n.len() == 14 && n[0] == 'g' && n[4] == 'r' {
        Some(Template::GetReferences)
    } else if n.len() == 18 && n[0] == 'g' && n[4] == 's' {
        Some(Template::GetSubitemsField)
    } else if n.len() == 15 && n[0] == 'g' && n[5] == 'i' {
        Some(Template::GetFilesField)
    } else if n.len() == 14 && n[0] == 's' && n[4] == 't' {
        Some(Template::SetTextField)
    } else if n.len() == 13 && n[0] == 's' && n[4] == 'i' {
        Some(Template::SetIntField)
    } else if n.len() == 15 && n[0] == 's' && n[1] == 'e' {
        Some(Template::SetFloatField)
    } else if n.len() == 18 && n[0] == 's' && n[1] == 'e' {
        Some(Template::SetCheckboxField)
    } else if n.len() == 13 && n[0] == 's' && n[4] == 'u' {
        Some(Template::SetUrlField)
    } else if n.len() == 14 && n[0] == 's' && n[4] == 'd' {
        Some(Template::SetDateField)
    } else if n.len() == 16 && n[0] == 's' {
        Some(Template::SetPersonField)
    } else if n.len() == 14 && n[0] == 's' && n[4] == 'r' {
        Some(Template::SetReferences)
    } else if n.len() == 12 {
        Some(Template::SetSubitems)
    } else if n.len() == 25 && n[9] == 's' && n[20] == 'l' {
        Some(Template::CategorySetterPerLabel)
    } else if n.len() == 25 && n[9] == 's' && n[20] == 'f' {
        Some(Template::CategorySetterPerField)
    } else if n.len() == 15 && n[0] == 'b' {
        Some(Template::BuilderExecute)
    } else if n.len() == 10 {
        Some(Template::CargoToml)
    } else {
        None
    }
}

/// No two templates share a name.
pub proof fn lemma_template_names_distinct()
    ensures
        forall|a: Template, b: Template| #[trigger] a.spec_name() == #[trigger] b.spec_name() ==> a == b,
{
    assert forall|t: Template| #[trigger] template_named(t.spec_name()) == Some(t) by {
        match t {
            Template::LibMain => {
                reveal_strlit("lib_main");
            },
            Template::StartListImpl => {
                reveal_strlit("start_list_impl");
            },
            Template::CategoryLabelLookup => {
                reveal_strlit("category_label_lookup");
            },
            Template::EndListImpl => {
                reveal_strlit("end_list_impl");
            },
            Template::StartItemBuilder => {
                reveal_strlit("start_item_builder");
            },
            Template::EndItemBuilder => {
                reveal_strlit("end_item_builder");
            },
            Template::FieldConst => {
                reveal_strlit("field_const");
            },
            Template::GetTextField => {
                reveal_strlit("get_text_field");
            },
            Template::GetUrlField => {
                reveal_strlit("get_url_field");
            },
            Template::GetIntField => {
                reveal_strlit("get_int_field");
            },
            Template::GetFloatField => {
                reveal_strlit("get_float_field");
            },
            Template::GetFormulaField => {
                reveal_strlit("get_formula_field");
            },
            Template::GetCheckboxField => {
                reveal_strlit("get_checkbox_field");
            },
            Template::GetDateField => {
                reveal_strlit("get_date_field");
            },
            Template::GetDateXField => {
                reveal_strlit("get_date_x_field");
            },
            Template::CategoryGetterPerLabel => {
                reveal_strlit("category_getter_per_label");
            },
            Template::CategoryGettersPerField => {
                reveal_strlit("category_getters_per_field");
            },
            Template::GetPersonField => {
                reveal_strlit("get_person_field");
            },
            Template::GetReferences => {
                reveal_strlit("get_references");
            },
            Template::GetSubitemsField => {
                reveal_strlit("get_subitems_field");
            },
            Template::GetFilesField => {
                reveal_strlit("get_files_field");
            },
            Template::SetTextField => {
                reveal_strlit("set_text_field");
            },
            Template::SetIntField => {
                reveal_strlit("set_int_field");
            },
            Template::SetFloatField => {
                reveal_strlit("set_float_field");
            },
            Template::SetCheckboxField => {
                reveal_strlit("set_checkbox_field");
            },
            Template::SetUrlField => {
                reveal_strlit("set_url_field");
            },
            Template::SetDateField => {
                reveal_strlit("set_date_field");
            },
            Template::SetPersonField => {
                reveal_strlit("set_person_field");
            },
            Template::SetReferences => {
                reveal_strlit("set_references");
            },
            Template::SetSubitems => {
                reveal_strlit("set_subitems");
            },
            Template::CategorySetterPerLabel => {
                reveal_strlit("category_setter_per_label");
            },
            Template::CategorySetterPerField => {
                reveal_strlit("category_setter_per_field");
            },
            Template::BuilderExecute => {
                reveal_strlit("builder_execute");
            },
            Template::CargoToml => {
                reveal_strlit("cargo_toml");
            },
        }
    }
    assert forall|a: Template, b: Template| #[trigger] a.spec_name() == #[trigger] b.spec_name() implies a == b by {
        assert(template_named(a.spec_name()) == Some(a));
        assert(template_named(b.spec_name()) == Some(b));
    }
}

/// After registering `ts` (whose names are distinct) on top of `m`, each of
/// them is registered with its text.
pub proof fn lemma_insert_templates(m: Map<Seq<char>, Seq<char>>, ts: Seq<Template>)
    ensures
        forall|t: Template| #[trigger] ts.contains(t) ==> insert_templates(m, ts).contains_key(t.spec_name())
            && insert_templates(m, ts)[t.spec_name()] == t.spec_source(),
    decreases ts.len(),
{
    lemma_template_names_distinct();
    if ts.len() > 0 {
        lemma_insert_templates(m, ts.drop_last());
        assert forall|t: Template| #[trigger] ts.contains(t) implies insert_templates(m, ts).contains_key(t.spec_name())
            && insert_templates(m, ts)[t.spec_name()] == t.spec_source() by {
            if t != ts.last() {
                let i = choose|i: int| 0 <= i < ts.len() && ts[i] == t;
                assert(ts.drop_last()[i] == t);
                assert(ts.drop_last().contains(t));
            }
        }
    }
}

impl Template {
    /// The name under which the template is registered.
    pub open spec fn spec_name(self) -> Seq<char> {
        match self {
            Template::LibMain => "lib_main"@,
            Template::StartListImpl => "start_list_impl"@,
            Template::CategoryLabelLookup => "category_label_lookup"@,
            Template::EndListImpl => "end_list_impl"@,
            Template::StartItemBuilder => "start_item_builder"@,
            Template::EndItemBuilder => "end_item_builder"@,
            Template::FieldConst => "field_const"@,
            Template::GetTextField => "get_text_field"@,
            Template::GetUrlField => "get_url_field"@,
            Template::GetIntField => "get_int_field"@,
            Template::GetFloatField => "get_float_field"@,
            Template::GetFormulaField => "get_formula_field"@,
            Template::GetCheckboxField => "get_checkbox_field"@,
            Template::GetDateField => "get_date_field"@,
            Template::GetDateXField => "get_date_x_field"@,
            Template::CategoryGetterPerLabel => "category_getter_per_label"@,
            Template::CategoryGettersPerField => "category_getters_per_field"@,
            Template::GetPersonField => "get_person_field"@,
            Template::GetReferences => "get_references"@,
            Template::GetSubitemsField => "get_subitems_field"@,
            Template::GetFilesField => "get_files_field"@,
            Template::SetTextField => "set_text_field"@,
            Template::SetIntField => "set_int_field"@,
            Template::SetFloatField => "set_float_field"@,
            Template::SetCheckboxField => "set_checkbox_field"@,
            Template::SetUrlField => "set_url_field"@,
            Template::SetDateField => "set_date_field"@,
            Template::SetPersonField => "set_person_field"@,
            Template::SetReferences => "set_references"@,
            Template::SetSubitems => "set_subitems"@,
            Template::CategorySetterPerLabel => "category_setter_per_label"@,
            Template::CategorySetterPerField => "category_setter_per_field"@,
            Template::BuilderExecute => "builder_execute"@,
            Template::CargoToml => "cargo_toml"@,
        }
    }

    pub fn name(self) -> (r: &'static str)
        ensures
            r@ == self.spec_name(),
    {
        match self {
            Template::LibMain => "lib_main",
            Template::StartListImpl => "start_list_impl",
            Template::CategoryLabelLookup => "category_label_lookup",
            Template::EndListImpl => "end_list_impl",
            Template::StartItemBuilder => "start_item_builder",
            Template::EndItemBuilder => "end_item_builder",
            Template::FieldConst => "field_const",
            Template::GetTextField => "get_text_field",
            Template::GetUrlField => "get_url_field",
            Template::GetIntField => "get_int_field",
            Template::GetFloatField => "get_float_field",
            Template::GetFormulaField => "get_formula_field",
            Template::GetCheckboxField => "get_checkbox_field",
            Template::GetDateField => "get_date_field",
            Template::GetDateXField => "get_date_x_field",
            Template::CategoryGetterPerLabel => "category_getter_per_label",
            Template::CategoryGettersPerField => "category_getters_per_field",
            Template::GetPersonField => "get_person_field",
            Template::GetReferences => "get_references",
            Template::GetSubitemsField => "get_subitems_field",
            Template::GetFilesField => "get_files_field",
            Template::SetTextField => "set_text_field",
            Template::SetIntField => "set_int_field",
            Template::SetFloatField => "set_float_field",
            Template::SetCheckboxField => "set_checkbox_field",
            Template::SetUrlField => "set_url_field",
            Template::SetDateField => "set_date_field",
            Template::SetPersonField => "set_person_field",
            Template::SetReferences => "set_references",
            Template::SetSubitems => "set_subitems",
            Template::CategorySetterPerLabel => "category_setter_per_label",
            Template::CategorySetterPerField => "category_setter_per_field",
            Template::BuilderExecute => "builder_execute",
            Template::CargoToml => "cargo_toml",
        }
    }

    /// The template text.
    pub open spec fn spec_source(self) -> Seq<char> {
        match self {
            Template::LibMain => SRC_LIB_MAIN@,
            Template::StartListImpl => SRC_START_LIST_IMPL@,
            Template::CategoryLabelLookup => SRC_CATEGORY_LABEL_LOOKUP@,
            Template::EndListImpl => SRC_END_LIST_IMPL@,
            Template::StartItemBuilder => SRC_START_ITEM_BUILDER@,
            Template::EndItemBuilder => SRC_END_ITEM_BUILDER@,
            Template::FieldConst => SRC_FIELD_CONST@,
            Template::GetTextField => SRC_GET_TEXT_FIELD@,
            Template::GetUrlField => SRC_GET_URL_FIELD@,
            Template::GetIntField => SRC_GET_INT_FIELD@,
            Template::GetFloatField => SRC_GET_FLOAT_FIELD@,
            Template::GetFormulaField => SRC_GET_FORMULA_FIELD@,
            Template::GetCheckboxField => SRC_GET_CHECKBOX_FIELD@,
            Template::GetDateField => SRC_GET_DATE_FIELD@,
            Template::GetDateXField => SRC_GET_DATE_X_FIELD@,
            Template::CategoryGetterPerLabel => SRC_CATEGORY_GETTER_PER_LABEL@,
            Template::CategoryGettersPerField => SRC_CATEGORY_GETTERS_PER_FIELD@,
            Template::GetPersonField => SRC_GET_PERSON_FIELD@,
            Template::GetReferences => SRC_GET_REFERENCES@,
            Template::GetSubitemsField => SRC_GET_SUBITEMS_FIELD@,
            Template::GetFilesField => SRC_GET_FILES_FIELD@,
            Template::SetTextField => SRC_SET_TEXT_FIELD@,
            Template::SetIntField => SRC_SET_INT_FIELD@,
            Template::SetFloatField => SRC_SET_FLOAT_FIELD@,
            Template::SetCheckboxField => SRC_SET_CHECKBOX_FIELD@,
            Template::SetUrlField => SRC_SET_URL_FIELD@,
            Template::SetDateField => SRC_SET_DATE_FIELD@,
            Template::SetPersonField => SRC_SET_PERSON_FIELD@,
            Template::SetReferences => SRC_SET_REFERENCES@,
            Template::SetSubitems => SRC_SET_SUBITEMS@,
            Template::CategorySetterPerLabel => SRC_CATEGORY_SETTER_PER_LABEL@,
            Template::CategorySetterPerField => SRC_CATEGORY_SETTER_PER_FIELD@,
            Template::BuilderExecute => SRC_BUILDER_EXECUTE@,
            Template::CargoToml => SRC_CARGO_TOML@,
        }
    }

    /// Position of the template in `template_list`.
    pub open spec fn spec_position(self) -> int {
        match self {
            Template::LibMain => 0,
            Template::StartListImpl => 1,
            Template::CategoryLabelLookup => 2,
            Template::EndListImpl => 3,
            Template::StartItemBuilder => 4,
            Template::EndItemBuilder => 5,
            Template::FieldConst => 6,
            Template::GetTextField => 7,
            Template::GetUrlField => 8,
            Template::GetIntField => 9,
            Template::GetFloatField => 10,
            Template::GetFormulaField => 11,
            Template::GetCheckboxField => 12,
            Template::GetDateField => 13,
            Template::GetDateXField => 14,
            Template::CategoryGetterPerLabel => 15,
            Template::CategoryGettersPerField => 16,
            Template::GetPersonField => 17,
            Template::GetReferences => 18,
            Template::GetSubitemsField => 19,
            Template::GetFilesField => 20,
            Template::SetTextField => 21,
            Template::SetIntField => 22,
            Template::SetFloatField => 23,
            Template::SetCheckboxField => 24,
            Template::SetUrlField => 25,
            Template::SetDateField => 26,
            Template::SetPersonField => 27,
            Template::SetReferences => 28,
            Template::SetSubitems => 29,
            Template::CategorySetterPerLabel => 30,
            Template::CategorySetterPerField => 31,
            Template::BuilderExecute => 32,
            Template::CargoToml => 33,
        }
    }

    pub fn source(self) -> (r: &'static str)
        ensures
            r@ == self.spec_source(),
    {
        match self {
            Template::LibMain => SRC_LIB_MAIN,
            Template::StartListImpl => SRC_START_LIST_IMPL,
            Template::CategoryLabelLookup => SRC_CATEGORY_LABEL_LOOKUP,
            Template::EndListImpl => SRC_END_LIST_IMPL,
            Template::StartItemBuilder => SRC_START_ITEM_BUILDER,
            Template::EndItemBuilder => SRC_END_ITEM_BUILDER,
            Template::FieldConst => SRC_FIELD_CONST,
            Template::GetTextField => SRC_GET_TEXT_FIELD,
            Template::GetUrlField => SRC_GET_URL_FIELD,
            Template::GetIntField => SRC_GET_INT_FIELD,
            Template::GetFloatField => SRC_GET_FLOAT_FIELD,
            Template::GetFormulaField => SRC_GET_FORMULA_FIELD,
            Template::GetCheckboxField => SRC_GET_CHECKBOX_FIELD,
            Template::GetDateField => SRC_GET_DATE_FIELD,
            Template::GetDateXField => SRC_GET_DATE_X_FIELD,
            Template::CategoryGetterPerLabel => SRC_CATEGORY_GETTER_PER_LABEL,
            Template::CategoryGettersPerField => SRC_CATEGORY_GETTERS_PER_FIELD,
            Template::GetPersonField => SRC_GET_PERSON_FIELD,
            Template::GetReferences => SRC_GET_REFERENCES,
            Template::GetSubitemsField => SRC_GET_SUBITEMS_FIELD,
            Template::GetFilesField => SRC_GET_FILES_FIELD,
            Template::SetTextField => SRC_SET_TEXT_FIELD,
            Template::SetIntField => SRC_SET_INT_FIELD,
            Template::SetFloatField => SRC_SET_FLOAT_FIELD,
            Template::SetCheckboxField => SRC_SET_CHECKBOX_FIELD,
            Template::SetUrlField => SRC_SET_URL_FIELD,
            Template::SetDateField => SRC_SET_DATE_FIELD,
            Template::SetPersonField => SRC_SET_PERSON_FIELD,
            Template::SetReferences => SRC_SET_REFERENCES,
            Template::SetSubitems => SRC_SET_SUBITEMS,
            Template::CategorySetterPerLabel => SRC_CATEGORY_SETTER_PER_LABEL,
            Template::CategorySetterPerField => SRC_CATEGORY_SETTER_PER_FIELD,
            Template::BuilderExecute => SRC_BUILDER_EXECUTE,
            Template::CargoToml => SRC_CARGO_TOML,
        }
    }
}

/// Registers every template in `registry`; fails with the parser's message
/// when a template does not parse.
pub fn add_templates(registry: &mut handlebars::Handlebars<'static>) -> (r: Result<(), Error>)
    ensures
        r is Ok <==> all_templates_parse(),
        r is Err ==> r->Err_0 is Message,
        r is Ok ==> registry_templates(*final(registry)) == insert_templates(registry_templates(*old(registry)), template_list()),
        r is Ok ==> forall|t: Template| #![trigger t.spec_name()]
            registry_templates(*final(registry)).contains_key(t.spec_name())
                && registry_templates(*final(registry))[t.spec_name()] == t.spec_source(),
        registry_symbol_helpers(*final(registry)) == registry_symbol_helpers(*old(registry)),
        registry_ready(*final(registry)) == registry_ready(*old(registry)),
{
    let templates: Vec<Template> = vec![
        Template::LibMain,
        Template::StartListImpl,
        Template::CategoryLabelLookup,
        Template::EndListImpl,
        Template::StartItemBuilder,
        Template::EndItemBuilder,
        Template::FieldConst,
        Template::GetTextField,
        Template::GetUrlField,
        Template::GetIntField,
        Template::GetFloatField,
        Template::GetFormulaField,
        Template::GetCheckboxField,
        Template::GetDateField,
        Template::GetDateXField,
        Template::CategoryGetterPerLabel,
        Template::CategoryGettersPerField,
        Template::GetPersonField,
        Template::GetReferences,
        Template::GetSubitemsField,
        Template::GetFilesField,
        Template::SetTextField,
        Template::SetIntField,
        Template::SetFloatField,
        Template::SetCheckboxField,
        Template::SetUrlField,
        Template::SetDateField,
        Template::SetPersonField,
        Template::SetReferences,
        Template::SetSubitems,
        Template::CategorySetterPerLabel,
        Template::CategorySetterPerField,
        Template::BuilderExecute,
        Template::CargoToml,
    ];
    assert(templates@ =~= template_list());
    let ghost m0 = registry_templates(*registry);
    let mut i: usize = 0;
    assert(template_list().subrange(0, 0) =~= Seq::<Template>::empty());
    while i < templates.len()
        invariant
            templates@ == template_list(),
            i <= templates@.len(),
            registry_templates(*registry) == insert_templates(m0, template_list().subrange(0, i as int)),
            forall|j: int| 0 <= j < i ==> #[trigger] template_parses(template_list()[j].spec_source()),
            m0 == registry_templates(*old(registry)),
            registry_symbol_helpers(*registry) == registry_symbol_helpers(*old(registry)),
            registry_ready(*registry) == registry_ready(*old(registry)),
        decreases templates@.len() - i,
    {
        let t = templates[i];
        match register_template(registry, t.name(), t.source()) {
            Ok(()) => {},
            Err(e) => {
                return Err(Error::Message(template_error_text(&e)));
            },
        }
        assert(template_list().subrange(0, i + 1).drop_last() =~= template_list().subrange(0, i as int));
        i = i + 1;
    }
    assert(template_list().subrange(0, template_list().len() as int) =~= template_list());
    proof {
        assert forall|t: Template| #[trigger] template_parses(t.spec_source()) by {
            lemma_template_position(t);
        }
        lemma_insert_templates(m0, template_list());
        assert forall|t: Template| #![trigger t.spec_name()] registry_templates(*registry).contains_key(t.spec_name())
            && registry_templates(*registry)[t.spec_name()] == t.spec_source() by {
            lemma_template_position(t);
            assert(template_list().contains(t));
        }
    }
    Ok(())
}

/// Every symbol kind, in registration order.
pub open spec fn helper_kinds() -> Seq<SymbolKind> {
    seq![
        SymbolKind::WorkspaceUuid,
        SymbolKind::WorkspaceId,
        SymbolKind::WorkspaceName,
        SymbolKind::ListId,
        SymbolKind::ListShortId,
        SymbolKind::ListUuid,
        SymbolKind::ListClass,
        SymbolKind::ListName,
        SymbolKind::FieldId,
        SymbolKind::FieldUuid,
        SymbolKind::FieldName,
    ]
}

/// `m` with the helper of each kind of `ks` registered in turn under its name.
pub open spec fn insert_helpers(m: Map<Seq<char>, SymbolKind>, ks: Seq<SymbolKind>) -> Map<Seq<char>, SymbolKind>
    decreases ks.len(),
{
    if ks.len() == 0 {
        m
    } else {
        insert_helpers(m, ks.drop_last()).insert(ks.last().spec_helper_name(), ks.last())
    }
}

/// The symbol helpers of the generator's registry.
pub open spec fn helper_table() -> Map<Seq<char>, SymbolKind> {
    insert_helpers(Map::empty(), helper_kinds())
}

pub proof fn lemma_helper_position(k: SymbolKind)
    ensures
        helper_kinds().contains(k),
{
    let i: int = match k {
        SymbolKind::WorkspaceUuid => 0,
        SymbolKind::WorkspaceId => 1,
        SymbolKind::WorkspaceName => 2,
        SymbolKind::ListId => 3,
        SymbolKind::ListShortId => 4,
        SymbolKind::ListUuid => 5,
        SymbolKind::ListClass => 6,
        SymbolKind::ListName => 7,
        SymbolKind::FieldId => 8,
        SymbolKind::FieldUuid => 9,
        SymbolKind::FieldName => 10,
    };
    assert(helper_kinds()[i] == k);
}

spec fn helper_named(n: Seq<char>) -> Option<SymbolKind> {
    if n.len() == 17 && n[13] == 'u' {
        Some(SymbolKind::WorkspaceUuid)
    } else if n.len() == 15 {
        Some(SymbolKind::WorkspaceId)
    } else if n.len() == 17 && n[13] == 'n' {
        Some(SymbolKind::WorkspaceName)
    } else if n.len() == 10 {
        Some(SymbolKind::ListId)
    } else if n.len() == 16 {
        Some(SymbolKind::ListShortId)
    } else if n.len() == 12 && n[8] == 'u' {
        Some(SymbolKind::ListUuid)
    } else if n.len() == 13 && n[3] == 'l' {
        Some(SymbolKind::ListClass)
    } else if n.len() == 12 && n[8] == 'n' {
        Some(SymbolKind::ListName)
    } else if n.len() == 11 {
        Some(SymbolKind::FieldId)
    } else if n.len() == 13 && n[3] == 'f' && n[9] == 'u' {
        Some(SymbolKind::FieldUuid)
    } else if n.len() == 13 && n[3] == 'f' && n[9] == 'n' {
        Some(SymbolKind::FieldName)
    } else {
        None
    }
}

/// No two symbol helpers share a name.
pub proof fn lemma_helper_names_distinct()
    ensures
        forall|a: SymbolKind, b: SymbolKind| #[trigger] a.spec_helper_name() == #[trigger] b.spec_helper_name() ==> a == b,
{
    assert forall|k: SymbolKind| #[trigger] helper_named(k.spec_helper_name()) == Some(k) by {
        match k {
            SymbolKind::WorkspaceUuid => {
                reveal_strlit("to-workspace-uuid");
            },
            SymbolKind::WorkspaceId => {
                reveal_strlit("to-workspace-id");
            },
            SymbolKind::WorkspaceName => {
                reveal_strlit("to-workspace-name");
            },
            SymbolKind::ListId => {
                reveal_strlit("to-list-id");
            },
            SymbolKind::ListShortId => {
                reveal_strlit("to-list-short-id");
            },
            SymbolKind::ListUuid => {
                reveal_strlit("to-list-uuid");
            },
            SymbolKind::ListClass => {
                reveal_strlit("to-list-class");
            },
            SymbolKind::ListName => {
                reveal_strlit("to-list-name");
            },
            SymbolKind::FieldId => {
                reveal_strlit("to-field-id");
            },
            SymbolKind::FieldUuid => {
                reveal_strlit("to-field-uuid");
            },
            SymbolKind::FieldName => {
                reveal_strlit("to-field-name");
            },
        }
    }
    assert forall|a: SymbolKind, b: SymbolKind| #[trigger] a.spec_helper_name() == #[trigger] b.spec_helper_name() implies a == b by {
        assert(helper_named(a.spec_helper_name()) == Some(a));
        assert(helper_named(b.spec_helper_name()) == Some(b));
    }
}

/// After registering the helpers of `ks` on top of `m`, the helper of each
/// kind in `ks` is registered under its name.
pub proof fn lemma_insert_helpers(m: Map<Seq<char>, SymbolKind>, ks: Seq<SymbolKind>)
    ensures
        forall|k: SymbolKind| #[trigger] ks.contains(k) ==> insert_helpers(m, ks).contains_key(k.spec_helper_name())
            && insert_helpers(m, ks)[k.spec_helper_name()] == k,
    decreases ks.len(),
{
    lemma_helper_names_distinct();
    if ks.len() > 0 {
        lemma_insert_helpers(m, ks.drop_last());
        assert forall|k: SymbolKind| #[trigger] ks.contains(k) implies insert_helpers(m, ks).contains_key(k.spec_helper_name())
            && insert_helpers(m, ks)[k.spec_helper_name()] == k by {
            if k != ks.last() {
                let i = choose|i: int| 0 <= i < ks.len() && ks[i] == k;
                assert(ks.drop_last()[i] == k);
                assert(ks.drop_last().contains(k));
            }
        }
    }
}

/// Registers the symbol helpers (`to-list-id`, `to-field-uuid`, ...), each
/// under its name, so that templates spell generated symbols consistently:
/// the helper named `k.spec_helper_name()` writes `k.symbol(p)` for its
/// parameter `p`.
pub fn add_helpers(registry: &mut handlebars::Handlebars<'static>) -> (r: Result<(), Error>)
    ensures
        r is Ok,
        registry_symbol_helpers(*final(registry)) == insert_helpers(registry_symbol_helpers(*old(registry)), helper_kinds()),
        forall|k: SymbolKind| #![trigger k.spec_helper_name()]
            registry_symbol_helpers(*final(registry)).contains_key(k.spec_helper_name())
                && registry_symbol_helpers(*final(registry))[k.spec_helper_name()] == k,
        registry_templates(*final(registry)) == registry_templates(*old(registry)),
        registry_ready(*old(registry)) ==> registry_ready(*final(registry)),
{
    let kinds: Vec<SymbolKind> = vec![
        SymbolKind::WorkspaceUuid,
        SymbolKind::WorkspaceId,
        SymbolKind::WorkspaceName,
        SymbolKind::ListId,
        SymbolKind::ListShortId,
        SymbolKind::ListUuid,
        SymbolKind::ListClass,
        SymbolKind::ListName,
        SymbolKind::FieldId,
        SymbolKind::FieldUuid,
        SymbolKind::FieldName,
    ];
    assert(kinds@ =~= helper_kinds());
    let ghost m0 = registry_symbol_helpers(*registry);
    let mut i: usize = 0;
    assert(helper_kinds().subrange(0, 0) =~= Seq::<SymbolKind>::empty());
    while i < kinds.len()
        invariant
            kinds@ == helper_kinds(),
            i <= kinds@.len(),
            registry_symbol_helpers(*registry) == insert_helpers(m0, helper_kinds().subrange(0, i as int)),
            m0 == registry_symbol_helpers(*old(registry)),
            registry_templates(*registry) == registry_templates(*old(registry)),
            registry_ready(*old(registry)) ==> registry_ready(*registry),
        decreases kinds@.len() - i,
    {
        let k = kinds[i];
        register_symbol_helper(registry, k.helper_name(), k);
        assert(helper_kinds().subrange(0, i + 1).drop_last() =~= helper_kinds().subrange(0, i as int));
        i = i + 1;
    }
    assert(helper_kinds().subrange(0, helper_kinds().len() as int) =~= helper_kinds());
    proof {
        lemma_insert_helpers(m0, helper_kinds());
        assert forall|k: SymbolKind| #![trigger k.spec_helper_name()] registry_symbol_helpers(*registry).contains_key(k.spec_helper_name())
            && registry_symbol_helpers(*registry)[k.spec_helper_name()] == k by {
            lemma_helper_position(k);
        }
    }
    Ok(())
}

pub const SRC_LIB_MAIN: &'static str = r#"#![allow(dead_code, unused_imports)]
            /// Zenkit Workspace {{ workspace }}
            /// {{ workspace_desc }}

            use std::fmt;
            // use and re-export
            pub use zenkit::{init_api, get_api, ApiClient, ApiConfig,
                             types::{ID,DateTime,Entry,GetEntriesRequest,JsonMap,TextFormat,Utc}};

            {{#each modules ~}}
            mod {{ this }};
            pub use {{ this }}::*;
            {{/each}}

            const ZENKIT_API_TOKEN_VAR: &str = "ZENKIT_API_TOKEN";
            pub(crate) const ZENKIT_ITEM_URL_BASE: &str = "https://base.zenkit.com/i/";

            /// Errors returned by this crate
            #[derive(Debug)]
            pub enum Error {
                Message(String),
                Zenkit(String),
                NoApi,
            }

            impl fmt::Display for Error {
                fn fmt(&self, f: &mut fmt::Formatter<'_>) -> Result<(), fmt::Error> {
                    write!(
                        f,
                        "{:?}",
                        match self {
                            Error::Message(s) => s,
                            Error::Zenkit(s) => s,
                            Error::NoApi => "Api must be initialized with 'initialize_zenkit_api()' before use",
                        }
                    )
                }
            }

            impl From<zenkit::Error> for Error {
                fn from(e: zenkit::Error) -> Error {
                    Error::Zenkit(e.to_string())
                }
            }

            impl From<std::io::Error> for Error {
                fn from(e: std::io::Error) -> Error {
                    Error::Message(e.to_string())
                }
            }

            impl std::error::Error for Error {}

            /// Initialize zenkit using api token.
            /// If token is None, the value will be taken from the environment variable ZENKIT_API_TOKEN.
            /// Returns error if token is undefined
            pub fn initialize_zenkit_api(token: Option<&'_ str>, endpoint: Option<&'_ str>) -> Result<&'static ApiClient, Error>
            {
                let defaults = ApiConfig::default();
                let token = token.unwrap_or(&defaults.token).to_string();
                let endpoint = endpoint.unwrap_or(&defaults.endpoint).to_string();
                let zk = init_api(ApiConfig{token, endpoint}).map_err(|e| Error::Message(e.to_string()))?;
                Ok(zk)
            }

            /// Find id for label name using binary search
            pub(crate) fn lookup_label(lookup_list: &[(&str, ID)], label: &str) -> Option<ID> {
                match lookup_list.binary_search_by(|a| a.0.partial_cmp(label).unwrap()) {
                    Ok(index) => Some(lookup_list[index].1),
                    Err(_) => None,
                }
            }

            ///
            /// Workspace "{{ workspace }}"
            /// {{ workspace_desc }}
            ///
            pub const {{ to-workspace-id workspace }}: ID = {{ workspace_id }};
            pub const {{ to-workspace-uuid workspace }}: &str = "{{ workspace_uuid }}";
            pub const {{ to-workspace-name workspace }}: &str = "{{ workspace }}";

            // Load all entries for a list into memory
            pub(crate) async fn load_entries(list_id: ID) -> Result<Vec<Entry>, Error> {
                let mut ooo_entries: Vec<Entry> = Vec::new();
                let max_items = 500usize;
                let mut start_index = 0usize;
                let api = get_api()?;
                loop {
                    // get the items and build the index
                    let mut results: Vec<Entry> = api
                        .get_list_entries(
                            list_id,
                            &GetEntriesRequest{limit:max_items, skip:start_index, ..Default::default()}
                        ).await?;
                    if results.is_empty() {
                        break;
                    }
                    start_index += results.len();
                    ooo_entries.append(&mut results);
                }
                Ok(ooo_entries)
            }
"#;

pub const SRC_START_LIST_IMPL: &'static str = r#"#![allow(dead_code, unused_imports)]
            //! {{ list_struct }} {{list_desc}}
            use crate::{lookup_label, Error};
            use serde_json::{self, json, Value};
            use std::{convert::AsRef, rc::Rc, str::FromStr};
            use zenkit::{get_api, types::{DateTime, Entry, File, ID, JsonMap, TextFormat, Utc}};

            /// {{ list_struct }} {{list_desc}}
            ///
            pub const {{ to-list-id list }}: ID = {{ list_id }};
            pub const {{ to-list-short-id list }}: &str = "{{ list_short_id }}";
            pub const {{ to-list-uuid list }}: &str = "{{ list_uuid }}";
            pub const {{ to-list-name list }}: &str = "{{ list }}";

            /// {{ list_struct }} - List of {{ item_plural }}
            /// {{list_desc}}
            pub struct {{ list_struct }} { }

            impl {{ list_struct }} {

                /// fetch {{ item }} by its ID
                pub async fn get( {{ to_snake_case item }}_id: ID) -> Result<{{ item }},Error> {
                    let obj = get_api()?.get_entry({{ to-list-id list }}, {{ to_snake_case item }}_id).await?;
                    Ok({{ item }}::new( Rc::new(obj)))
                }

                /// fetch {{ item }} by its UUID
                pub async fn get_by_uuid ( {{ to_snake_case item }}_uuid: &str) -> Result<{{ item }},Error> {
                    let obj = get_api()?.get_entry({{ to-list-id list }}, {{ to_snake_case item }}_uuid).await?;
                    Ok({{ item }}::new(Rc::new(obj)))
                }

                /// Returns all {{ item_plural }}
                pub async fn get_items() -> Result<Vec<{{ item }}>, Error> {
                    let entries = crate::load_entries({{ to-list-id list }}).await?;
                    let items: Vec<{{ item }}> = entries
                        .into_iter()
                        .map(|e| {{item}}::new(Rc::new(e)))
                        .collect();
                    Ok(items)
                }

                /// Initialize builder for creating a new {{item}}
                pub fn create() -> New{{ item }}Builder {
                    New{{ item }}Builder::new()
                }

                /// Creates builder for updating an existing {{item}}
                pub fn update( {{ to_snake_case item }}_id: ID) -> Update{{ item }}Builder {
                    Update{{ item }}Builder::new({{ to_snake_case item }}_id)
                }
            }

            /// {{ item }} (item of List '{{ list }}') {{list_desc}}
            pub struct {{ item }} {
                obj: Rc<Entry>
            }

            impl {{ item }} {

                /// Creates {{ item }} wrapping Zenkit Entry
                fn new(obj: Rc<Entry>) -> Self {
                    Self{ obj }
                }
            "#;

pub const SRC_CATEGORY_LABEL_LOOKUP: &'static str = r#"
            /// Returns the id for a label, or None if not valid for this field
            pub fn label_id_for_{{ to_snake_case field }}(label: &str) -> Option<ID> {
                lookup_label(&{{item}}::LABELS_{{ to_screaming_snake_case field }}, label)
            }

            /// label index used for converting from label name to id (sorted)
            const LABELS_{{ to_screaming_snake_case field }}: [(&'static str,u64);{{ label_count }}] = [
                {{#each labels ~}}
                ("{{ this }}", {{../item}}::LABEL_{{ to_screaming_snake_case ../field }}_{{ to_screaming_snake_case this }}_ID),
                {{/each ~}}
            ];
            "#;

pub const SRC_END_LIST_IMPL: &'static str = r#"

            /// Returns url to zenkit item
            pub fn get_zenkit_url(&self) -> String {
                format!("{}{}/{}/", crate::ZENKIT_ITEM_URL_BASE,
                    {{ to-list-short-id list }}, self.obj.short_id)
            }

            /// Returns the item's display string (based on list's primary field)
            pub fn get_display_string(&self) -> &str {
                &self.obj.display_string
            }

            /// Returns user id that created the item
            pub fn get_created_by_id(&self) -> ID {
                self.obj.created_by
            }

            /// Returns user name that created the item
            pub fn get_created_by_name(&self) -> Option<&str> {
                self.obj.created_by_displayname.as_deref()
            }

            /// Returns user id that created the item
            pub fn get_updated_by_id(&self) -> ID {
                self.obj.updated_by
            }

            /// Returns user name that last updated the item
            pub fn get_updated_by_name(&self) -> Option<&str> {
                self.obj.updated_by_displayname.as_deref()
            }

            /// Returns date the item was created, in UTC
            pub fn get_created_date(&self) -> &DateTime<Utc> {
                &self.obj.created_at
            }

            /// Returns date the item was last updated, in UTC
            pub fn get_updated_date(&self) -> &DateTime<Utc> {
                &self.obj.updated_at
            }

            /// Returns date the item was deprecated, in UTC, or None if item isn't deprecated
            pub fn get_deprecated_date(&self) -> Option<&DateTime<Utc>> {
                self.obj.deprecated_at.as_ref()
            }

            /// Returns user id that deprecated the item, or None if item isn't deprecated
            pub fn get_deprecated_by_id(&self) -> Option<ID> {
                self.obj.deprecated_by
            }

            /// Returns the default sort rank within the list
            pub fn get_sort_order(&self) -> f32 {
                self.obj.sort_order
            }

            /// Returns the item's id within the list
            pub fn get_id(&self) -> ID {
                self.obj.id
            }

            /// Returns the item's uuid
            pub fn get_uuid(&self) -> &str {
                &self.obj.uuid
            }

            /// Returns the underlying Entry object
            pub fn get_entry(&self) -> Rc<Entry> {
                self.obj.clone()
            }

            } // impl {{ item }}
"#;

pub const SRC_START_ITEM_BUILDER: &'static str = r#"
            {{#if is_update_builder ~}}
            /// Builder for updating existing {{ item }}
            {{else ~}}
            /// Builder for creating new {{ item }}
            {{/if ~}}
            pub struct {{ builder }} {
                fields: JsonMap,
                errs: Vec<String>,
                {{#if is_update_builder~}}
                item_id: ID,
                {{/if~}}
            }

            impl {{ builder }} {
                {{#if is_update_builder}}
                /// Create update builder for {{item}} with id
                fn new(item_id: ID) -> Self {
                    Self { fields: JsonMap::new(), errs: Vec::new(), item_id }
                }
                {{else}}
                /// Create builder for new {{item}}
                fn new() -> Self {
                    Self { fields: JsonMap::new(), errs: Vec::new() }
                }
                {{/if}}

                // internal helper for setting string field
                #[inline]
                fn set_s(&mut self, k: &str, v: String) {
                    self.fields.insert(k.to_string(), Value::String(v));
                }
                // internal helper for setting json value
                #[inline]
                fn set_v(&mut self, k: &str, v: Value) {
                    self.fields.insert(k.to_string(), v);
            }
            "#;

pub const SRC_END_ITEM_BUILDER: &'static str = r#"
            } // end impl {{ builder }}
            "#;

pub const SRC_FIELD_CONST: &'static str = r#"
            /// '{{ field }}' in '{{ list }}' {{field_desc}}
            pub const {{ to-field-id field }}: ID = {{ field_id }};
            pub const {{ to-field-uuid field }}: &'static str = "{{ field_uuid }}";
            pub const {{ to-field-name field }}: &'static str = "{{ field }}";
            "#;

pub const SRC_GET_TEXT_FIELD: &'static str = r#"
            /// Returns '{{ field }}' - {{ field_desc }} or None if unset
            pub fn get_{{ to_snake_case field }}(&self) -> Option<&str> {
                self.obj.fields.get("{{ field_uuid }}_text")
                    .map(|v| v.as_str())
                    .unwrap_or_default()
            }

            /// Returns the text format for '{{ field }}'
            pub fn get_{{ to_snake_case field }}_format(&self) -> TextFormat {
                self.obj.fields.get("{{ field_uuid }}_textType")
                    .map(|v| v.as_str())
                    .unwrap_or_default()
                    // if undefined or unexpected value, return "plain"
                    .map(|f| TextFormat::from_str(f).unwrap_or_default())
                    .unwrap_or_default()
            }
            "#;

pub const SRC_GET_URL_FIELD: &'static str = r#"
            /// Returns '{{ field }}' - {{ field_desc }} or None if unset
            pub fn get_{{ to_snake_case field }}(&self) -> Option<&str> {
                self.obj.fields.get("{{ field_uuid }}_link")
                    .map(|v| v.as_str())
                    .unwrap_or_default()
            }
            "#;

pub const SRC_GET_INT_FIELD: &'static str = r#"
            /// Returns '{{ field }}' - {{ field_desc }} or None if unset
            pub fn get_{{ to_snake_case field }}(&self) -> Option<i64> {
                self.obj.fields.get("{{ field_uuid }}_number")
                    .map(|n| n.as_i64())
                    .unwrap_or_default()
            }
            "#;

pub const SRC_GET_FLOAT_FIELD: &'static str = r#"
            /// Returns '{{ field }}' - {{ field_desc }} or None if unset
            pub fn get_{{ to_snake_case field }}(&self) -> Option<f64> {
                self.obj.fields.get("{{ field_uuid }}_number")
                    .map(|n| n.as_f64())
                    .unwrap_or_default()
            }
            "#;

pub const SRC_GET_FORMULA_FIELD: &'static str = r#"
            /// Returns value of formula field '{{ field }}', or None
            /// if the field isn't calculated, or if there was an error calculating the value.
            /// For description of the error, use get_{{ to_snake_case field }}_error()
            pub fn get_{{ to_snake_case field }}(&self) -> Option<f64> {
                // Only return value if there's no error
                // or if there is some other reason formula value can be null
                if let None = self.get_{{ to_snake_case field}}_error() {
                        return self.obj.fields.get("{{ field_uuid }}_value")
                            .map(|n| n.as_f64())
                            .unwrap_or_default();
                }
                None
            }

            /// Returns error message for formula {{ field }}, if any
            pub fn get_{{ to_snake_case field }}_error(&self) -> Option<&String> {
                if let Some(Value::String(s)) = self.obj.fields.get("{{ field_uuid }}_valueErrorMessage") {
                    if s.len() > 0 {
                        return Some(s)
                    }
                }
                None
            }
            "#;

pub const SRC_GET_CHECKBOX_FIELD: &'static str = r#"
            /// Returns true if '{{ field }}' is checked.  {{ field_desc }}
            pub fn is_checked_{{ to_snake_case field }}(&self) -> bool {
                self.obj.fields.get("{{ field_uuid }}_checked")
                    .map(|n| n.as_bool())
                    .unwrap_or_default()
                    .unwrap_or_default()
            }
            "#;

pub const SRC_GET_DATE_FIELD: &'static str = r#"
            /// Returns '{{ field }}' in UTC {{ field_desc }}, or None if unset
            pub fn get_{{ to_snake_case field }}(&self) -> Option<DateTime<Utc>> {
                self.obj.fields.get("{{ field_uuid }}_date")
                    .map(|v| v.as_str())
                    .unwrap_or_default()
                    .map(|s| s.parse::<DateTime<Utc>>().ok())
                    .unwrap_or_default()
            }
            "#;

pub const SRC_GET_DATE_X_FIELD: &'static str = r#"
            /// Returns '{{ field }}' in UTC {{ field_desc }}, or None if unset
            pub fn get_date_{{ to_snake_case field }}(&self) -> Option<DateTime<Utc>> {
                self.obj.fields.get("{{ field_uuid }}_date")
                    .map(|v| v.as_str())
                    .unwrap_or_default()
                    .map(|s| s.parse::<DateTime<Utc>>().ok())
                    .unwrap_or_default()
            }
            "#;

pub const SRC_CATEGORY_GETTER_PER_LABEL: &'static str = r#"
            pub const LABEL_{{ to_screaming_snake_case field }}_{{ to_screaming_snake_case label }}_ID : ID = {{ label_id }};

            /// Returns true if '{{ label }}' is set on '{{field}}'
            /// {{field_desc}}
            pub fn is_{{ to_snake_case field }}_{{ to_snake_case label }}(&self) -> bool {
                self.obj.fields.get("{{ field_uuid }}_categories")
                    .map(|v| v.as_array())
                    .unwrap_or_default()
                    .map(|v| v.iter()
                        .any(|n| n == {{ item }}::LABEL_{{ to_screaming_snake_case field }}_{{ to_screaming_snake_case label }}_ID))
                    .unwrap_or_default()
            }
            "#;

pub const SRC_CATEGORY_GETTERS_PER_FIELD: &'static str = r#"
            {{#if field_single_value}}
            /// Returns label value of '{{ field }}', or None if field is unset
            /// {{field_desc}}
            pub fn get_{{ to_snake_case field }}(&self) -> Option<&str> {
                self.obj.fields.get("{{ field_uuid }}_categories_sort")
                    .map(|v| v.as_array())
                    .unwrap_or_default()
                    .map(|v| v.iter()
                            .take(1)
                            .filter_map(|val| val.as_object())
                            .filter_map(|val| val.get("name"))
                            .filter_map(|val| val.as_str())
                            .next()
                            .unwrap_or_default()
                    )
            }

            /// Returns id value of '{{ field }}', or None if field is unset
            /// {{field_desc}}
            pub fn get_{{ to_snake_case field }}_id(&self) -> Option<ID> {
                self.obj.fields.get("{{ field_uuid }}_categories")
                    .map(|v| v.as_array())
                    .unwrap_or_default()
                    .map(|v| v.iter()
                            .take(1)
                            .filter_map(|val| val.as_i64())
                            .next()
                            .map(|val| val as ID)
                    )
                    .unwrap_or_default()
            }
            {{else}}
            /// Returns list of labels (as ids) set on '{{ field }}'
            /// {{field_desc}}
            pub fn get_{{ to_plural ( to_snake_case field ) }}_ids(&self) -> Vec<ID> {
                self.obj.fields.get("{{ field_uuid }}_categories_sort")
                    .map(|v| v.as_array())
                    .unwrap_or_default()
                    .map(|v| v.iter()
                            .filter_map(|val| val.as_object())
                            .filter_map(|val| val.get("id"))
                            .filter_map(|val| val.as_u64())
                            .collect()
                    )
                    .unwrap_or_else(Vec::new)
            }
            /// returns list of values set on '{{ field }}'
            /// {{field_desc}}
            pub fn get_{{ to_plural ( to_snake_case field ) }}_labels(&self) -> Vec<&str> {
                self.obj.fields.get("{{ field_uuid }}_categories_sort")
                    .map(|v| v.as_array())
                    .unwrap_or_default()
                    .map(|v| v.iter()
                            .filter_map(|val| val.as_object())
                            .filter_map(|val| val.get("name"))
                            .filter_map(|val| val.as_str())
                            .collect()
                    )
                    .unwrap_or_else(Vec::new)
            }
            {{/if}}
            "#;

pub const SRC_GET_PERSON_FIELD: &'static str = r#"
            {{#if field_single_value}}
            /// Returns the person's name in {{ field }}, or None if unset
            /// {{field_desc}}
            pub fn get_{{ to_snake_case field }}_name(&self) -> Option<&str> {
                self.obj.fields.get("{{ field_uuid }}_persons_sort")
                    .map(|v| v.as_array())
                    .unwrap_or_default()
                    .map(|v| v.iter()
                            .take(1)
                            .filter_map(|val| val.as_object())
                            .filter_map(|val| val.get("displayname"))
                            .filter_map(|val| val.as_str())
                            .next()
                    )
            }

            /// Returns the person's id in {{ field }}, or None if unset
            /// {{field_desc}}
            pub fn get_{{ to_snake_case field }}_id(&self) -> ID {
                self.obj.fields.get("{{ field_uuid }}_persons_sort")
                    .map(|v| v.as_array())
                    .unwrap_or_default()
                    .map(|v| v.iter()
                            .take(1)
                            .filter_map(|val| val.as_object())
                            .filter_map(|val| val.get("id"))
                            .filter_map(|val| val.as_u64())
                            .next()
                    )
            }
            {{else}}
            /// Returns the names of persons in {{ field }}
            /// {{field_desc}}
            pub fn get_{{ to_snake_case field }}_names(&self) -> Vec<&str> {
                self.obj.fields.get("{{ field_uuid }}_persons_sort")
                    .map(|v| v.as_array())
                    .unwrap_or_default()
                    .map(|v| v.iter()
                            .filter_map(|val| val.as_object())
                            .filter_map(|val| val.get("displayname"))
                            .filter_map(|val| val.as_str())
                            .collect()
                    )
                    .unwrap_or_else(Vec::new)
            }
            /// Returns the ids of persons in {{ field }}
            /// {{field_desc}}
            pub fn get_{{ to_snake_case field }}_ids(&self) -> Vec<ID> {
                self.obj.fields.get("{{ field_uuid }}_persons_sort")
                    .map(|v| v.as_array())
                    .unwrap_or_default()
                    .map(|v| v.iter()
                            .filter_map(|val| val.as_object())
                            .filter_map(|val| val.get("id"))
                            .filter_map(|val| val.as_u64())
                            .collect()
                    )
                    .unwrap_or_else(Vec::new)
            }
            {{/if}}
            "#;

pub const SRC_GET_REFERENCES: &'static str = r#"
            {{#if field_single_value}}
            /// Returns the reference in {{field}} (to {{ref_list}}, or None if unset
            /// {{field_desc}}
            pub fn get_{{ to_snake_case field }}_uuid(&self) -> Option<&str> {
                self.obj.fields.get("{{ field_uuid }}_references_sort")
                    .map(|v| v.as_array())
                    .unwrap_or_default()
                    .map(|v| v.iter()
                            .take(1)
                            .filter_map(|val| val.as_object())
                            .filter_map(|val| val.get("uuid"))
                            .filter_map(|val| val.as_str())
                            .next()
                    )
            }
            {{else}}
            /// Returns the references in {{ field }} to {{ref_list}}
            /// {{field_desc}}
            pub fn get_{{ to_snake_case field }}_uuids(&self) -> Vec<&str> {
                self.obj.fields.get("{{ field_uuid }}_references_sort")
                    .map(|v| v.as_array())
                    .unwrap_or_default()
                    .map(|v| v.iter()
                            .filter_map(|val| val.as_object())
                            .filter_map(|val| val.get("uuid"))
                            .filter_map(|val| val.as_str())
                            .collect()
                    )
                    .unwrap_or_else(Vec::new)
            }
            {{/if}}
            "#;

pub const SRC_GET_SUBITEMS_FIELD: &'static str = r#"
            /// Returns subitem references in {{ field }} hierarchy
            /// {{field_desc}}
            pub fn get_{{ to_snake_case field }}_uuids(&self) -> Vec<&str> {
                if self.is_connected_{{ to_snake_case field }}() {
                    self.obj.fields.get("{{ field_uuid }}_references_sort")
                        .map(|v| v.as_array())
                        .unwrap_or_default()
                        .map(|v| v.iter()
                            .filter_map(|val| val.as_object())
                            .filter_map(|val| val.get("uuid"))
                            .filter_map(|val| val.as_str())
                            .collect()
                        )
                        .unwrap_or_else(Vec::new)
                } else {
                    Vec::new()
                }
            }

            /// Returns parent references in {{ field }} hierarchy
            /// {{field_desc}}
            pub fn get_{{ to_snake_case field }}_parents(&self) -> Vec<&str> {
                if self.is_connected_{{ to_snake_case field }}() {
                    self.obj.fields.get("{{ field_uuid }}_parents")
                        .map(|v| v.as_array())
                        .unwrap_or_default()
                        .map(|v| v.iter().filter_map(|v| v.as_str()).collect() )
                        .unwrap_or_else(Vec::new)
                } else {
                    Vec::new()
                }
            }

            /// Returns true if this item is connected in the {{ field }} hierarchy
            /// {{field_desc}}
            pub fn is_connected_{{ to_snake_case field }}(&self) -> bool {
                self.obj.fields.get("{{ field_uuid }}_connected")
                    .map(|v| v.as_bool())
                    .unwrap_or_default()
                    .unwrap_or_default()
            }
            "#;

pub const SRC_GET_FILES_FIELD: &'static str = r#"
            /// Returns files from '{{ field }}' - {{ field_desc }}
            pub fn get_{{ to_snake_case field }}(&self) -> Vec<File> {
                match self.obj.fields.get("{{ field_uuid }}_filesData") {
                    Some(v) => match serde_json::from_value::<Vec<File>>(v.clone()) {
                        Ok(files) => files,
                        Err(e) => {
                            println!("Deser files failed: {:#?}", e);
                            println!("Original data: {:#?}", v);
                            Vec::new()
                        }
                    },
                    None => Vec::new()
                }
            }
            "#;

pub const SRC_SET_TEXT_FIELD: &'static str = r#"
            /// Sets text value for {{ field }}. {{field_desc}}
            {{#if is_update_builder ~}}
            /// TextFormat is unchanged (to specify format, use _with_format())
            {{else ~}}
            /// Uses the field's default TextFormat. To specify format, use _with_format()
            {{/if ~}}
            pub fn set_{{ to_snake_case field }}<T:AsRef<str>>(&mut self, s: T) -> &mut {{ builder }} {
                self.set_s("{{ field_uuid }}_text", s.as_ref().to_string());
                self
            }

            /// Sets text value for {{ field }} with format
            /// {{field_desc}}
            pub fn set_{{ to_snake_case field }}_with_format<T:AsRef<str>>(&mut self, s: T, tf: TextFormat) -> &mut {{ builder }} {
                self.set_s("{{ field_uuid }}_text", s.as_ref().to_string());
                self.set_s("{{ field_uuid }}_textType", tf.to_string());
                self
            }
            "#;

pub const SRC_SET_INT_FIELD: &'static str = r#"
            /// Sets {{ field }} with integer value.
            /// {{field_desc}}
            pub fn set_{{ to_snake_case field }}(&mut self, i: i64) -> &mut {{ builder }} {
                let jn = serde_json::Number::from(i);
                self.set_v("{{ field_uuid }}_number", Value::Number(jn));
                self
            }
            "#;

pub const SRC_SET_FLOAT_FIELD: &'static str = r#"
            /// Sets {{ field }} with float value.
            /// {{field_desc}}
            /// Generates error if float value is Infinite or NaN.
            pub fn set_{{ to_snake_case field }}(&mut self, f: f64) -> &mut {{ builder }} {
                match serde_json::Number::from_f64(f) {
                    Some(n) => self.set_v("{{ field_uuid }}_number", Value::Number(n)),
                    None => self.errs.push("Float values cannot be Infinite or NaN".to_string())
                }
                self
            }
            "#;

pub const SRC_SET_CHECKBOX_FIELD: &'static str = r#"
            /// sets checkbox {{ field }}
            /// {{field_desc}}
            pub fn check_{{ to_snake_case field }}(&mut self, b: bool) -> &mut {{ builder }} {
                self.set_v("{{ field_uuid }}_checked", Value::Bool(b));
                self
            }
            "#;

pub const SRC_SET_URL_FIELD: &'static str = r#"
            /// Sets URL {{ field }}. {{field_desc}}
            pub fn set_{{ to_snake_case field }}<T:AsRef<str>>(&mut self, url: T) -> &mut {{ builder }} {
                self.set_s("{{ field_uuid }}_link", url.as_ref().to_string());
                self
            }
            "#;

pub const SRC_SET_DATE_FIELD: &'static str = r#"
            /// Sets date {{ field }}. {{field_desc}}
            pub fn set_{{ to_snake_case field }}(&mut self, date: &DateTime<Utc>) -> &mut {{ builder }} {
                self.set_s("{{ field_uuid }}_date", date.to_string());
                self
            }
            "#;

pub const SRC_SET_PERSON_FIELD: &'static str = r#"
            {{#if field_single_value ~}}
            /// Sets person {{ field }}. {{#if is_update_builder}}Replaces previous value{{/if}}
            /// {{field_desc}}
            pub fn set_{{ to_snake_case field }}(&mut self, id: ID) -> &mut {{ builder }} {
                self.set_v("{{ field_uuid }}_persons", json!(vec![id]));
                {{#if is_update_builder~}}
                self.set_s("updateAction", "replace".to_string());
                {{/if~}}
                self
            }
            {{else ~}}
            /// Sets person(s) {{ field }}. {{#if is_update_builder}}Replaces previous value(s){{/if}}
            /// {{field_desc}}
            pub fn set_{{ to_snake_case field }}(&mut self, ids: Vec<ID>) -> &mut {{ builder }} {
                self.set_v("{{ field_uuid }}_persons", json!(ids));
                {{#if is_update_builder~}}
                self.set_s("updateAction", "replace".to_string());
                {{/if~}}
                self
            }
            {{/if ~}}

            {{#if is_update_builder ~}}
            {{#if field_multiple_value ~}}
            /// Adds person(s) {{ field }}
            /// {{field_desc}}
            pub fn add_{{ to_snake_case field }}(&mut self, ids: Vec<ID>) -> &mut {{ builder }} {
                self.set_v("{{ field_uuid }}_persons", json!(ids));
                self.set_s("updateAction", "append".to_string());
                self
            }
            /// Remove person(s) {{ field }}
            /// {{field_desc}}
            pub fn remove_{{ to_snake_case field }}(&mut self, ids: Vec<ID>) -> &mut {{ builder }} {
                self.set_v("{{ field_uuid }}_persons", json!(ids));
                self.set_s("updateAction", "remove".to_string());
                self
            }
            {{/if ~}}
            /// Remove person{{#if field_multiple_values}}(s){{/if}} {{ field }}
            /// {{field_desc}}
            pub fn unset_{{ to_snake_case field }}(&mut self) -> &mut {{ builder }} {
                self.set_v("{{ field_uuid }}_persons", json!(Vec::<String>::new()));
                self.set_s("updateAction", "replace".to_string());
                self
            }
            {{/if}}
            "#;

pub const SRC_SET_REFERENCES: &'static str = r#"
            {{#if field_single_value ~}}
            /// Sets reference {{ field }} to item in list {{ref_list}}
            /// {{field_desc}}
            pub fn set_{{ to_snake_case field }}(&mut self, uuid: &str) -> &mut {{ builder }} {
                self.set_v("{{ field_uuid }}_references", json!(vec![uuid]));
                {{#if is_update_builder~}}
                self.set_s("updateAction", "replace".to_string());
                {{/if~}}
                self
            }
            {{else ~}}
            /// Sets reference {{ field }} to item in list {{ref_list}}. {{#if is_update}}Replaces previous value(s){{/if}}
            /// {{field_desc}}
            pub fn set_{{ to_snake_case field }}(&mut self, uuids: Vec<&'_ str>) -> &mut {{ builder }} {
                self.set_v("{{ field_uuid }}_references", json!(uuids));
                {{#if is_update_builder~}}
                self.set_s("updateAction", "replace".to_string());
                {{/if~}}
                self
            }
            {{/if ~}}

            {{#if is_update_builder ~}}
            {{#if field_multiple_value ~}}
            /// Adds references to {{ field }} to item(s) in list {{ref_list}}
            /// {{field_desc}}
            pub fn add_{{ to_snake_case field }}(&mut self, uuids: Vec<&'_ str>) -> &mut {{ builder }} {
                self.set_v("{{ field_uuid }}_references", json!(uuids));
                {{#if is_update_builder~}}
                self.set_s("updateAction", "append".to_string());
                {{/if~}}
                self
            }

            /// Removes references to {{ field }}
            /// {{field_desc}}
            pub fn remove_{{ to_snake_case field }}(&mut self, uuids: Vec<&'_ str>) -> &mut {{ builder }} {
                self.set_v("{{ field_uuid }}_references", json!(uuids));
                {{#if is_update_builder~}}
                self.set_s("updateAction", "remove".to_string());
                {{/if~}}
                self
            }
            {{/if ~}}

            /// Removes references to {{ field }}
            /// {{field_desc}}
            pub fn unset_{{ to_snake_case field }}(&mut self) -> &mut {{ builder }} {
                self.set_v("{{ field_uuid }}_references", json!(Vec::<String>::new()));
                self.set_s("updateAction", "replace".to_string());
                self
            }
            {{/if ~}}
            "#;

pub const SRC_SET_SUBITEMS: &'static str = r#"
            /// Sets subitems in {{ field }} hierarchy. {{#if is_update}}Replaces previous value(s){{/if}}
            /// {{field_desc}}
            pub fn set_{{ to_snake_case field }}(&mut self, uuids: Vec<&'_ str>) -> &mut {{ builder }} {
                self.set_v("{{ field_uuid }}_references", json!(uuids));
                {{#if is_update_builder~}}
                self.set_s("updateAction", "replace".to_string());
                {{/if~}}
                self
            }

            {{#if is_update_builder ~}}
            /// Adds subitems to {{ field }} hierarchy
            /// {{field_desc}}
            pub fn add_{{ to_snake_case field }}(&mut self, uuids: Vec<&'_ str>) -> &mut {{ builder }} {
                self.set_v("{{ field_uuid }}_references", json!(uuids));
                {{#if is_update_builder~}}
                self.set_s("updateAction", "append".to_string());
                {{/if~}}
                self
            }

            /// Removes subitems in {{ field }} hierarchy
            /// {{field_desc}}
            pub fn remove_{{ to_snake_case field }}(&mut self, uuids: Vec<&'_ str>) -> &mut {{ builder }} {
                self.set_v("{{ field_uuid }}_references", json!(uuids));
                {{#if is_update_builder~}}
                self.set_s("updateAction", "remove".to_string());
                {{/if~}}
                self
            }

            /// Removes all subitems in {{ field }} hierarchy
            /// {{field_desc}}
            pub fn unset_{{ to_snake_case field }}(&mut self) -> &mut {{ builder }} {
                self.set_v("{{ field_uuid }}_references", json!(Vec::<String>::new()));
                self.set_s("updateAction", "replace".to_string());
                self
            }
            {{/if ~}}
            "#;

pub const SRC_CATEGORY_SETTER_PER_LABEL: &'static str = r#"
            {{#if field_single_value ~}}
            /// Sets {{field}} to {{label}}. {{field_desc}}
            pub fn set_{{ to_snake_case field }}_{{ to_snake_case label }}(&mut self) -> &mut {{ builder }} {
                self.set_v("{{ field_uuid }}_categories", json!(vec![
                    {{ item}}::LABEL_{{ to_screaming_snake_case field }}_{{ to_screaming_snake_case label }}_ID
                ]));
                {{#if is_update_builder ~}}
                self.set_s("updateAction", "replace".to_string());
                {{/if ~}}
                self
            }
            {{/if}}
            "#;

pub const SRC_CATEGORY_SETTER_PER_FIELD: &'static str = r#"
            {{#if field_single_value ~}}
            /// Set {{ field }} by label-id. {{field_desc}}
            pub fn set_{{ to_snake_case field }}_id(&mut self, id: ID) -> &mut {{ builder }} {
                self.set_v("{{ field_uuid }}_categories", json!(vec![id]));
                {{#if is_update_builder~}}
                self.set_s("updateAction", "replace".to_string());
                {{/if~}}
                self
            }
            /// Set {{ field }} by label-name. {{field_desc}}
            pub fn set_{{ to_snake_case field }}(&mut self, label: &str) -> &mut {{ builder }} {
                match lookup_label(&{{ item }}::LABELS_{{ to_screaming_snake_case field }},label) {
                        Some(id) => {
                            self.set_v("{{ field_uuid }}_categories", json!(vec![id]));
                            {{#if is_update_builder~}}
                            self.set_s("updateAction", "replace".to_string());
                            {{/if~}}
                        },
                        None => {
                            self.errs.push(format!("Label '{}' not found for set_{{ to_snake_case field }}_label",
                                    label));
                        }
                }
                self
            }
            {{else ~}}
            /// Sets {{ field }} with label ids. {{#if is_update_builder}}Replaces any previous values{{/if}}
            /// {{field_desc}}
            pub fn set_{{ to_snake_case field }}(&mut self, ids: Vec<ID>) -> &mut {{ builder }} {
                self.set_v("{{ field_uuid }}_categories", json!(ids));
                {{#if is_update_builder~}}
                self.set_s("updateAction", "replace".to_string());
                {{/if~}}
                self
            }
            {{/if ~}}

            {{#if is_update_builder ~}}
            {{#if field_multiple_value ~}}
            /// Adds label ids to {{field}}. {{#if is_update_builder}}Appends any previous values{{/if}}
            /// {{field_desc}}
            pub fn add_{{ to_snake_case field }}(&mut self, ids: Vec<ID>) -> &mut {{ builder }} {
                self.set_v("{{ field_uuid }}_categories", json!(ids));
                {{#if is_update_builder~}}
                self.set_s("updateAction", "append".to_string());
                {{/if~}}
                self
            }
            /// Removes label ids from {{field}}.
            /// {{field_desc}}
            pub fn remove_{{ to_snake_case field }}(&mut self, ids: Vec<ID>) -> &mut {{ builder }} {
                self.set_v("{{ field_uuid }}_categories", json!(ids));
                {{#if is_update_builder~}}
                self.set_s("updateAction", "remove".to_string());
                {{/if~}}
                self
            }
            {{/if ~}}

            /// Clears (unsets) {{ field }} {{field_desc}}
            pub fn unset_{{ to_snake_case field }}(&mut self) -> &mut {{ builder }} {
                self.set_v("{{ field_uuid }}_categories", json!(Vec::<String>::new()));
                self.set_s("updateAction", "replace".to_string());
                self
            }
            {{/if ~}}
            "#;

pub const SRC_BUILDER_EXECUTE: &'static str = r#"
            {{#if is_update_builder ~}}
            /// Sends update request to server, returning updated {{item}}.
            {{else ~}}
            /// Sends create request to server, returning new {{item}}.
            {{/if ~}}
            pub async fn execute(&mut self) -> Result<{{ item }}, Error> {
                if !self.errs.is_empty() {
                    return Err(Error::Message(
                            format!("Errors occurred in {{ builder }}: {:?}", &self.errs)));
                }
                let map = self.fields.to_owned();
                let {{ to_snake_case item }} = get_api()?
                {{#if is_update_builder}}
                    .update_entry({{ list_id }}, self.item_id, Value::Object(map))
                {{else}}
                    .create_entry({{ list_id }}, Value::Object(map))
                {{/if}}
                    .await?;
                Ok({{item }}::new(Rc::new({{ to_snake_case item }})))
            }
            "#;

pub const SRC_CARGO_TOML: &'static str = r#"# Cargo.toml
[package]
name = "{{ crate }}"
version = "0.1.0"
authors = ["author <mail@example.com>"]
edition = "2018"
description = "Zenkit client library for {{ workspace }}"
keywords = ["zenkit","bindings"]
categories = ["api-bindings"]

[dependencies]
serde_json = "1.0"
zenkit = { version="0.5" }
reqwest = { version="0.11", features=["json"] }

[lib]
path = "src/lib.rs"
"#;

} // verus!
