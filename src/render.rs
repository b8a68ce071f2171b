//! The render context: the scoped key/value data that templates are rendered
//! against, and the template registry that renders them.
use crate::naming::SymbolKind;
use crate::templates::template_table;
use handlebars::{Context, Helper, HelperResult, Output, RenderContext as HelperContext, RenderErrorReason};
use vstd::prelude::*;
use vstd::string::*;

verus! {

/// Number of render-context keys.
pub const KEY_COUNT: usize = 28;

/// A key of the render context.
#[derive(Clone, Copy, Debug, PartialEq, Eq, Structural)]
pub enum Key {
    Workspace,
    WorkspaceUuid,
    WorkspaceId,
    WorkspaceDesc,
    Modules,
    Crate,
    List,
    ListId,
    ListUuid,
    ListDesc,
    ListStruct,
    ListShortId,
    Item,
    ItemPlural,
    Field,
    FieldUuid,
    FieldId,
    FieldDesc,
    FieldSingleValue,
    FieldMultipleValue,
    Label,
    LabelId,
    LabelCount,
    Labels,
    RefList,
    Builder,
    IsNewBuilder,
    IsUpdateBuilder,
}

/// The emission unit that owns a key: workspace keys are set once per run,
/// list keys for one list, field keys for one field (labels and reference
/// targets included), builder keys for one builder.
#[derive(Clone, Copy, Debug, PartialEq, Eq, Structural)]
pub enum Scope {
    Workspace,
    Output,
    List,
    Field,
    Builder,
}

impl Key {
    /// The name under which templates see the key.
    pub open spec fn spec_text(self) -> Seq<char> {
        match self {
            Key::Workspace => "workspace"@,
            Key::WorkspaceUuid => "workspace_uuid"@,
            Key::WorkspaceId => "workspace_id"@,
            Key::WorkspaceDesc => "workspace_desc"@,
            Key::Modules => "modules"@,
            Key::Crate => "crate"@,
            Key::List => "list"@,
            Key::ListId => "list_id"@,
            Key::ListUuid => "list_uuid"@,
            Key::ListDesc => "list_desc"@,
            Key::ListStruct => "list_struct"@,
            Key::ListShortId => "list_short_id"@,
            Key::Item => "item"@,
            Key::ItemPlural => "item_plural"@,
            Key::Field => "field"@,
            Key::FieldUuid => "field_uuid"@,
            Key::FieldId => "field_id"@,
            Key::FieldDesc => "field_desc"@,
            Key::FieldSingleValue => "field_single_value"@,
            Key::FieldMultipleValue => "field_multiple_value"@,
            Key::Label => "label"@,
            Key::LabelId => "label_id"@,
            Key::LabelCount => "label_count"@,
            Key::Labels => "labels"@,
            Key::RefList => "ref_list"@,
            Key::Builder => "builder"@,
            Key::IsNewBuilder => "is_new_builder"@,
            Key::IsUpdateBuilder => "is_update_builder"@,
        }
    }

    pub fn text(self) -> (r: &'static str)
        ensures
            r@ == self.spec_text(),
    {
        match self {
            Key::Workspace => "workspace",
            Key::WorkspaceUuid => "workspace_uuid",
            Key::WorkspaceId => "workspace_id",
            Key::WorkspaceDesc => "workspace_desc",
            Key::Modules => "modules",
            Key::Crate => "crate",
            Key::List => "list",
            Key::ListId => "list_id",
            Key::ListUuid => "list_uuid",
            Key::ListDesc => "list_desc",
            Key::ListStruct => "list_struct",
            Key::ListShortId => "list_short_id",
            Key::Item => "item",
            Key::ItemPlural => "item_plural",
            Key::Field => "field",
            Key::FieldUuid => "field_uuid",
            Key::FieldId => "field_id",
            Key::FieldDesc => "field_desc",
            Key::FieldSingleValue => "field_single_value",
            Key::FieldMultipleValue => "field_multiple_value",
            Key::Label => "label",
            Key::LabelId => "label_id",
            Key::LabelCount => "label_count",
            Key::Labels => "labels",
            Key::RefList => "ref_list",
            Key::Builder => "builder",
            Key::IsNewBuilder => "is_new_builder",
            Key::IsUpdateBuilder => "is_update_builder",
        }
    }

    pub open spec fn spec_index(self) -> int {
        match self {
            Key::Workspace => 0,
            Key::WorkspaceUuid => 1,
            Key::WorkspaceId => 2,
            Key::WorkspaceDesc => 3,
            Key::Modules => 4,
            Key::Crate => 5,
            Key::List => 6,
            Key::ListId => 7,
            Key::ListUuid => 8,
            Key::ListDesc => 9,
            Key::ListStruct => 10,
            Key::ListShortId => 11,
            Key::Item => 12,
            Key::ItemPlural => 13,
            Key::Field => 14,
            Key::FieldUuid => 15,
            Key::FieldId => 16,
            Key::FieldDesc => 17,
            Key::FieldSingleValue => 18,
            Key::FieldMultipleValue => 19,
            Key::Label => 20,
            Key::LabelId => 21,
            Key::LabelCount => 22,
            Key::Labels => 23,
            Key::RefList => 24,
            Key::Builder => 25,
            Key::IsNewBuilder => 26,
            Key::IsUpdateBuilder => 27,
        }
    }

    pub fn index(self) -> (r: usize)
        ensures
            r == self.spec_index(),
            r < KEY_COUNT,
    {
        match self {
            Key::Workspace => 0,
            Key::WorkspaceUuid => 1,
            Key::WorkspaceId => 2,
            Key::WorkspaceDesc => 3,
            Key::Modules => 4,
            Key::Crate => 5,
            Key::List => 6,
            Key::ListId => 7,
            Key::ListUuid => 8,
            Key::ListDesc => 9,
            Key::ListStruct => 10,
            Key::ListShortId => 11,
            Key::Item => 12,
            Key::ItemPlural => 13,
            Key::Field => 14,
            Key::FieldUuid => 15,
            Key::FieldId => 16,
            Key::FieldDesc => 17,
            Key::FieldSingleValue => 18,
            Key::FieldMultipleValue => 19,
            Key::Label => 20,
            Key::LabelId => 21,
            Key::LabelCount => 22,
            Key::Labels => 23,
            Key::RefList => 24,
            Key::Builder => 25,
            Key::IsNewBuilder => 26,
            Key::IsUpdateBuilder => 27,
        }
    }

    pub open spec fn scope(self) -> Scope {
        match self {
            Key::Workspace => Scope::Workspace,
            Key::WorkspaceUuid => Scope::Workspace,
            Key::WorkspaceId => Scope::Workspace,
            Key::WorkspaceDesc => Scope::Workspace,
            Key::Modules => Scope::Output,
            Key::Crate => Scope::Output,
            Key::List => Scope::List,
            Key::ListId => Scope::List,
            Key::ListUuid => Scope::List,
            Key::ListDesc => Scope::List,
            Key::ListStruct => Scope::List,
            Key::ListShortId => Scope::List,
            Key::Item => Scope::List,
            Key::ItemPlural => Scope::List,
            Key::Field => Scope::Field,
            Key::FieldUuid => Scope::Field,
            Key::FieldId => Scope::Field,
            Key::FieldDesc => Scope::Field,
            Key::FieldSingleValue => Scope::Field,
            Key::FieldMultipleValue => Scope::Field,
            Key::Label => Scope::Field,
            Key::LabelId => Scope::Field,
            Key::LabelCount => Scope::Field,
            Key::Labels => Scope::Field,
            Key::RefList => Scope::Field,
            Key::Builder => Scope::Builder,
            Key::IsNewBuilder => Scope::Builder,
            Key::IsUpdateBuilder => Scope::Builder,
        }
    }

    /// Keys that belong to one list's emission: list, field and builder keys.
    pub open spec fn is_list_local(self) -> bool {
        self.scope() == Scope::List || self.scope() == Scope::Field || self.scope() == Scope::Builder
    }
}

pub open spec fn key_at(i: int) -> Key {
    if i == 0 {
        Key::Workspace
    } else if i == 1 {
        Key::WorkspaceUuid
    } else if i == 2 {
        Key::WorkspaceId
    } else if i == 3 {
        Key::WorkspaceDesc
    } else if i == 4 {
        Key::Modules
    } else if i == 5 {
        Key::Crate
    } else if i == 6 {
        Key::List
    } else if i == 7 {
        Key::ListId
    } else if i == 8 {
        Key::ListUuid
    } else if i == 9 {
        Key::ListDesc
    } else if i == 10 {
        Key::ListStruct
    } else if i == 11 {
        Key::ListShortId
    } else if i == 12 {
        Key::Item
    } else if i == 13 {
        Key::ItemPlural
    } else if i == 14 {
        Key::Field
    } else if i == 15 {
        Key::FieldUuid
    } else if i == 16 {
        Key::FieldId
    } else if i == 17 {
        Key::FieldDesc
    } else if i == 18 {
        Key::FieldSingleValue
    } else if i == 19 {
        Key::FieldMultipleValue
    } else if i == 20 {
        Key::Label
    } else if i == 21 {
        Key::LabelId
    } else if i == 22 {
        Key::LabelCount
    } else if i == 23 {
        Key::Labels
    } else if i == 24 {
        Key::RefList
    } else if i == 25 {
        Key::Builder
    } else if i == 26 {
        Key::IsNewBuilder
    } else {
        Key::IsUpdateBuilder
    }
}

pub proof fn lemma_key_at_index(k: Key)
    ensures
        key_at(k.spec_index()) == k,
        0 <= k.spec_index() < KEY_COUNT,
{
}

pub broadcast proof fn lemma_index_injective(a: Key, b: Key)
    ensures
        #[trigger] a.spec_index() == #[trigger] b.spec_index() <==> a == b,
{
    lemma_key_at_index(a);
    lemma_key_at_index(b);
}

/// A value in the render context.
#[derive(Clone, Debug)]
pub enum ContextValue {
    Text(String),
    Id(u64),
    Flag(bool),
    Names(Vec<String>),
}

/// The mathematical value of a `ContextValue`.
pub enum Datum {
    Text(Seq<char>),
    Id(u64),
    Flag(bool),
    Names(Seq<Seq<char>>),
}

pub open spec fn texts_of(v: Seq<String>) -> Seq<Seq<char>> {
    v.map_values(|s: String| s@)
}

impl View for ContextValue {
    type V = Datum;

    open spec fn view(&self) -> Datum {
        match self {
            ContextValue::Text(s) => Datum::Text(s@),
            ContextValue::Id(n) => Datum::Id(*n),
            ContextValue::Flag(b) => Datum::Flag(*b),
            ContextValue::Names(v) => Datum::Names(texts_of(v@)),
        }
    }
}

fn clone_texts(v: &Vec<String>) -> (r: Vec<String>)
    ensures
        texts_of(r@) == texts_of(v@),
{
    let mut r: Vec<String> = Vec::new();
    let mut i: usize = 0;
    while i < v.len()
        invariant
            i <= v@.len(),
            r@.len() == i,
            forall|j: int| 0 <= j < i ==> (#[trigger] r@[j])@ == v@[j]@,
        decreases v@.len() - i,
    {
        r.push(v[i].clone());
        i = i + 1;
    }
    assert(texts_of(r@) =~= texts_of(v@));
    r
}

impl ContextValue {
    /// A copy of the value.
    pub fn duplicate(&self) -> (r: ContextValue)
        ensures
            r@ == self@,
    {
        match self {
            ContextValue::Text(s) => ContextValue::Text(s.clone()),
            ContextValue::Id(n) => ContextValue::Id(*n),
            ContextValue::Flag(b) => ContextValue::Flag(*b),
            ContextValue::Names(v) => ContextValue::Names(clone_texts(v)),
        }
    }
}

/// The render context: at most one value per key.
pub struct RenderContext {
    /// One slot per key, at the key's index; an occupied slot holds the
    /// key's name beside the value.
    slots: Vec<Option<(String, ContextValue)>>,
}

pub type ContextMap = Map<Key, Datum>;

impl View for RenderContext {
    type V = ContextMap;

    closed spec fn view(&self) -> ContextMap {
        Map::new(
            |k: Key| self.slots@[k.spec_index()] is Some,
            |k: Key| self.slots@[k.spec_index()]->Some_0.1@,
        )
    }
}

impl RenderContext {
    pub closed spec fn wf(&self) -> bool {
        &&& self.slots@.len() == KEY_COUNT
        &&& forall|k: Key| #[trigger]
            self.slots@[k.spec_index()] is Some ==> self.slots@[k.spec_index()]->Some_0.0@
                == k.spec_text()
    }

    /// An empty context.
    pub fn new() -> (r: RenderContext)
        ensures
            r.wf(),
            r@ == Map::<Key, Datum>::empty(),
    {
        let mut slots: Vec<Option<(String, ContextValue)>> = Vec::new();
        let mut i: usize = 0;
        while i < KEY_COUNT
            invariant
                i <= KEY_COUNT,
                slots@.len() == i,
                forall|j: int| 0 <= j < i ==> slots@[j] is None,
            decreases KEY_COUNT - i,
        {
            slots.push(None);
            i = i + 1;
        }
        let r = RenderContext { slots };
        proof {
            broadcast use lemma_index_injective;
            assert forall|k: Key| #![trigger k.spec_index()] r.slots@[k.spec_index()] is None by {
                lemma_key_at_index(k);
            }
            assert(r@ =~= Map::<Key, Datum>::empty());
        }
        r
    }

    /// A copy of the context.
    pub fn duplicate(&self) -> (r: RenderContext)
        requires
            self.wf(),
        ensures
            r.wf(),
            r@ == self@,
    {
        let mut slots: Vec<Option<(String, ContextValue)>> = Vec::new();
        let mut i: usize = 0;
        while i < self.slots.len()
            invariant
                i <= self.slots@.len(),
                slots@.len() == i,
                forall|j: int| 0 <= j < i ==> (#[trigger] slots@[j] is Some) == (self.slots@[j] is Some),
                forall|j: int| 0 <= j < i && #[trigger] slots@[j] is Some ==> slots@[j]->Some_0.0@
                    == self.slots@[j]->Some_0.0@ && slots@[j]->Some_0.1@ == self.slots@[j]->Some_0.1@,
            decreases self.slots@.len() - i,
        {
            let slot = match &self.slots[i] {
                Some((name, value)) => Some((name.clone(), value.duplicate())),
                None => None,
            };
            slots.push(slot);
            i = i + 1;
        }
        let r = RenderContext { slots };
        proof {
            assert forall|k: Key| #![trigger k.spec_index()] (r.slots@[k.spec_index()] is Some) == (self.slots@[k.spec_index()] is Some)
                && (r.slots@[k.spec_index()] is Some ==> r.slots@[k.spec_index()]->Some_0.0@ == self.slots@[k.spec_index()]->Some_0.0@
                && r.slots@[k.spec_index()]->Some_0.1@ == self.slots@[k.spec_index()]->Some_0.1@) by {
                lemma_key_at_index(k);
            }
            assert(r@ =~= self@);
        }
        r
    }

    /// Sets `k` to `v`, replacing any earlier value.
    pub fn set(&mut self, k: Key, v: ContextValue)
        requires
            old(self).wf(),
        ensures
            final(self).wf(),
            final(self)@ == old(self)@.insert(k, v@),
    {
        broadcast use lemma_index_injective;
        proof {
            lemma_key_at_index(k);
        }
        let name = String::from_str(k.text());
        self.slots.set(k.index(), Some((name, v)));
        proof {
            assert forall|j: Key| #![trigger j.spec_index()] true by {
                lemma_key_at_index(j);
            }
        }
        assert(self@ =~= old(self)@.insert(k, v@));
    }

    /// Removes `k`; nothing changes when it is absent.
    pub fn remove(&mut self, k: Key)
        requires
            old(self).wf(),
        ensures
            final(self).wf(),
            final(self)@ == old(self)@.remove(k),
    {
        broadcast use lemma_index_injective;
        proof {
            lemma_key_at_index(k);
        }
        self.slots.set(k.index(), None);
        assert(self@ =~= old(self)@.remove(k));
    }
}

#[verifier::external_type_specification]
#[verifier::external_body]
pub struct ExHandlebars<'reg>(handlebars::Handlebars<'reg>);

#[verifier::external_type_specification]
#[verifier::external_body]
pub struct ExRenderError(handlebars::RenderError);

#[verifier::external_type_specification]
#[verifier::external_body]
pub struct ExTemplateError(handlebars::TemplateError);

/// The template registry that generated code is rendered with.
pub type Registry = handlebars::Handlebars<'static>;

/// The templates of a registry: template name to template text.
pub uninterp spec fn registry_templates(r: handlebars::Handlebars<'static>) -> Map<Seq<char>, Seq<char>>;

/// The symbol helpers of a registry: helper name to the kind of symbol that
/// the helper writes (see `register_symbol_helper`).
pub uninterp spec fn registry_symbol_helpers(r: handlebars::Handlebars<'static>) -> Map<Seq<char>, SymbolKind>;

/// The registry is as `Registry::new` leaves it but for its templates and
/// symbol helpers: its other helpers are handlebars' built-in ones, and every
/// setting has its default.
pub uninterp spec fn registry_plain(r: handlebars::Handlebars<'static>) -> bool;

/// The registry is ready to render generated code: strict mode is on, values
/// are written without escaping, its helpers are handlebars' built-in ones,
/// those that `handlebars_misc_helpers::setup_handlebars` registers and its
/// symbol helpers (which take precedence on a shared name), and every other
/// setting has its default.
pub uninterp spec fn registry_ready(r: handlebars::Handlebars<'static>) -> bool;

/// Whether `handlebars` parses a template text (with default options).
pub uninterp spec fn template_parses(source: Seq<char>) -> bool;

/// What a ready registry (see `registry_ready`) whose templates are
/// `templates` and whose symbol helpers are `helpers` renders for a template
/// name and a context; `None` when rendering fails. It is used only with the
/// crate's own templates (`template_table()`), which call no helper that
/// reads the environment or the disk, so given these arguments the output
/// depends on nothing else.
pub uninterp spec fn rendered(
    templates: Map<Seq<char>, Seq<char>>,
    helpers: Map<Seq<char>, SymbolKind>,
    template: Seq<char>,
    data: ContextMap,
) -> Option<Seq<char>>;

/// Relies on `handlebars::Registry::render`: renders the named template
/// against the context's keys and values as a JSON object.
#[verifier::external_body]
pub(crate) fn render_template(
    registry: &handlebars::Handlebars<'static>,
    template: &str,
    ctx: &RenderContext,
) -> (r: Result<String, handlebars::RenderError>)
    requires
        registry_ready(*registry),
        registry_templates(*registry) == template_table(),
        ctx.wf(),
    ensures
        match rendered(registry_templates(*registry), registry_symbol_helpers(*registry), template@, ctx@) {
            Some(text) => r is Ok && r->Ok_0@ == text,
            None => r is Err,
        },
{
    let mut data = serde_json::Map::new();
    for (name, value) in ctx.slots.iter().flatten() {
        let json = match value {
            ContextValue::Text(s) => serde_json::Value::String(s.clone()),
            ContextValue::Id(n) => serde_json::Value::from(*n),
            ContextValue::Flag(b) => serde_json::Value::Bool(*b),
            ContextValue::Names(v) => serde_json::Value::from(v.clone()),
        };
        data.insert(name.clone(), json);
    }
    registry.render(template, &data)
}

/// Relies on `handlebars::Registry::new`: no templates, only the built-in
/// helpers, default settings.
#[verifier::external_body]
pub(crate) fn new_registry() -> (r: Registry)
    ensures
        registry_plain(r),
        registry_templates(r).dom().is_empty(),
        registry_symbol_helpers(r).dom().is_empty(),
{
    handlebars::Handlebars::new()
}

/// Relies on `handlebars_misc_helpers::setup_handlebars`: turns strict mode
/// on, registers `no_escape` and the string-casing helpers (`to_snake_case`,
/// `to_plural`, ...) and others; it registers no template.
#[verifier::external_body]
pub(crate) fn add_misc_helpers(registry: &mut handlebars::Handlebars<'static>)
    ensures
        registry_templates(*final(registry)) == registry_templates(*old(registry)),
        registry_plain(*old(registry)) && registry_symbol_helpers(*old(registry)).dom().is_empty()
            ==> registry_ready(*final(registry)),
        registry_symbol_helpers(*old(registry)).dom().is_empty() ==> registry_symbol_helpers(*final(registry)).dom().is_empty(),
{
    handlebars_misc_helpers::setup_handlebars(registry)
}

/// Relies on `handlebars::Registry::set_strict_mode`: with strict mode on, a
/// template that reads an absent key fails to render.
#[verifier::external_body]
pub(crate) fn set_strict_mode(registry: &mut handlebars::Handlebars<'static>, enabled: bool)
    ensures
        registry_templates(*final(registry)) == registry_templates(*old(registry)),
        registry_symbol_helpers(*final(registry)) == registry_symbol_helpers(*old(registry)),
        enabled && registry_ready(*old(registry)) ==> registry_ready(*final(registry)),
{
    registry.set_strict_mode(enabled)
}

/// Relies on `handlebars::Registry::register_escape_fn` with
/// `handlebars::no_escape`: values are written without HTML escaping.
#[verifier::external_body]
pub(crate) fn disable_escaping(registry: &mut handlebars::Handlebars<'static>)
    ensures
        registry_templates(*final(registry)) == registry_templates(*old(registry)),
        registry_symbol_helpers(*final(registry)) == registry_symbol_helpers(*old(registry)),
        registry_ready(*old(registry)) ==> registry_ready(*final(registry)),
{
    registry.register_escape_fn(handlebars::no_escape)
}

/// Relies on `handlebars::Registry::register_template_string`: parses the
/// text; on success registers it under `name` (replacing a template of that
/// name), on a syntax error changes nothing.
#[verifier::external_body]
pub(crate) fn register_template(
    registry: &mut handlebars::Handlebars<'static>,
    name: &str,
    source: &str,
) -> (r: Result<(), handlebars::TemplateError>)
    ensures
        r is Ok <==> template_parses(source@),
        r is Ok ==> registry_templates(*final(registry)) == registry_templates(*old(registry)).insert(name@, source@),
        r is Err ==> registry_templates(*final(registry)) == registry_templates(*old(registry)),
        registry_symbol_helpers(*final(registry)) == registry_symbol_helpers(*old(registry)),
        registry_ready(*final(registry)) == registry_ready(*old(registry)),
{
    registry.register_template_string(name, source)
}

/// Relies on `handlebars::Registry::register_helper`: registers, under
/// `name` (replacing a helper of that name), a helper that writes
/// `kind.symbol(p)` for its first parameter `p`, and fails with "param not
/// found" without a parameter and "not string" when `p` is not a string.
#[verifier::external_body]
pub(crate) fn register_symbol_helper(
    registry: &mut handlebars::Handlebars<'static>,
    name: &str,
    kind: SymbolKind,
)
    ensures
        registry_symbol_helpers(*final(registry)) == registry_symbol_helpers(*old(registry)).insert(name@, kind),
        registry_templates(*final(registry)) == registry_templates(*old(registry)),
        registry_ready(*old(registry)) ==> registry_ready(*final(registry)),
{
    registry.register_helper(
        name,
        Box::new(
            move |h: &Helper<'_>, _: &handlebars::Handlebars<'_>, _: &Context, _: &mut HelperContext<'_, '_>, out: &mut dyn Output| -> HelperResult {
                let param = h.param(0).ok_or_else(|| RenderErrorReason::Other("param not found".to_string()))?;
                let text = param.value().as_str().ok_or_else(|| RenderErrorReason::Other("not string".to_string()))?;
                out.write(&kind.symbol(text))?;
                Ok(())
            },
        ),
    )
}

/// Relies on the `Display` impl of `handlebars::RenderError`: its message.
#[verifier::external_body]
pub(crate) fn render_error_text(e: &handlebars::RenderError) -> (r: String) {
    e.to_string()
}

/// Relies on the `Display` impl of `handlebars::TemplateError`: its message.
#[verifier::external_body]
pub(crate) fn template_error_text(e: &handlebars::TemplateError) -> (r: String) {
    e.to_string()
}

} // verus!
