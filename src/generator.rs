//! The generator: renders the modules of a workspace into an output buffer,
//! one list at a time, keeping the render context scoped to each list,
//! field, label and builder.
//!
//! What is rendered is stated as a sequence of steps (a template and the
//! context it is rendered against); `emit` gives the bytes that a sequence
//! of steps appends to the buffer, or `None` when a step fails to render.
use crate::error::Error;
use crate::labels::{label_names, sort_labels, sorted_labels};
use crate::render::{
    add_misc_helpers, disable_escaping, new_registry, registry_ready, registry_symbol_helpers,
    registry_templates, render_error_text, render_template, rendered, set_strict_mode, texts_of, ContextMap, ContextValue, Datum, Key, RenderContext,
    Scope,
};
use crate::naming::{concat3, item_name, item_name_of, item_plural, item_plural_of, module_name, snake_case_of, SymbolKind};
use crate::schema::{Field, FieldKind, Label, ListSchema, NumericType, SkippedField, UnsupportedCategory, WorkspaceInfo};
use crate::templates::{add_helpers, add_templates, all_templates_parse, helper_table, template_table};
use vstd::string::*;
use crate::templates::Template;
use vstd::prelude::*;
use vstd::utf8::encode_utf8;

verus! {

#[verifier::external_type_specification]
#[verifier::external_body]
pub struct ExBytesMut(bytes::BytesMut);

/// The bytes that a buffer holds.
pub uninterp spec fn buffer_bytes(b: bytes::BytesMut) -> Seq<u8>;

/// Relies on `bytes::BytesMut::new`: an empty buffer.
pub assume_specification[ bytes::BytesMut::new ]() -> (r: bytes::BytesMut)
    ensures
        buffer_bytes(r) == Seq::<u8>::empty(),
;

/// Relies on `bytes::BytesMut::extend_from_slice`: appends the bytes.
pub assume_specification[ bytes::BytesMut::extend_from_slice ](
    b: &mut bytes::BytesMut,
    extend: &[u8],
)
    ensures
        buffer_bytes(*final(b)) == buffer_bytes(*old(b)) + extend@,
;

/// Relies on `bytes::BytesMut::split`: hands out the whole contents and
/// leaves the buffer empty.
pub assume_specification[ bytes::BytesMut::split ](b: &mut bytes::BytesMut) -> (r: bytes::BytesMut)
    ensures
        buffer_bytes(r) == buffer_bytes(*old(b)),
        buffer_bytes(*final(b)) == Seq::<u8>::empty(),
;

/// A template rendered against a context.
pub type Step = (Template, ContextMap);

pub open spec fn emit_step(out: Option<Seq<u8>>, step: Step) -> Option<Seq<u8>> {
    match out {
        Some(b) => match rendered(template_table(), helper_table(), step.0.spec_name(), step.1) {
            Some(t) => Some(b + encode_utf8(t)),
            None => None,
        },
        None => None,
    }
}

/// The buffer after rendering `steps` in order, starting from `out`.
pub open spec fn emit(out: Option<Seq<u8>>, steps: Seq<Step>) -> Option<Seq<u8>>
    decreases steps.len(),
{
    if steps.len() == 0 {
        out
    } else {
        emit_step(emit(out, steps.drop_last()), steps.last())
    }
}

/// The buffer after rendering `steps` in order from `out`, stopping at the
/// first step that fails: that step and those after it add nothing.
pub open spec fn emit_partial(out: Seq<u8>, steps: Seq<Step>) -> Seq<u8>
    decreases steps.len(),
{
    if steps.len() == 0 {
        out
    } else if emit(Some(out), steps) is Some {
        emit(Some(out), steps)->Some_0
    } else {
        emit_partial(out, steps.drop_last())
    }
}

/// An operation that renders `steps` took the buffer from `before` to
/// `after`, and succeeded exactly when every step rendered. On failure the
/// buffer holds what the steps before the failing one rendered.
pub open spec fn emitted(before: Seq<u8>, after: Seq<u8>, steps: Seq<Step>, ok: bool) -> bool {
    &&& ok <==> emit(Some(before), steps) is Some
    &&& after == emit_partial(before, steps)
    &&& ok ==> emit(Some(before), steps) == Some(after)
}

proof fn lemma_emit_partial_concat(o0: Seq<u8>, a: Seq<Step>, b: Seq<Step>)
    ensures
        emit(Some(o0), a) is Some ==> emit_partial(o0, a + b) == emit_partial(emit(Some(o0), a)->Some_0, b),
        emit(Some(o0), a) is None ==> emit_partial(o0, a + b) == emit_partial(o0, a),
    decreases b.len(),
{
    lemma_emit_concat(Some(o0), a, b);
    if b.len() == 0 {
        assert(a + b =~= a);
    } else {
        lemma_emit_partial_concat(o0, a, b.drop_last());
        assert((a + b).drop_last() =~= a + b.drop_last());
        if emit(Some(o0), a) is None {
            lemma_emit_none(b);
        }
    }
}

pub proof fn lemma_emit_concat(out: Option<Seq<u8>>, a: Seq<Step>, b: Seq<Step>)
    ensures
        emit(out, a + b) == emit(emit(out, a), b),
    decreases b.len(),
{
    if b.len() == 0 {
        assert(a + b =~= a);
    } else {
        lemma_emit_concat(out, a, b.drop_last());
        assert((a + b).drop_last() =~= a + b.drop_last());
    }
}

pub proof fn lemma_emit_none(steps: Seq<Step>)
    ensures
        emit(None, steps) is None,
    decreases steps.len(),
{
    if steps.len() > 0 {
        lemma_emit_none(steps.drop_last());
    }
}

proof fn lemma_emitted_then(
    o0: Seq<u8>,
    o1: Seq<u8>,
    o2: Seq<u8>,
    a: Seq<Step>,
    b: Seq<Step>,
    ok1: bool,
    ok2: bool,
)
    requires
        emitted(o0, o1, a, ok1),
        ok1 ==> emitted(o1, o2, b, ok2),
        !ok1 ==> o2 == o1,
    ensures
        emitted(o0, o2, a + b, ok1 && ok2),
{
    lemma_emit_concat(Some(o0), a, b);
    lemma_emit_partial_concat(o0, a, b);
    if !ok1 {
        lemma_emit_none(b);
    }
}

proof fn lemma_emitted_nothing(o: Seq<u8>)
    ensures
        emitted(o, o, seq![], true),
{
}

proof fn lemma_emitted_single(o0: Seq<u8>, o1: Seq<u8>, s: Step, ok: bool)
    requires
        ok <==> emit_step(Some(o0), s) is Some,
        ok ==> emit_step(Some(o0), s) == Some(o1),
        !ok ==> o1 == o0,
    ensures
        emitted(o0, o1, seq![s], ok),
{
    assert(seq![s].drop_last() =~= Seq::<Step>::empty());
    assert(emit(Some(o0), Seq::<Step>::empty()) == Some(o0));
    assert(seq![s].last() == s);
    assert(emit(Some(o0), seq![s]) == emit_step(Some(o0), s));
    assert(emit_partial(o0, Seq::<Step>::empty()) == o0);
}

pub open spec fn scope_absent(c: ContextMap, s: Scope) -> bool {
    forall|k: Key| #[trigger] k.scope() == s ==> !c.contains_key(k)
}

pub open spec fn without_scope(c: ContextMap, s: Scope) -> ContextMap {
    c.remove_keys(Set::new(|k: Key| k.scope() == s))
}

/// The context with every list, field and builder key removed.
pub open spec fn without_list_local(c: ContextMap) -> ContextMap {
    c.remove_keys(Set::new(|k: Key| k.is_list_local()))
}

/// The context of one field's fragments.
pub open spec fn field_ctx(c: ContextMap, f: Field) -> ContextMap {
    c.insert(Key::Field, Datum::Text(f.name@)).insert(Key::FieldUuid, Datum::Text(f.uuid@)).insert(
        Key::FieldId,
        Datum::Id(f.id),
    ).insert(Key::FieldDesc, Datum::Text(f.description@)).insert(
        Key::FieldSingleValue,
        Datum::Flag(!f.multiple),
    ).insert(Key::FieldMultipleValue, Datum::Flag(f.multiple))
}

/// The context of one label's fragment.
pub open spec fn label_ctx(c: ContextMap, l: Label) -> ContextMap {
    c.insert(Key::Label, Datum::Text(l.name@)).insert(Key::LabelId, Datum::Id(l.id))
}

/// One step of template `t` per label, in schema order.
pub open spec fn label_steps(t: Template, c: ContextMap, ls: Seq<Label>) -> Seq<Step> {
    Seq::new(ls.len(), |i: int| (t, label_ctx(c, ls[i])))
}

/// The context of a field's label table: the number of labels and their
/// names, sorted.
pub open spec fn lookup_ctx(c: ContextMap, ls: Seq<Label>) -> ContextMap {
    c.insert(Key::LabelCount, Datum::Id(ls.len() as u64)).insert(
        Key::Labels,
        Datum::Names(label_names(sorted_labels(ls))),
    )
}

pub open spec fn ref_text(target: Option<String>) -> Seq<char> {
    match target {
        Some(n) => n@,
        None => Seq::empty(),
    }
}

/// Label accessors, then the label table when the field has labels, then
/// the field-level accessors.
pub open spec fn category_getter_steps(c: ContextMap, labels: Option<Vec<Label>>) -> Seq<Step> {
    match labels {
        Some(v) => label_steps(Template::CategoryGetterPerLabel, c, v@) + seq![
            (Template::CategoryLabelLookup, lookup_ctx(c, v@)),
            (Template::CategoryGettersPerField, c),
        ],
        None => seq![(Template::CategoryGettersPerField, c)],
    }
}

/// The accessor fragments of a field of the given category.
pub open spec fn getter_fragments(c: ContextMap, kind: FieldKind) -> Seq<Step> {
    match kind {
        FieldKind::Text => seq![(Template::GetTextField, c)],
        FieldKind::Url => seq![(Template::GetUrlField, c)],
        FieldKind::Date => seq![(Template::GetDateField, c)],
        FieldKind::Persons => seq![(Template::GetPersonField, c)],
        FieldKind::Number(Some(NumericType::Integer)) => seq![(Template::GetIntField, c)],
        FieldKind::Number(_) => seq![(Template::GetFloatField, c)],
        FieldKind::Checkbox => seq![(Template::GetCheckboxField, c)],
        FieldKind::Categories(labels) => category_getter_steps(c, labels),
        FieldKind::Files => seq![(Template::GetFilesField, c)],
        FieldKind::References(target) => seq![
            (Template::GetReferences, c.insert(Key::RefList, Datum::Text(ref_text(target)))),
        ],
        FieldKind::SubEntries => seq![(Template::GetSubitemsField, c)],
        FieldKind::Formula => seq![(Template::GetFormulaField, c)],
        _ => seq![],
    }
}

/// The setter fragments of a field of the given category, inside a builder.
pub open spec fn setter_fragments(c: ContextMap, kind: FieldKind) -> Seq<Step> {
    match kind {
        FieldKind::Text => seq![(Template::SetTextField, c)],
        FieldKind::Url => seq![(Template::SetUrlField, c)],
        FieldKind::Date => seq![(Template::SetDateField, c)],
        FieldKind::Persons => seq![(Template::SetPersonField, c)],
        FieldKind::Number(Some(NumericType::Integer)) => seq![(Template::SetIntField, c)],
        FieldKind::Number(_) => seq![(Template::SetFloatField, c)],
        FieldKind::Checkbox => seq![(Template::SetCheckboxField, c)],
        FieldKind::Categories(labels) => match labels {
            Some(v) => label_steps(Template::CategorySetterPerLabel, c, v@) + seq![
                (Template::CategorySetterPerField, c),
            ],
            None => seq![(Template::CategorySetterPerField, c)],
        },
        FieldKind::References(target) => seq![
            (Template::SetReferences, c.insert(Key::RefList, Datum::Text(ref_text(target)))),
        ],
        FieldKind::SubEntries => seq![(Template::SetSubitems, c)],
        _ => seq![],
    }
}

/// A field's constants, then its accessors.
pub open spec fn getter_steps(c: ContextMap, f: Field) -> Seq<Step> {
    seq![(Template::FieldConst, field_ctx(c, f))] + getter_fragments(field_ctx(c, f), f.kind)
}

/// A field's setters.
pub open spec fn setter_steps(c: ContextMap, f: Field) -> Seq<Step> {
    setter_fragments(field_ctx(c, f), f.kind)
}

/// A field's setters when `setters`, else its constants and accessors.
pub open spec fn field_steps(c: ContextMap, f: Field, setters: bool) -> Seq<Step> {
    if setters {
        setter_steps(c, f)
    } else {
        getter_steps(c, f)
    }
}

/// The steps of every live field, in schema order; deprecated fields give
/// none.
pub open spec fn field_pass(c: ContextMap, fs: Seq<Field>, setters: bool) -> Seq<Step>
    decreases fs.len(),
{
    if fs.len() == 0 {
        seq![]
    } else {
        field_pass(c, fs.drop_last(), setters) + if fs.last().is_live() {
            field_steps(c, fs.last(), setters)
        } else {
            seq![]
        }
    }
}

/// What a field contributes to the skipped-field report: one entry for a
/// live field whose category is not supported.
pub open spec fn skipped_of(l: ListSchema, f: Field) -> Seq<SkippedField> {
    if !f.is_live() {
        seq![]
    } else {
        match f.kind {
            FieldKind::Hierarchy => seq![
                SkippedField { list: l.name, field: f.name, category: UnsupportedCategory::Hierarchy },
            ],
            FieldKind::Dependencies => seq![
                SkippedField { list: l.name, field: f.name, category: UnsupportedCategory::Dependencies },
            ],
            _ => seq![],
        }
    }
}

pub open spec fn skipped_in(l: ListSchema, fs: Seq<Field>) -> Seq<SkippedField>
    decreases fs.len(),
{
    if fs.len() == 0 {
        seq![]
    } else {
        skipped_in(l, fs.drop_last()) + skipped_of(l, fs.last())
    }
}

pub open spec fn builder_name_of(update: bool, item: Seq<char>) -> Seq<char> {
    (if update {
        "Update"@
    } else {
        "New"@
    }) + item + "Builder"@
}

/// The context of a create (`!update`) or update builder.
pub open spec fn builder_ctx(c: ContextMap, update: bool, item: Seq<char>) -> ContextMap {
    c.insert(Key::IsNewBuilder, Datum::Flag(!update)).insert(Key::IsUpdateBuilder, Datum::Flag(update)).insert(
        Key::Builder,
        Datum::Text(builder_name_of(update, item)),
    )
}

/// A builder: its header, the setters of every live field, `execute`, and
/// the closing of the impl.
pub open spec fn builder_steps(c: ContextMap, fs: Seq<Field>, update: bool, item: Seq<char>) -> Seq<Step> {
    let bc = builder_ctx(c, update, item);
    seq![(Template::StartItemBuilder, bc)] + field_pass(bc, fs, true) + seq![
        (Template::BuilderExecute, bc),
        (Template::EndItemBuilder, bc),
    ]
}

/// The context of one list: the caller's context without list-local keys,
/// and the list's own keys.
pub open spec fn list_ctx(c: ContextMap, l: ListSchema) -> ContextMap {
    without_list_local(c).insert(Key::List, Datum::Text(l.name@)).insert(Key::ListId, Datum::Id(l.id)).insert(
        Key::ListUuid,
        Datum::Text(l.uuid@),
    ).insert(Key::ListDesc, Datum::Text(l.description@)).insert(
        Key::ListShortId,
        Datum::Text(l.short_id@),
    ).insert(Key::ListStruct, Datum::Text(SymbolKind::ListClass.spec_symbol(l.name@))).insert(
        Key::Item,
        Datum::Text(item_name_of(l)),
    ).insert(Key::ItemPlural, Datum::Text(item_plural_of(l)))
}

/// The names a list is generated from are not empty: its name, and its item
/// names where it has them.
pub open spec fn names_valid(l: ListSchema) -> bool {
    &&& l.name@.len() > 0
    &&& l.item_name is Some ==> l.item_name->Some_0@.len() > 0
    &&& l.item_name_plural is Some ==> l.item_name_plural->Some_0@.len() > 0
}

/// Everything rendered for one list: header, field constants and
/// accessors, trailer, create builder, update builder.
pub open spec fn list_steps(c: ContextMap, l: ListSchema) -> Seq<Step> {
    let b = list_ctx(c, l);
    seq![(Template::StartListImpl, b)] + field_pass(b, l.fields@, false) + seq![(Template::EndListImpl, b)]
        + builder_steps(b, l.fields@, false, item_name_of(l)) + builder_steps(b, l.fields@, true, item_name_of(l))
}

proof fn lemma_field_pass_step(c: ContextMap, fs: Seq<Field>, setters: bool, i: int)
    requires
        0 <= i < fs.len(),
    ensures
        field_pass(c, fs.subrange(0, i + 1), setters) == field_pass(c, fs.subrange(0, i), setters) + if fs[i].is_live() {
            field_steps(c, fs[i], setters)
        } else {
            seq![]
        },
        skipped_in_prefix_step(fs, i),
{
    assert(fs.subrange(0, i + 1).drop_last() =~= fs.subrange(0, i));
}

spec fn skipped_in_prefix_step(fs: Seq<Field>, i: int) -> bool {
    forall|l: ListSchema| #[trigger] skipped_in(l, fs.subrange(0, i + 1)) == skipped_in(l, fs.subrange(0, i)) + skipped_of(l, fs[i])
}

proof fn lemma_pass_prefix_fails(o0: Seq<u8>, o: Seq<u8>, c: ContextMap, fs: Seq<Field>, setters: bool, k: int)
    requires
        0 <= k <= fs.len(),
        emitted(o0, o, field_pass(c, fs.subrange(0, k), setters), false),
    ensures
        emitted(o0, o, field_pass(c, fs, setters), false),
    decreases fs.len() - k,
{
    if k == fs.len() {
        assert(fs.subrange(0, k) =~= fs);
    } else {
        lemma_field_pass_step(c, fs, setters, k);
        let x = if fs[k].is_live() { field_steps(c, fs[k], setters) } else { seq![] };
        lemma_emitted_then(o0, o, o, field_pass(c, fs.subrange(0, k), setters), x, false, false);
        lemma_pass_prefix_fails(o0, o, c, fs, setters, k + 1);
    }
}

/// The names of a label table, in table order.
fn label_name_list(table: &Vec<Label>) -> (r: Vec<String>)
    ensures
        texts_of(r@) == label_names(table@),
{
    let mut r: Vec<String> = Vec::new();
    let mut i: usize = 0;
    while i < table.len()
        invariant
            i <= table@.len(),
            r@.len() == i,
            forall|j: int| 0 <= j < i ==> (#[trigger] r@[j])@ == table@[j].name@,
        decreases table@.len() - i,
    {
        r.push(table[i].name.clone());
        i = i + 1;
    }
    assert(texts_of(r@) =~= label_names(table@));
    r
}

pub open spec fn opt_text(s: Option<String>) -> Seq<char> {
    match s {
        Some(t) => t@,
        None => Seq::empty(),
    }
}

/// The context of a workspace run: the caller's context without list-local
/// keys, and the workspace's own keys.
pub open spec fn workspace_ctx(c: ContextMap, ws: WorkspaceInfo) -> ContextMap {
    without_list_local(c).insert(Key::Workspace, Datum::Text(ws.name@)).insert(
        Key::WorkspaceUuid,
        Datum::Text(ws.uuid@),
    ).insert(Key::WorkspaceId, Datum::Id(ws.id)).insert(Key::WorkspaceDesc, Datum::Text(opt_text(ws.description)))
}

/// Path of the module file of a list.
pub open spec fn list_file_path(dir: Seq<char>, module: Seq<char>) -> Seq<char> {
    dir + "/src/"@ + module + ".rs"@
}

pub open spec fn lib_file_path(dir: Seq<char>) -> Seq<char> {
    dir + "/src/lib.rs"@
}

pub open spec fn manifest_file_path(dir: Seq<char>) -> Seq<char> {
    dir + "/Cargo.toml.sample"@
}

/// The crate root: module declarations and re-exports of every module.
pub open spec fn lib_ctx(c: ContextMap, modules: Seq<Seq<char>>) -> ContextMap {
    c.insert(Key::Modules, Datum::Names(modules))
}

/// The manifest, named after the workspace.
pub open spec fn manifest_ctx(c: ContextMap, modules: Seq<Seq<char>>, ws: WorkspaceInfo) -> ContextMap {
    lib_ctx(c, modules).insert(Key::Crate, Datum::Text(snake_case_of(ws.name@)))
}

pub open spec fn module_names(ls: Seq<ListSchema>) -> Seq<Seq<char>> {
    ls.map_values(|l: ListSchema| snake_case_of(l.name@))
}

/// What is in the buffer before the `i`-th file of a run is rendered: what
/// the buffer held at the start for the first file, nothing for the others.
pub open spec fn start_of(i: int, buf0: Seq<u8>) -> Seq<u8> {
    if i == 0 {
        buf0
    } else {
        Seq::empty()
    }
}

/// Contents of the list files of a run, or `None` when one fails.
pub open spec fn list_contents(buf0: Seq<u8>, c: ContextMap, ls: Seq<ListSchema>) -> Option<Seq<Seq<u8>>>
    decreases ls.len(),
{
    if ls.len() == 0 {
        Some(seq![])
    } else {
        match list_contents(buf0, c, ls.drop_last()) {
            Some(prev) => match emit(Some(start_of(ls.len() - 1, buf0)), list_steps(c, ls.last())) {
                Some(x) => Some(prev.push(x)),
                None => None,
            },
            None => None,
        }
    }
}

/// Contents of every file of a workspace run, in order: one file per list,
/// then the crate root, then the manifest; `None` when a rendering fails.
/// `buf0` and `c0` are the buffer and context that the run starts from.
pub open spec fn workspace_contents(buf0: Seq<u8>, c0: ContextMap, ws: WorkspaceInfo, ls: Seq<ListSchema>) -> Option<Seq<Seq<u8>>> {
    let c = workspace_ctx(c0, ws);
    let m = module_names(ls);
    match list_contents(buf0, c, ls) {
        Some(files) => match emit(Some(start_of(ls.len() as int, buf0)), seq![(Template::LibMain, lib_ctx(c, m))]) {
            Some(lib) => match emit(Some(Seq::empty()), seq![(Template::CargoToml, manifest_ctx(c, m, ws))]) {
                Some(manifest) => Some(files.push(lib).push(manifest)),
                None => None,
            },
            None => None,
        },
        None => None,
    }
}

/// Paths of the files of a workspace run, in the order of `workspace_contents`.
pub open spec fn workspace_paths(dir: Seq<char>, ls: Seq<ListSchema>) -> Seq<Seq<char>> {
    Seq::new(ls.len(), |i: int| list_file_path(dir, snake_case_of(ls[i].name@))).push(lib_file_path(dir)).push(
        manifest_file_path(dir),
    )
}

proof fn lemma_list_contents_prefix_fails(buf0: Seq<u8>, c: ContextMap, ls: Seq<ListSchema>, k: int)
    requires
        0 <= k <= ls.len(),
        list_contents(buf0, c, ls.subrange(0, k)) is None,
    ensures
        list_contents(buf0, c, ls) is None,
    decreases ls.len() - k,
{
    if k == ls.len() {
        assert(ls.subrange(0, k) =~= ls);
    } else {
        assert(ls.subrange(0, k + 1).drop_last() =~= ls.subrange(0, k));
        lemma_list_contents_prefix_fails(buf0, c, ls, k + 1);
    }
}

/// A generated file.
pub struct OutputFile {
    pub path: String,
    pub contents: bytes::BytesMut,
}

/// The generator's state: the template registry, the output buffer, the
/// render context and the fields skipped so far.
pub struct Generator {
    registry: handlebars::Handlebars<'static>,
    buf: bytes::BytesMut,
    ctx: RenderContext,
    skipped: Vec<SkippedField>,
}

impl Generator {
    pub closed spec fn wf(&self) -> bool {
        &&& self.ctx.wf()
        &&& registry_ready(self.registry)
        &&& registry_templates(self.registry) == template_table()
        &&& registry_symbol_helpers(self.registry) == helper_table()
    }

    /// The templates of the generator's registry.
    pub closed spec fn templates(&self) -> Map<Seq<char>, Seq<char>> {
        registry_templates(self.registry)
    }

    /// The symbol helpers of the generator's registry.
    pub closed spec fn helpers(&self) -> Map<Seq<char>, SymbolKind> {
        registry_symbol_helpers(self.registry)
    }

    /// Whether the registry renders in strict mode, without escaping, with
    /// the string-casing helpers (see `registry_ready`).
    pub closed spec fn ready(&self) -> bool {
        registry_ready(self.registry)
    }

    /// The bytes rendered since the output was last taken.
    pub closed spec fn output(&self) -> Seq<u8> {
        buffer_bytes(self.buf)
    }

    pub closed spec fn context(&self) -> ContextMap {
        self.ctx@
    }

    /// Fields skipped because their category is not supported.
    pub closed spec fn skipped(&self) -> Seq<SkippedField> {
        self.skipped@
    }


    /// A generator with the registry of templates and helpers (strict mode,
    /// no escaping), an empty buffer and an empty context. Fails, with the
    /// parser's message, exactly when a template does not parse.
    pub fn init() -> (r: Result<Generator, Error>)
        ensures
            r is Ok <==> all_templates_parse(),
            r is Err ==> r->Err_0 is Message,
            r is Ok ==> r->Ok_0.wf(),
            r is Ok ==> r->Ok_0.ready(),
            r is Ok ==> r->Ok_0.templates() == template_table(),
            r is Ok ==> r->Ok_0.helpers() == helper_table(),
            r is Ok ==> forall|t: Template| #![trigger t.spec_name()]
                r->Ok_0.templates().contains_key(t.spec_name()) && r->Ok_0.templates()[t.spec_name()] == t.spec_source(),
            r is Ok ==> forall|k: SymbolKind| #![trigger k.spec_helper_name()]
                r->Ok_0.helpers().contains_key(k.spec_helper_name()) && r->Ok_0.helpers()[k.spec_helper_name()] == k,
            r is Ok ==> r->Ok_0.output() == Seq::<u8>::empty(),
            r is Ok ==> r->Ok_0.context() == Map::<Key, Datum>::empty(),
            r is Ok ==> r->Ok_0.skipped() == Seq::<SkippedField>::empty(),
    {
        let mut registry = new_registry();
        assert(registry_templates(registry) =~= Map::<Seq<char>, Seq<char>>::empty());
        assert(registry_symbol_helpers(registry) =~= Map::<Seq<char>, SymbolKind>::empty());
        add_misc_helpers(&mut registry);
        set_strict_mode(&mut registry, true);
        disable_escaping(&mut registry);
        assert(registry_symbol_helpers(registry) =~= Map::<Seq<char>, SymbolKind>::empty());
        let r = add_helpers(&mut registry);
        if let Err(e) = r {
            return Err(e);
        }
        let r = add_templates(&mut registry);
        if let Err(e) = r {
            return Err(e);
        }
        Ok(Generator { registry, buf: bytes::BytesMut::new(), ctx: RenderContext::new(), skipped: Vec::new() })
    }

    /// Takes the buffer's contents and leaves it empty.
    pub fn clone_reset(&mut self) -> (r: bytes::BytesMut)
        requires
            old(self).wf(),
        ensures
            final(self).wf(),
            buffer_bytes(r) == old(self).output(),
            final(self).output() == Seq::<u8>::empty(),
            final(self).context() == old(self).context(),
            final(self).skipped() == old(self).skipped(),
    {
        self.buf.split()
    }

    /// The fields skipped so far because their category is not supported.
    pub fn skipped_fields(&self) -> (r: &Vec<SkippedField>)
        ensures
            r@ == self.skipped(),
    {
        &self.skipped
    }

    /// Sets the workspace keys, after dropping every list-local key.
    pub fn begin_workspace(&mut self, ws: &WorkspaceInfo)
        requires
            old(self).wf(),
        ensures
            final(self).wf(),
            final(self).context() == workspace_ctx(old(self).context(), *ws),
            final(self).output() == old(self).output(),
            final(self).skipped() == old(self).skipped(),
    {
        self.clear_list_local();
        self.ctx.set(Key::Workspace, ContextValue::Text(ws.name.clone()));
        self.ctx.set(Key::WorkspaceUuid, ContextValue::Text(ws.uuid.clone()));
        self.ctx.set(Key::WorkspaceId, ContextValue::Id(ws.id));
        let desc = match &ws.description {
            Some(d) => d.clone(),
            None => String::new(),
        };
        self.ctx.set(Key::WorkspaceDesc, ContextValue::Text(desc));
    }

    /// Generates the module file of one list: renders the list, takes the
    /// buffer as the file's contents, and adds the module's name to `modules`.
    pub fn gen_list_file(&mut self, l: &ListSchema, output_dir: &str, modules: &mut Vec<String>) -> (r: Result<OutputFile, Error>)
        requires
            old(self).wf(),
            names_valid(*l),
        ensures
            r is Err ==> r->Err_0 is Message,
            final(self).wf(),
            r is Ok <==> emit(Some(old(self).output()), list_steps(old(self).context(), *l)) is Some,
            r is Ok ==> buffer_bytes(r->Ok_0.contents) == emit(Some(old(self).output()), list_steps(old(self).context(), *l))->Some_0,
            r is Ok ==> r->Ok_0.path@ == list_file_path(output_dir@, snake_case_of(l.name@)),
            r is Ok ==> final(self).output() == Seq::<u8>::empty(),
            r is Err ==> final(self).output() == emit_partial(old(self).output(), list_steps(old(self).context(), *l)),
            final(self).context() == without_list_local(old(self).context()),
            r is Ok ==> final(self).skipped() == old(self).skipped() + skipped_in(*l, l.fields@),
            r is Ok ==> texts_of(final(modules)@) == texts_of(old(modules)@).push(snake_case_of(l.name@)),
    {
        let r = self.gen_list(l);
        if let Err(e) = r {
            return Err(e);
        }
        let module = module_name(l.name.as_str());
        let mut path = String::from_str(output_dir);
        path.append("/src/");
        path.append(module.as_str());
        path.append(".rs");
        modules.push(module);
        assert(texts_of(modules@) =~= texts_of(old(modules)@).push(snake_case_of(l.name@)));
        let contents = self.clone_reset();
        Ok(OutputFile { path, contents })
    }

    /// Generates the crate root, which declares and re-exports `modules`,
    /// and the manifest; the two files come in that order.
    pub fn finish_workspace(&mut self, ws: &WorkspaceInfo, modules: &Vec<String>, output_dir: &str) -> (r: Result<Vec<OutputFile>, Error>)
        requires
            old(self).wf(),
            ws.name@.len() > 0,
        ensures
            r is Err ==> r->Err_0 is Message,
            final(self).wf(),
            r is Ok <==> (emit(Some(old(self).output()), seq![(Template::LibMain, lib_ctx(old(self).context(), texts_of(modules@)))]) is Some
                && emit(Some(Seq::empty()), seq![(Template::CargoToml, manifest_ctx(old(self).context(), texts_of(modules@), *ws))]) is Some),
            r is Ok ==> r->Ok_0@.len() == 2,
            r is Ok ==> buffer_bytes(r->Ok_0@[0].contents) == emit(Some(old(self).output()), seq![(Template::LibMain, lib_ctx(old(self).context(), texts_of(modules@)))])->Some_0,
            r is Ok ==> buffer_bytes(r->Ok_0@[1].contents) == emit(Some(Seq::empty()), seq![(Template::CargoToml, manifest_ctx(old(self).context(), texts_of(modules@), *ws))])->Some_0,
            r is Ok ==> r->Ok_0@[0].path@ == lib_file_path(output_dir@),
            r is Ok ==> r->Ok_0@[1].path@ == manifest_file_path(output_dir@),
            r is Ok ==> final(self).output() == Seq::<u8>::empty(),
            final(self).skipped() == old(self).skipped(),
            emit(Some(old(self).output()), seq![(Template::LibMain, lib_ctx(old(self).context(), texts_of(modules@)))]) is None
                ==> final(self).context() == lib_ctx(old(self).context(), texts_of(modules@)),
            emit(Some(old(self).output()), seq![(Template::LibMain, lib_ctx(old(self).context(), texts_of(modules@)))]) is Some
                ==> final(self).context() == manifest_ctx(old(self).context(), texts_of(modules@), *ws),
    {
        let ghost c = self.ctx@;
        let mut names: Vec<String> = Vec::new();
        let mut i: usize = 0;
        while i < modules.len()
            invariant
                i <= modules@.len(),
                names@.len() == i,
                forall|j: int| 0 <= j < i ==> (#[trigger] names@[j])@ == modules@[j]@,
            decreases modules@.len() - i,
        {
            names.push(modules[i].clone());
            i = i + 1;
        }
        assert(texts_of(names@) =~= texts_of(modules@));
        self.ctx.set(Key::Modules, ContextValue::Names(names));
        let r = self.render(Template::LibMain);
        if let Err(e) = r {
            return Err(e);
        }
        let mut lib_path = String::from_str(output_dir);
        lib_path.append("/src/lib.rs");
        let lib = OutputFile { path: lib_path, contents: self.clone_reset() };
        self.ctx.set(Key::Crate, ContextValue::Text(module_name(ws.name.as_str())));
        let r = self.render(Template::CargoToml);
        if let Err(e) = r {
            return Err(e);
        }
        let mut manifest_path = String::from_str(output_dir);
        manifest_path.append("/Cargo.toml.sample");
        let manifest = OutputFile { path: manifest_path, contents: self.clone_reset() };
        let mut files: Vec<OutputFile> = Vec::new();
        files.push(lib);
        files.push(manifest);
        Ok(files)
    }


    /// Generates every file of a workspace whose lists are `lists`: one
    /// module per list, the crate root and the manifest, in that order.
    /// Stops at the first rendering failure.
    pub fn gen_workspace(&mut self, ws: &WorkspaceInfo, lists: &Vec<ListSchema>, output_dir: &str) -> (r: Result<Vec<OutputFile>, Error>)
        requires
            old(self).wf(),
            ws.name@.len() > 0,
            forall|i: int| 0 <= i < lists@.len() ==> names_valid(#[trigger] lists@[i]),
        ensures
            r is Err ==> r->Err_0 is Message,
            final(self).wf(),
            r is Ok <==> workspace_contents(old(self).output(), old(self).context(), *ws, lists@) is Some,
            r is Ok ==> r->Ok_0@.len() == lists@.len() + 2,
            r is Ok ==> forall|i: int| 0 <= i < lists@.len() + 2 ==>
                buffer_bytes((#[trigger] r->Ok_0@[i]).contents)
                    == workspace_contents(old(self).output(), old(self).context(), *ws, lists@)->Some_0[i],
            r is Ok ==> forall|i: int| 0 <= i < lists@.len() + 2 ==>
                (#[trigger] r->Ok_0@[i]).path@ == workspace_paths(output_dir@, lists@)[i],
            r is Ok ==> final(self).output() == Seq::<u8>::empty(),
            list_contents(old(self).output(), workspace_ctx(old(self).context(), *ws), lists@) is None
                ==> final(self).context() == workspace_ctx(old(self).context(), *ws),
            list_contents(old(self).output(), workspace_ctx(old(self).context(), *ws), lists@) is Some
                && emit(Some(start_of(lists@.len() as int, old(self).output())), seq![(Template::LibMain, lib_ctx(workspace_ctx(old(self).context(), *ws), module_names(lists@)))]) is None
                ==> final(self).context() == lib_ctx(workspace_ctx(old(self).context(), *ws), module_names(lists@)),
            list_contents(old(self).output(), workspace_ctx(old(self).context(), *ws), lists@) is Some
                && emit(Some(start_of(lists@.len() as int, old(self).output())), seq![(Template::LibMain, lib_ctx(workspace_ctx(old(self).context(), *ws), module_names(lists@)))]) is Some
                ==> final(self).context() == manifest_ctx(workspace_ctx(old(self).context(), *ws), module_names(lists@), *ws),
    {
        let ghost buf0 = self.output();
        let ghost c0 = self.ctx@;
        let ghost ls = lists@;
        self.begin_workspace(ws);
        let ghost c = self.ctx@;
        assert(without_list_local(c) =~= c);
        let mut files: Vec<OutputFile> = Vec::new();
        let mut modules: Vec<String> = Vec::new();
        let mut i: usize = 0;
        assert(ls.subrange(0, 0) =~= Seq::<ListSchema>::empty());
        assert(texts_of(modules@) =~= module_names(ls.subrange(0, 0)));
        while i < lists.len()
            invariant
                self.wf(),
                i <= ls.len(),
                ls == lists@,
                c == workspace_ctx(c0, *ws),
                without_list_local(c) == c,
                self.ctx@ == c,
                self.output() == start_of(i as int, buf0),
                files@.len() == i,
                texts_of(modules@) == module_names(ls.subrange(0, i as int)),
                list_contents(buf0, c, ls.subrange(0, i as int)) is Some,
                list_contents(buf0, c, ls.subrange(0, i as int))->Some_0.len() == i,
                forall|j: int| 0 <= j < i ==> buffer_bytes((#[trigger] files@[j]).contents)
                    == list_contents(buf0, c, ls.subrange(0, i as int))->Some_0[j],
                forall|j: int| 0 <= j < i ==> (#[trigger] files@[j]).path@
                    == list_file_path(output_dir@, snake_case_of(ls[j].name@)),
                buf0 == old(self).output(),
                c0 == old(self).context(),
                forall|j: int| 0 <= j < ls.len() ==> names_valid(#[trigger] ls[j]),
            decreases ls.len() - i,
        {
            let ghost prev = list_contents(buf0, c, ls.subrange(0, i as int));
            proof {
                assert(ls.subrange(0, i + 1).drop_last() =~= ls.subrange(0, i as int));
                assert(ls.subrange(0, i + 1).last() == ls[i as int]);
            }
            let r = self.gen_list_file(&lists[i], output_dir, &mut modules);
            match r {
                Err(e) => {
                    proof {
                        lemma_list_contents_prefix_fails(buf0, c, ls, i + 1);
                    }
                    return Err(e);
                },
                Ok(f) => {
                    files.push(f);
                },
            }
            proof {
                assert(module_names(ls.subrange(0, i + 1)) =~= module_names(ls.subrange(0, i as int)).push(snake_case_of(ls[i as int].name@)));
            }
            i = i + 1;
        }
        proof {
            assert(ls.subrange(0, ls.len() as int) =~= ls);
        }
        let r = self.finish_workspace(ws, &modules, output_dir);
        match r {
            Err(e) => Err(e),
            Ok(mut last) => {
                files.append(&mut last);
                proof {
                    let w = workspace_contents(buf0, c0, *ws, ls);
                    assert(w is Some);
                    assert forall|k: int| 0 <= k < ls.len() + 2 implies (#[trigger] files@[k]).path@ == workspace_paths(output_dir@, ls)[k] by {
                        if k < ls.len() {
                        } else if k == ls.len() {
                        } else {
                        }
                    }
                }
                Ok(files)
            },
        }
    }

    /// Renders `t` against the current context and appends the text.
    fn render(&mut self, t: Template) -> (r: Result<(), Error>)
        requires
            old(self).wf(),
        ensures
            r is Err ==> r->Err_0 is Message,
            final(self).wf(),
            final(self).context() == old(self).context(),
            final(self).skipped() == old(self).skipped(),
            emitted(old(self).output(), final(self).output(), seq![(t, old(self).context())], r is Ok),
    {
        let ghost o0 = self.output();
        match render_template(&self.registry, t.name(), &self.ctx) {
            Ok(text) => {
                self.buf.extend_from_slice(text.as_str().as_bytes());
                proof {
                    lemma_emitted_single(o0, self.output(), (t, self.ctx@), true);
                }
                Ok(())
            },
            Err(e) => {
                proof {
                    lemma_emitted_single(o0, self.output(), (t, self.ctx@), false);
                }
                Err(Error::Message(render_error_text(&e)))
            },
        }
    }

    fn set_field_keys(&mut self, f: &Field)
        requires
            old(self).wf(),
        ensures
            final(self).wf(),
            final(self).context() == field_ctx(old(self).context(), *f),
            final(self).output() == old(self).output(),
            final(self).skipped() == old(self).skipped(),
    {
        self.ctx.set(Key::Field, ContextValue::Text(f.name.clone()));
        self.ctx.set(Key::FieldUuid, ContextValue::Text(f.uuid.clone()));
        self.ctx.set(Key::FieldId, ContextValue::Id(f.id));
        self.ctx.set(Key::FieldDesc, ContextValue::Text(f.description.clone()));
        self.ctx.set(Key::FieldSingleValue, ContextValue::Flag(!f.multiple));
        self.ctx.set(Key::FieldMultipleValue, ContextValue::Flag(f.multiple));
    }

    /// Removes every field-scoped key.
    fn clear_field_keys(&mut self)
        requires
            old(self).wf(),
        ensures
            final(self).wf(),
            final(self).context() == without_scope(old(self).context(), Scope::Field),
            final(self).output() == old(self).output(),
            final(self).skipped() == old(self).skipped(),
    {
        self.ctx.remove(Key::Field);
        self.ctx.remove(Key::FieldUuid);
        self.ctx.remove(Key::FieldId);
        self.ctx.remove(Key::FieldDesc);
        self.ctx.remove(Key::FieldSingleValue);
        self.ctx.remove(Key::FieldMultipleValue);
        self.ctx.remove(Key::Label);
        self.ctx.remove(Key::LabelId);
        self.ctx.remove(Key::LabelCount);
        self.ctx.remove(Key::Labels);
        self.ctx.remove(Key::RefList);
        assert(self.ctx@ =~= without_scope(old(self).ctx@, Scope::Field));
    }

    /// Renders `t` once per label, with the label's name and id in the context.
    fn gen_label_steps(&mut self, t: Template, v: &Vec<Label>) -> (r: Result<(), Error>)
        requires
            old(self).wf(),
            !old(self).context().contains_key(Key::Label),
            !old(self).context().contains_key(Key::LabelId),
        ensures
            r is Err ==> r->Err_0 is Message,
            final(self).wf(),
            final(self).skipped() == old(self).skipped(),
            emitted(old(self).output(), final(self).output(), label_steps(t, old(self).context(), v@), r is Ok),
            r is Ok ==> final(self).context() == old(self).context(),
    {
        let ghost c = self.ctx@;
        let ghost o0 = self.output();
        let ghost sk = self.skipped@;
        let mut i: usize = 0;
        proof {
            assert(label_steps(t, c, v@.subrange(0, 0)) =~= Seq::<Step>::empty());
            lemma_emitted_nothing(o0);
        }
        while i < v.len()
            invariant
                self.wf(),
                i <= v@.len(),
                self.skipped@ == sk,
                sk == old(self).skipped(),
                o0 == old(self).output(),
                c == old(self).context(),
                !c.contains_key(Key::Label),
                !c.contains_key(Key::LabelId),
                i == 0 ==> self.ctx@ == c,
                i > 0 ==> self.ctx@ == label_ctx(c, v@[i - 1]),
                emitted(o0, self.output(), label_steps(t, c, v@.subrange(0, i as int)), true),
            decreases v@.len() - i,
        {
            self.ctx.set(Key::Label, ContextValue::Text(v[i].name.clone()));
            self.ctx.set(Key::LabelId, ContextValue::Id(v[i].id));
            assert(self.ctx@ =~= label_ctx(c, v@[i as int]));
            let ghost o1 = self.output();
            let r = self.render(t);
            proof {
                let done = label_steps(t, c, v@.subrange(0, i as int));
                let this = seq![(t, label_ctx(c, v@[i as int]))];
                assert(label_steps(t, c, v@.subrange(0, i + 1)) =~= done + this);
                lemma_emitted_then(o0, o1, self.output(), done, this, true, r is Ok);
                if r is Err {
                    let rest = label_steps(t, c, v@.subrange(i + 1, v@.len() as int));
                    assert(label_steps(t, c, v@) =~= (done + this) + rest);
                    lemma_emitted_then(o0, self.output(), self.output(), done + this, rest, false, false);
                }
            }
            if r.is_err() {
                return r;
            }
            i = i + 1;
        }
        self.ctx.remove(Key::Label);
        self.ctx.remove(Key::LabelId);
        assert(self.ctx@ =~= c);
        assert(v@.subrange(0, v@.len() as int) =~= v@);
        Ok(())
    }

    /// Label accessors, label table and field accessors of a categories field.
    fn gen_get_category(&mut self, labels: &Option<Vec<Label>>) -> (r: Result<(), Error>)
        requires
            old(self).wf(),
            !old(self).context().contains_key(Key::Label),
            !old(self).context().contains_key(Key::LabelId),
            !old(self).context().contains_key(Key::LabelCount),
            !old(self).context().contains_key(Key::Labels),
        ensures
            r is Err ==> r->Err_0 is Message,
            final(self).wf(),
            final(self).skipped() == old(self).skipped(),
            emitted(old(self).output(), final(self).output(), category_getter_steps(old(self).context(), *labels), r is Ok),
            r is Ok ==> final(self).context() == old(self).context(),
    {
        let ghost c = self.ctx@;
        let ghost o0 = self.output();
        match labels {
            Some(v) => {
                let r = self.gen_label_steps(Template::CategoryGetterPerLabel, v);
                let ghost o1 = self.output();
                let ghost per_label = label_steps(Template::CategoryGetterPerLabel, c, v@);
                let ghost lookup = seq![(Template::CategoryLabelLookup, lookup_ctx(c, v@))];
                let ghost per_field = seq![(Template::CategoryGettersPerField, c)];
                assert(category_getter_steps(c, *labels) =~= per_label + lookup + per_field);
                if r.is_err() {
                    proof {
                        lemma_emitted_then(o0, o1, o1, per_label, lookup + per_field, false, false);
                        assert(per_label + (lookup + per_field) =~= per_label + lookup + per_field);
                    }
                    return r;
                }
                let sorted = sort_labels(v);
                let names = label_name_list(&sorted);
                self.ctx.set(Key::LabelCount, ContextValue::Id(v.len() as u64));
                self.ctx.set(Key::Labels, ContextValue::Names(names));
                assert(self.ctx@ =~= lookup_ctx(c, v@));
                let r = self.render(Template::CategoryLabelLookup);
                let ghost o2 = self.output();
                self.ctx.remove(Key::LabelCount);
                self.ctx.remove(Key::Labels);
                assert(self.ctx@ =~= c);
                proof {
                    lemma_emitted_then(o0, o1, o2, per_label, lookup, true, r is Ok);
                }
                if r.is_err() {
                    proof {
                        lemma_emitted_then(o0, o2, o2, per_label + lookup, per_field, false, false);
                    }
                    return r;
                }
                let r = self.render(Template::CategoryGettersPerField);
                proof {
                    lemma_emitted_then(o0, o2, self.output(), per_label + lookup, per_field, true, r is Ok);
                }
                r
            },
            None => self.render(Template::CategoryGettersPerField),
        }
    }

    /// Label setters and field setters of a categories field, in a builder.
    fn gen_set_labels(&mut self, labels: &Option<Vec<Label>>) -> (r: Result<(), Error>)
        requires
            old(self).wf(),
            !old(self).context().contains_key(Key::Label),
            !old(self).context().contains_key(Key::LabelId),
        ensures
            r is Err ==> r->Err_0 is Message,
            final(self).wf(),
            final(self).skipped() == old(self).skipped(),
            emitted(
                old(self).output(),
                final(self).output(),
                setter_fragments(old(self).context(), FieldKind::Categories(*labels)),
                r is Ok,
            ),
            r is Ok ==> final(self).context() == old(self).context(),
    {
        let ghost c = self.ctx@;
        let ghost o0 = self.output();
        match labels {
            Some(v) => {
                let r = self.gen_label_steps(Template::CategorySetterPerLabel, v);
                let ghost o1 = self.output();
                let ghost per_label = label_steps(Template::CategorySetterPerLabel, c, v@);
                let ghost per_field = seq![(Template::CategorySetterPerField, c)];
                if r.is_err() {
                    proof {
                        lemma_emitted_then(o0, o1, o1, per_label, per_field, false, false);
                    }
                    return r;
                }
                let r = self.render(Template::CategorySetterPerField);
                proof {
                    lemma_emitted_then(o0, o1, self.output(), per_label, per_field, true, r is Ok);
                }
                r
            },
            None => self.render(Template::CategorySetterPerField),
        }
    }

    /// A field's constants and accessors.
    fn gen_field_getters(&mut self, f: &Field) -> (r: Result<(), Error>)
        requires
            old(self).wf(),
            scope_absent(old(self).context(), Scope::Field),
        ensures
            r is Err ==> r->Err_0 is Message,
            final(self).wf(),
            final(self).skipped() == old(self).skipped(),
            emitted(old(self).output(), final(self).output(), getter_steps(old(self).context(), *f), r is Ok),
            r is Ok ==> final(self).context() == old(self).context(),
    {
        let ghost b = self.ctx@;
        let ghost o0 = self.output();
        let ghost fc = field_ctx(b, *f);
        assert(Key::Label.scope() == Scope::Field && Key::LabelId.scope() == Scope::Field);
        assert(Key::LabelCount.scope() == Scope::Field && Key::Labels.scope() == Scope::Field);
        assert(Key::RefList.scope() == Scope::Field);
        self.set_field_keys(f);
        let r = self.render(Template::FieldConst);
        let ghost o1 = self.output();
        let ghost first = seq![(Template::FieldConst, fc)];
        let ghost rest = getter_fragments(fc, f.kind);
        if r.is_err() {
            proof {
                lemma_emitted_then(o0, o1, o1, first, rest, false, false);
            }
            return r;
        }
        let r = match &f.kind {
            FieldKind::Text => self.render(Template::GetTextField),
            FieldKind::Url => self.render(Template::GetUrlField),
            FieldKind::Date => self.render(Template::GetDateField),
            FieldKind::Persons => self.render(Template::GetPersonField),
            FieldKind::Number(Some(NumericType::Integer)) => self.render(Template::GetIntField),
            FieldKind::Number(_) => self.render(Template::GetFloatField),
            FieldKind::Checkbox => self.render(Template::GetCheckboxField),
            FieldKind::Categories(labels) => self.gen_get_category(labels),
            FieldKind::Files => self.render(Template::GetFilesField),
            FieldKind::References(target) => {
                let name = match target {
                    Some(n) => n.clone(),
                    None => String::new(),
                };
                self.ctx.set(Key::RefList, ContextValue::Text(name));
                let r = self.render(Template::GetReferences);
                self.ctx.remove(Key::RefList);
                assert(self.ctx@ =~= fc);
                r
            },
            FieldKind::SubEntries => self.render(Template::GetSubitemsField),
            FieldKind::Formula => self.render(Template::GetFormulaField),
            _ => {
                proof {
                    lemma_emitted_nothing(o1);
                }
                Ok(())
            },
        };
        proof {
            lemma_emitted_then(o0, o1, self.output(), first, rest, true, r is Ok);
        }
        if r.is_err() {
            return r;
        }
        self.clear_field_keys();
        assert(self.ctx@ =~= b);
        Ok(())
    }


    /// The field pass of a list: setters (`setters`) or constants and
    /// accessors of every live field. The accessor pass records the fields
    /// whose category is not supported.
    fn gen_fields(&mut self, l: &ListSchema, setters: bool) -> (r: Result<(), Error>)
        requires
            old(self).wf(),
            scope_absent(old(self).context(), Scope::Field),
        ensures
            r is Err ==> r->Err_0 is Message,
            final(self).wf(),
            emitted(old(self).output(), final(self).output(), field_pass(old(self).context(), l.fields@, setters), r is Ok),
            r is Ok ==> final(self).context() == old(self).context(),
            setters ==> final(self).skipped() == old(self).skipped(),
            r is Ok ==> final(self).skipped() == old(self).skipped() + if setters {
                seq![]
            } else {
                skipped_in(*l, l.fields@)
            },
    {
        let ghost b = self.ctx@;
        let ghost o0 = self.output();
        let ghost sk0 = self.skipped@;
        let mut i: usize = 0;
        proof {
            assert(l.fields@.subrange(0, 0) =~= Seq::<Field>::empty());
            lemma_emitted_nothing(o0);
            assert(sk0 + Seq::<SkippedField>::empty() =~= sk0);
        }
        while i < l.fields.len()
            invariant
                self.wf(),
                i <= l.fields@.len(),
                b == old(self).context(),
                o0 == old(self).output(),
                sk0 == old(self).skipped(),
                self.ctx@ == b,
                scope_absent(b, Scope::Field),
                setters ==> self.skipped@ == sk0,
                emitted(o0, self.output(), field_pass(b, l.fields@.subrange(0, i as int), setters), true),
                self.skipped@ == sk0 + if setters {
                    seq![]
                } else {
                    skipped_in(*l, l.fields@.subrange(0, i as int))
                },
            decreases l.fields@.len() - i,
        {
            let f = &l.fields[i];
            let ghost o1 = self.output();
            let ghost done = field_pass(b, l.fields@.subrange(0, i as int), setters);
            proof {
                lemma_field_pass_step(b, l.fields@, setters, i as int);
                assert(skipped_in(*l, l.fields@.subrange(0, i + 1)) == skipped_in(*l, l.fields@.subrange(0, i as int)) + skipped_of(*l, *f));
            }
            if f.deprecated_at.is_none() {
                let r = if setters {
                    self.gen_field_setters(f)
                } else {
                    self.gen_field_getters(f)
                };
                proof {
                    lemma_emitted_then(o0, o1, self.output(), done, field_steps(b, *f, setters), true, r is Ok);
                }
                if r.is_err() {
                    proof {
                        lemma_pass_prefix_fails(o0, self.output(), b, l.fields@, setters, i + 1);
                    }
                    return r;
                }
                if !setters {
                    match &f.kind {
                        FieldKind::Hierarchy => {
                            self.skipped.push(SkippedField { list: l.name.clone(), field: f.name.clone(), category: UnsupportedCategory::Hierarchy });
                        },
                        FieldKind::Dependencies => {
                            self.skipped.push(SkippedField { list: l.name.clone(), field: f.name.clone(), category: UnsupportedCategory::Dependencies });
                        },
                        _ => {},
                    }
                }
            } else {
                proof {
                    lemma_emitted_nothing(o1);
                    lemma_emitted_then(o0, o1, o1, done, seq![], true, true);
                }
            }
            proof {
                if setters {
                    assert(sk0 + Seq::<SkippedField>::empty() =~= sk0);
                } else {
                    assert(self.skipped@ =~= sk0 + skipped_in(*l, l.fields@.subrange(0, i + 1)));
                }
            }
            i = i + 1;
        }
        assert(l.fields@.subrange(0, l.fields@.len() as int) =~= l.fields@);
        Ok(())
    }


    /// Removes every list, field and builder key.
    fn clear_list_local(&mut self)
        requires
            old(self).wf(),
        ensures
            final(self).wf(),
            final(self).context() == without_list_local(old(self).context()),
            final(self).output() == old(self).output(),
            final(self).skipped() == old(self).skipped(),
    {
        self.clear_field_keys();
        self.ctx.remove(Key::List);
        self.ctx.remove(Key::ListId);
        self.ctx.remove(Key::ListUuid);
        self.ctx.remove(Key::ListDesc);
        self.ctx.remove(Key::ListStruct);
        self.ctx.remove(Key::ListShortId);
        self.ctx.remove(Key::Item);
        self.ctx.remove(Key::ItemPlural);
        self.ctx.remove(Key::Builder);
        self.ctx.remove(Key::IsNewBuilder);
        self.ctx.remove(Key::IsUpdateBuilder);
        assert(self.ctx@ =~= without_list_local(old(self).ctx@));
    }

    /// The list-item impl: constants and accessors of every live field, then
    /// the common accessors.
    fn gen_item_impl(&mut self, l: &ListSchema) -> (r: Result<(), Error>)
        requires
            old(self).wf(),
            scope_absent(old(self).context(), Scope::Field),
        ensures
            r is Err ==> r->Err_0 is Message,
            final(self).wf(),
            emitted(
                old(self).output(),
                final(self).output(),
                field_pass(old(self).context(), l.fields@, false) + seq![(Template::EndListImpl, old(self).context())],
                r is Ok,
            ),
            r is Ok ==> final(self).context() == old(self).context(),
            r is Ok ==> final(self).skipped() == old(self).skipped() + skipped_in(*l, l.fields@),
    {
        let ghost b = self.ctx@;
        let ghost o0 = self.output();
        let ghost pass = field_pass(b, l.fields@, false);
        let ghost tail = seq![(Template::EndListImpl, b)];
        let r = self.gen_fields(l, false);
        let ghost o1 = self.output();
        if r.is_err() {
            proof {
                lemma_emitted_then(o0, o1, o1, pass, tail, false, false);
            }
            return r;
        }
        let r = self.render(Template::EndListImpl);
        proof {
            lemma_emitted_then(o0, o1, self.output(), pass, tail, true, r is Ok);
        }
        r
    }

    /// A create (`!update`) or update builder for items named `item`.
    fn gen_builder(&mut self, l: &ListSchema, update: bool, item: &String) -> (r: Result<(), Error>)
        requires
            old(self).wf(),
            scope_absent(old(self).context(), Scope::Field),
            scope_absent(old(self).context(), Scope::Builder),
        ensures
            r is Err ==> r->Err_0 is Message,
            final(self).wf(),
            final(self).skipped() == old(self).skipped(),
            emitted(old(self).output(), final(self).output(), builder_steps(old(self).context(), l.fields@, update, item@), r is Ok),
            r is Ok ==> final(self).context() == old(self).context(),
    {
        let ghost b = self.ctx@;
        let ghost o0 = self.output();
        let ghost bc = builder_ctx(b, update, item@);
        let ghost head = seq![(Template::StartItemBuilder, bc)];
        let ghost pass = field_pass(bc, l.fields@, true);
        let ghost exec = seq![(Template::BuilderExecute, bc)];
        let ghost end = seq![(Template::EndItemBuilder, bc)];
        assert(builder_steps(b, l.fields@, update, item@) =~= head + pass + exec + end);
        let name = concat3(if update { "Update" } else { "New" }, item.as_str(), "Builder");
        self.ctx.set(Key::IsNewBuilder, ContextValue::Flag(!update));
        self.ctx.set(Key::IsUpdateBuilder, ContextValue::Flag(update));
        self.ctx.set(Key::Builder, ContextValue::Text(name));
        proof {
            reveal_strlit("Update");
            reveal_strlit("New");
        }
        assert(self.ctx@ =~= bc);
        assert forall|k: Key| #[trigger] k.scope() == Scope::Field implies !bc.contains_key(k) by {}
        let r = self.render(Template::StartItemBuilder);
        let ghost o1 = self.output();
        if r.is_err() {
            proof {
                lemma_emitted_then(o0, o1, o1, head, pass + exec + end, false, false);
                assert(head + (pass + exec + end) =~= head + pass + exec + end);
            }
            return r;
        }
        let r = self.gen_fields(l, true);
        let ghost o2 = self.output();
        proof {
            lemma_emitted_then(o0, o1, o2, head, pass, true, r is Ok);
        }
        if r.is_err() {
            proof {
                lemma_emitted_then(o0, o2, o2, head + pass, exec + end, false, false);
                assert(head + pass + (exec + end) =~= head + pass + exec + end);
            }
            return r;
        }
        let r = self.render(Template::BuilderExecute);
        let ghost o3 = self.output();
        proof {
            lemma_emitted_then(o0, o2, o3, head + pass, exec, true, r is Ok);
        }
        if r.is_err() {
            proof {
                lemma_emitted_then(o0, o3, o3, head + pass + exec, end, false, false);
            }
            return r;
        }
        let r = self.render(Template::EndItemBuilder);
        proof {
            lemma_emitted_then(o0, o3, self.output(), head + pass + exec, end, true, r is Ok);
        }
        if r.is_err() {
            return r;
        }
        self.ctx.remove(Key::IsNewBuilder);
        self.ctx.remove(Key::IsUpdateBuilder);
        self.ctx.remove(Key::Builder);
        assert(Key::IsNewBuilder.scope() == Scope::Builder && Key::IsUpdateBuilder.scope() == Scope::Builder);
        assert(Key::Builder.scope() == Scope::Builder);
        assert(self.ctx@ =~= b);
        Ok(())
    }

    /// Generates everything specific to a list into the output buffer: the
    /// list accessor type and item type with a constant and accessors per
    /// live field, then the create builder and the update builder.
    ///
    /// Afterwards, whether it succeeded or not, the context has lost every
    /// list, field and builder key and keeps the caller's other keys; on
    /// success the unsupported fields of the list are added to `skipped`.
    pub fn gen_list(&mut self, l: &ListSchema) -> (r: Result<(), Error>)
        requires
            old(self).wf(),
            names_valid(*l),
        ensures
            r is Err ==> r->Err_0 is Message,
            final(self).wf(),
            emitted(old(self).output(), final(self).output(), list_steps(old(self).context(), *l), r is Ok),
            final(self).context() == without_list_local(old(self).context()),
            r is Ok ==> final(self).skipped() == old(self).skipped() + skipped_in(*l, l.fields@),
    {
        let ghost c0 = self.ctx@;
        let saved = self.ctx.duplicate();
        let r = self.gen_list_scoped(l);
        if r.is_err() {
            self.ctx = saved;
        }
        self.clear_list_local();
        assert(self.ctx@ =~= without_list_local(c0));
        r
    }

    /// Renders a list; on success the list-local keys are cleared.
    fn gen_list_scoped(&mut self, l: &ListSchema) -> (r: Result<(), Error>)
        requires
            old(self).wf(),
            names_valid(*l),
        ensures
            r is Err ==> r->Err_0 is Message,
            final(self).wf(),
            emitted(old(self).output(), final(self).output(), list_steps(old(self).context(), *l), r is Ok),
            r is Ok ==> final(self).context() == without_list_local(old(self).context()),
            r is Ok ==> final(self).skipped() == old(self).skipped() + skipped_in(*l, l.fields@),
    {
        let ghost c0 = self.ctx@;
        let ghost o0 = self.output();
        self.clear_list_local();
        let item = item_name(l);
        let plural = item_plural(l, &item);
        self.ctx.set(Key::List, ContextValue::Text(l.name.clone()));
        self.ctx.set(Key::ListId, ContextValue::Id(l.id));
        self.ctx.set(Key::ListUuid, ContextValue::Text(l.uuid.clone()));
        self.ctx.set(Key::ListDesc, ContextValue::Text(l.description.clone()));
        self.ctx.set(Key::ListShortId, ContextValue::Text(l.short_id.clone()));
        self.ctx.set(Key::ListStruct, ContextValue::Text(SymbolKind::ListClass.symbol(l.name.as_str())));
        self.ctx.set(Key::Item, ContextValue::Text(item.clone()));
        self.ctx.set(Key::ItemPlural, ContextValue::Text(plural));
        let ghost b = list_ctx(c0, *l);
        assert(self.ctx@ =~= b);
        assert forall|k: Key| #[trigger] k.scope() == Scope::Field implies !b.contains_key(k) by {}
        assert forall|k: Key| #[trigger] k.scope() == Scope::Builder implies !b.contains_key(k) by {}
        let ghost head = seq![(Template::StartListImpl, b)];
        let ghost items = field_pass(b, l.fields@, false) + seq![(Template::EndListImpl, b)];
        let ghost create = builder_steps(b, l.fields@, false, item@);
        let ghost update = builder_steps(b, l.fields@, true, item@);
        assert(list_steps(c0, *l) =~= head + items + create + update);
        let r = self.render(Template::StartListImpl);
        let ghost o1 = self.output();
        if r.is_err() {
            proof {
                lemma_emitted_then(o0, o1, o1, head, items + create + update, false, false);
                assert(head + (items + create + update) =~= head + items + create + update);
            }
            return r;
        }
        let r = self.gen_item_impl(l);
        let ghost o2 = self.output();
        proof {
            lemma_emitted_then(o0, o1, o2, head, items, true, r is Ok);
        }
        if r.is_err() {
            proof {
                lemma_emitted_then(o0, o2, o2, head + items, create + update, false, false);
                assert(head + items + (create + update) =~= head + items + create + update);
            }
            return r;
        }
        let r = self.gen_builder(l, false, &item);
        let ghost o3 = self.output();
        proof {
            lemma_emitted_then(o0, o2, o3, head + items, create, true, r is Ok);
        }
        if r.is_err() {
            proof {
                lemma_emitted_then(o0, o3, o3, head + items + create, update, false, false);
            }
            return r;
        }
        let r = self.gen_builder(l, true, &item);
        proof {
            lemma_emitted_then(o0, o3, self.output(), head + items + create, update, true, r is Ok);
        }
        if r.is_err() {
            return r;
        }
        self.clear_list_local();
        assert(self.ctx@ =~= without_list_local(c0));
        Ok(())
    }

    /// A field's setters, inside a builder.
    fn gen_field_setters(&mut self, f: &Field) -> (r: Result<(), Error>)
        requires
            old(self).wf(),
            scope_absent(old(self).context(), Scope::Field),
        ensures
            r is Err ==> r->Err_0 is Message,
            final(self).wf(),
            final(self).skipped() == old(self).skipped(),
            emitted(old(self).output(), final(self).output(), setter_steps(old(self).context(), *f), r is Ok),
            r is Ok ==> final(self).context() == old(self).context(),
    {
        let ghost b = self.ctx@;
        let ghost o0 = self.output();
        let ghost fc = field_ctx(b, *f);
        assert(Key::Label.scope() == Scope::Field && Key::LabelId.scope() == Scope::Field);
        assert(Key::RefList.scope() == Scope::Field);
        self.set_field_keys(f);
        let r = match &f.kind {
            FieldKind::Text => self.render(Template::SetTextField),
            FieldKind::Url => self.render(Template::SetUrlField),
            FieldKind::Date => self.render(Template::SetDateField),
            FieldKind::Persons => self.render(Template::SetPersonField),
            FieldKind::Number(Some(NumericType::Integer)) => self.render(Template::SetIntField),
            FieldKind::Number(_) => self.render(Template::SetFloatField),
            FieldKind::Checkbox => self.render(Template::SetCheckboxField),
            FieldKind::Categories(labels) => self.gen_set_labels(labels),
            FieldKind::References(target) => {
                let name = match target {
                    Some(n) => n.clone(),
                    None => String::new(),
                };
                self.ctx.set(Key::RefList, ContextValue::Text(name));
                let r = self.render(Template::SetReferences);
                self.ctx.remove(Key::RefList);
                assert(self.ctx@ =~= fc);
                r
            },
            FieldKind::SubEntries => self.render(Template::SetSubitems),
            _ => {
                proof {
                    lemma_emitted_nothing(o0);
                }
                Ok(())
            },
        };
        if r.is_err() {
            return r;
        }
        self.clear_field_keys();
        assert(self.ctx@ =~= b);
        Ok(())
    }
}

} // verus!
