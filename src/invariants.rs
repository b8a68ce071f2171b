//! Facts about what the generator renders, proved from the step plans that
//! its functions follow.
use crate::generator::{
    builder_steps, field_ctx, getter_steps, setter_steps, field_pass, field_steps, list_steps, skipped_in, without_list_local, workspace_contents,
    workspace_paths, Generator, Step,
};
use crate::render::{ContextMap, Datum, Key, Scope};
use crate::schema::{Field, FieldKind, ListSchema, NumericType};
use crate::templates::Template;
use vstd::prelude::*;

verus! {

/// The templates of a sequence of steps, in order.
pub open spec fn templates_of(steps: Seq<Step>) -> Seq<Template> {
    steps.map_values(|s: Step| s.0)
}

/// Two field categories that select the same fragments: the same category,
/// the same numeric subtype choice for numbers, and as many labels for
/// categories fields.
pub open spec fn same_category(a: FieldKind, b: FieldKind) -> bool {
    match a {
        FieldKind::Number(x) => b is Number && (x == Some(NumericType::Integer)) == (b->Number_0 == Some(
            NumericType::Integer,
        )),
        FieldKind::Categories(Some(x)) => b is Categories && b->Categories_0 is Some
            && x@.len() == b->Categories_0->Some_0@.len(),
        FieldKind::References(_) => b is References,
        _ => a == b,
    }
}

/// The fragments of a field are chosen by its category alone: two fields of
/// the same category give the same templates in the same order, whatever
/// their names, ids, cardinality or the surrounding context; and each of a
/// field's fragments is rendered with the field's cardinality, as the flags
/// `field_single_value` and `field_multiple_value`.
pub proof fn lemma_fragments_by_category(c1: ContextMap, c2: ContextMap, f1: Field, f2: Field, setters: bool)
    requires
        same_category(f1.kind, f2.kind),
    ensures
        templates_of(field_steps(c1, f1, setters)) == templates_of(field_steps(c2, f2, setters)),
        forall|i: int| 0 <= i < field_steps(c1, f1, setters).len() ==> {
            let ctx = (#[trigger] field_steps(c1, f1, setters)[i]).1;
            &&& ctx.contains_key(Key::FieldSingleValue)
            &&& ctx[Key::FieldSingleValue] == Datum::Flag(!f1.multiple)
            &&& ctx.contains_key(Key::FieldMultipleValue)
            &&& ctx[Key::FieldMultipleValue] == Datum::Flag(f1.multiple)
        },
{
    let s1 = field_steps(c1, f1, setters);
    let s2 = field_steps(c2, f2, setters);
    assert(templates_of(s1) =~= templates_of(s2));
}

/// The six metadata categories (created, updated, deprecated: by whom and when).
pub open spec fn is_metadata(k: FieldKind) -> bool {
    k is DateCreated || k is DateUpdated || k is DateDeprecated || k is UserCreatedBy || k is UserUpdatedBy
        || k is UserDeprecatedBy
}

/// Read-only and unsupported categories get no setter in either builder;
/// metadata and unsupported categories get no accessor, only the field's
/// constants.
pub proof fn lemma_fragment_free_categories(c: ContextMap, f: Field)
    ensures
        f.kind is Files || f.kind is Formula || f.kind is Hierarchy || f.kind is Dependencies || is_metadata(f.kind)
            ==> setter_steps(c, f) == Seq::<Step>::empty(),
        f.kind is Hierarchy || f.kind is Dependencies || is_metadata(f.kind)
            ==> getter_steps(c, f) == seq![(Template::FieldConst, field_ctx(c, f))],
{
    assert(seq![(Template::FieldConst, field_ctx(c, f))] + Seq::<Step>::empty() =~= seq![(Template::FieldConst, field_ctx(c, f))]);
}

proof fn lemma_templates_concat(a: Seq<Step>, b: Seq<Step>)
    ensures
        templates_of(a + b) == templates_of(a) + templates_of(b),
{
    assert(templates_of(a + b) =~= templates_of(a) + templates_of(b));
}

proof fn lemma_field_pass_templates(c1: ContextMap, c2: ContextMap, fs: Seq<Field>, setters: bool)
    ensures
        templates_of(field_pass(c1, fs, setters)) == templates_of(field_pass(c2, fs, setters)),
    decreases fs.len(),
{
    if fs.len() > 0 {
        lemma_field_pass_templates(c1, c2, fs.drop_last(), setters);
        let f = fs.last();
        let x1 = if f.is_live() { field_steps(c1, f, setters) } else { seq![] };
        let x2 = if f.is_live() { field_steps(c2, f, setters) } else { seq![] };
        if f.is_live() {
            lemma_fragments_by_category(c1, c2, f, f, setters);
        }
        lemma_templates_concat(field_pass(c1, fs.drop_last(), setters), x1);
        lemma_templates_concat(field_pass(c2, fs.drop_last(), setters), x2);
    }
}

/// The create builder and the update builder render the same templates in
/// the same order; they differ only in the builder flags and name in the
/// context, which the setter fragments read to add the update-only verbs.
pub proof fn lemma_builders_share_fragments(c: ContextMap, fs: Seq<Field>, item: Seq<char>)
    ensures
        templates_of(builder_steps(c, fs, false, item)) == templates_of(builder_steps(c, fs, true, item)),
{
    let bn = crate::generator::builder_ctx(c, false, item);
    let bu = crate::generator::builder_ctx(c, true, item);
    lemma_field_pass_templates(bn, bu, fs, true);
    let hn = seq![(Template::StartItemBuilder, bn)];
    let hu = seq![(Template::StartItemBuilder, bu)];
    let tn = seq![(Template::BuilderExecute, bn), (Template::EndItemBuilder, bn)];
    let tu = seq![(Template::BuilderExecute, bu), (Template::EndItemBuilder, bu)];
    lemma_templates_concat(hn, field_pass(bn, fs, true));
    lemma_templates_concat(hu, field_pass(bu, fs, true));
    lemma_templates_concat(hn + field_pass(bn, fs, true), tn);
    lemma_templates_concat(hu + field_pass(bu, fs, true), tu);
    assert(templates_of(hn) =~= templates_of(hu));
    assert(templates_of(tn) =~= templates_of(tu));
}

/// After a list is emitted the context holds no list, field or builder key,
/// and every key that the caller owns is as the caller left it.
pub proof fn lemma_list_scope_hygiene(c: ContextMap)
    ensures
        forall|k: Key| #[trigger] k.scope() == Scope::Field ==> !without_list_local(c).contains_key(k),
        forall|k: Key| #[trigger] k.scope() == Scope::Builder ==> !without_list_local(c).contains_key(k),
        forall|k: Key| #[trigger] k.scope() == Scope::List ==> !without_list_local(c).contains_key(k),
        forall|k: Key| !k.is_list_local() && #[trigger] c.contains_key(k)
            ==> without_list_local(c).contains_key(k) && without_list_local(c)[k] == c[k],
{
}

/// The live fields of a sequence, in order.
pub open spec fn live_fields(fs: Seq<Field>) -> Seq<Field>
    decreases fs.len(),
{
    if fs.len() == 0 {
        seq![]
    } else if fs.last().is_live() {
        live_fields(fs.drop_last()).push(fs.last())
    } else {
        live_fields(fs.drop_last())
    }
}

proof fn lemma_field_pass_live(c: ContextMap, fs: Seq<Field>, setters: bool)
    ensures
        field_pass(c, fs, setters) == field_pass(c, live_fields(fs), setters),
        forall|l: ListSchema| skipped_in(l, fs) == #[trigger] skipped_in(l, live_fields(fs)),
    decreases fs.len(),
{
    if fs.len() > 0 {
        lemma_field_pass_live(c, fs.drop_last(), setters);
        let lv = live_fields(fs);
        if fs.last().is_live() {
            assert(lv.drop_last() =~= live_fields(fs.drop_last()));
            assert(lv.last() == fs.last());
        }
        assert forall|l: ListSchema| skipped_in(l, fs) == #[trigger] skipped_in(l, live_fields(fs)) by {
            if fs.last().is_live() {
                assert(lv.drop_last() =~= live_fields(fs.drop_last()));
                assert(skipped_in(l, lv) == skipped_in(l, lv.drop_last()) + crate::generator::skipped_of(l, lv.last()));
            } else {
                assert(crate::generator::skipped_of(l, fs.last()) =~= Seq::empty());
            }
        }
    }
}

proof fn lemma_skipped_in_name(l1: ListSchema, l2: ListSchema, fs: Seq<Field>)
    requires
        l1.name == l2.name,
    ensures
        skipped_in(l1, fs) == skipped_in(l2, fs),
    decreases fs.len(),
{
    if fs.len() > 0 {
        lemma_skipped_in_name(l1, l2, fs.drop_last());
    }
}

/// Deprecated fields produce nothing: two lists that agree on everything
/// but their deprecated fields render the same steps, hence the same
/// output, and report the same skipped fields.
pub proof fn lemma_deprecated_fields_excluded(c: ContextMap, l1: ListSchema, l2: ListSchema)
    requires
        l1.id == l2.id,
        l1.short_id == l2.short_id,
        l1.uuid == l2.uuid,
        l1.name == l2.name,
        l1.description == l2.description,
        l1.item_name == l2.item_name,
        l1.item_name_plural == l2.item_name_plural,
        live_fields(l1.fields@) == live_fields(l2.fields@),
    ensures
        list_steps(c, l1) == list_steps(c, l2),
        skipped_in(l1, l1.fields@) == skipped_in(l2, l2.fields@),
{
    let b = crate::generator::list_ctx(c, l1);
    assert(b == crate::generator::list_ctx(c, l2));
    lemma_field_pass_live(b, l1.fields@, false);
    lemma_field_pass_live(b, l2.fields@, false);
    let bn = crate::generator::builder_ctx(b, false, crate::naming::item_name_of(l1));
    let bu = crate::generator::builder_ctx(b, true, crate::naming::item_name_of(l1));
    lemma_field_pass_live(bn, l1.fields@, true);
    lemma_field_pass_live(bn, l2.fields@, true);
    lemma_field_pass_live(bu, l1.fields@, true);
    lemma_field_pass_live(bu, l2.fields@, true);
    assert(skipped_in(l1, l1.fields@) == skipped_in(l1, live_fields(l1.fields@)));
    assert(skipped_in(l2, l2.fields@) == skipped_in(l2, live_fields(l2.fields@)));
    lemma_skipped_in_name(l1, l2, live_fields(l1.fields@));
}

/// Generating the same workspace twice, from generators in the same state
/// (two fresh ones, for instance), gives byte-identical files: the contents
/// do not depend on the output directory, and the i-th file of each run has
/// the same path below its directory.
pub proof fn lemma_generation_repeatable(
    g1: Generator,
    g2: Generator,
    ws: crate::schema::WorkspaceInfo,
    lists: Seq<ListSchema>,
    dir1: Seq<char>,
    dir2: Seq<char>,
)
    requires
        g1.output() == g2.output(),
        g1.context() == g2.context(),
    ensures
        workspace_contents(g1.output(), g1.context(), ws, lists) == workspace_contents(
            g2.output(),
            g2.context(),
            ws,
            lists,
        ),
        workspace_paths(dir1, lists).len() == workspace_paths(dir2, lists).len() == lists.len() + 2,
        forall|i: int| 0 <= i < lists.len() + 2 ==> {
            let path_a = #[trigger] workspace_paths(dir1, lists)[i];
            let path_b = workspace_paths(dir2, lists)[i];
            &&& path_a.subrange(0, dir1.len() as int) == dir1
            &&& path_b.subrange(0, dir2.len() as int) == dir2
            &&& path_a.subrange(dir1.len() as int, path_a.len() as int) == path_b.subrange(dir2.len() as int, path_b.len() as int)
        },
{
    assert forall|i: int| 0 <= i < lists.len() + 2 implies {
        let path_a = #[trigger] workspace_paths(dir1, lists)[i];
        let path_b = workspace_paths(dir2, lists)[i];
        &&& path_a.subrange(0, dir1.len() as int) == dir1
        &&& path_b.subrange(0, dir2.len() as int) == dir2
        &&& path_a.subrange(dir1.len() as int, path_a.len() as int) == path_b.subrange(dir2.len() as int, path_b.len() as int)
    } by {
        let path_a = workspace_paths(dir1, lists)[i];
        let path_b = workspace_paths(dir2, lists)[i];
        assert(path_a.subrange(0, dir1.len() as int) =~= dir1);
        assert(path_b.subrange(0, dir2.len() as int) =~= dir2);
        assert(path_a.subrange(dir1.len() as int, path_a.len() as int) =~= path_b.subrange(dir2.len() as int, path_b.len() as int));
    }
}

} // verus!
