//! The label table of a categories field: labels sorted by name, and the
//! name-to-id lookup that generated code performs over it.
use crate::schema::Label;
use vstd::prelude::*;
use vstd::utf8::*;

verus! {

/// Lexicographic order on byte strings (the order of `[u8]` and of `str`).
pub open spec fn bytes_le(a: Seq<u8>, b: Seq<u8>) -> bool
    decreases a.len(),
{
    if a.len() == 0 {
        true
    } else if b.len() == 0 {
        false
    } else if a[0] != b[0] {
        a[0] < b[0]
    } else {
        bytes_le(a.drop_first(), b.drop_first())
    }
}

/// The order of Rust strings: by their UTF-8 bytes.
pub open spec fn text_le(a: Seq<char>, b: Seq<char>) -> bool {
    bytes_le(encode_utf8(a), encode_utf8(b))
}

pub open spec fn labels_sorted(s: Seq<Label>) -> bool {
    forall|i: int, j: int| 0 <= i < j < s.len() ==> text_le(#[trigger] s[i].name@, #[trigger] s[j].name@)
}

pub open spec fn names_distinct(s: Seq<Label>) -> bool {
    forall|i: int, j: int| 0 <= i < j < s.len() ==> #[trigger] s[i].name@ != #[trigger] s[j].name@
}

/// `s` with `l` inserted after every label whose name is not greater.
pub open spec fn insert_sorted(s: Seq<Label>, l: Label) -> Seq<Label>
    decreases s.len(),
{
    if s.len() == 0 {
        seq![l]
    } else if text_le(s.last().name@, l.name@) {
        s.push(l)
    } else {
        insert_sorted(s.drop_last(), l).push(s.last())
    }
}

/// Labels sorted by name; labels with equal names keep their order.
pub open spec fn sorted_labels(s: Seq<Label>) -> Seq<Label>
    decreases s.len(),
{
    if s.len() == 0 {
        seq![]
    } else {
        insert_sorted(sorted_labels(s.drop_last()), s.last())
    }
}

pub open spec fn label_names(s: Seq<Label>) -> Seq<Seq<char>> {
    s.map_values(|l: Label| l.name@)
}

pub proof fn lemma_bytes_le_reflexive(a: Seq<u8>)
    ensures
        bytes_le(a, a),
    decreases a.len(),
{
    if a.len() > 0 {
        lemma_bytes_le_reflexive(a.drop_first());
    }
}

pub proof fn lemma_bytes_le_total(a: Seq<u8>, b: Seq<u8>)
    ensures
        bytes_le(a, b) || bytes_le(b, a),
    decreases a.len(),
{
    if a.len() > 0 && b.len() > 0 && a[0] == b[0] {
        lemma_bytes_le_total(a.drop_first(), b.drop_first());
    }
}

pub proof fn lemma_bytes_le_transitive(a: Seq<u8>, b: Seq<u8>, c: Seq<u8>)
    requires
        bytes_le(a, b),
        bytes_le(b, c),
    ensures
        bytes_le(a, c),
    decreases a.len(),
{
    if a.len() > 0 && b.len() > 0 && c.len() > 0 && a[0] == b[0] && b[0] == c[0] {
        lemma_bytes_le_transitive(a.drop_first(), b.drop_first(), c.drop_first());
    }
}

pub proof fn lemma_bytes_le_antisymmetric(a: Seq<u8>, b: Seq<u8>)
    requires
        bytes_le(a, b),
        bytes_le(b, a),
    ensures
        a == b,
    decreases a.len(),
{
    if a.len() > 0 {
        lemma_bytes_le_antisymmetric(a.drop_first(), b.drop_first());
        assert(a =~= seq![a[0]] + a.drop_first());
        assert(b =~= seq![b[0]] + b.drop_first());
    }
}

pub proof fn lemma_text_le_reflexive(a: Seq<char>)
    ensures
        text_le(a, a),
{
    lemma_bytes_le_reflexive(encode_utf8(a));
}

pub proof fn lemma_text_le_total(a: Seq<char>, b: Seq<char>)
    ensures
        text_le(a, b) || text_le(b, a),
{
    lemma_bytes_le_total(encode_utf8(a), encode_utf8(b));
}

pub proof fn lemma_text_le_transitive(a: Seq<char>, b: Seq<char>, c: Seq<char>)
    requires
        text_le(a, b),
        text_le(b, c),
    ensures
        text_le(a, c),
{
    lemma_bytes_le_transitive(encode_utf8(a), encode_utf8(b), encode_utf8(c));
}

pub proof fn lemma_text_le_antisymmetric(a: Seq<char>, b: Seq<char>)
    requires
        text_le(a, b),
        text_le(b, a),
    ensures
        a == b,
{
    lemma_bytes_le_antisymmetric(encode_utf8(a), encode_utf8(b));
    encode_utf8_decode_utf8(a);
    encode_utf8_decode_utf8(b);
}

/// Whether `a` orders before or equal to `b`.
pub fn text_le_exec(a: &str, b: &str) -> (r: bool)
    ensures
        r == text_le(a@, b@),
{
    let x = a.as_bytes();
    let y = b.as_bytes();
    let mut i: usize = 0;
    assert(x@.subrange(0, x@.len() as int) =~= x@);
    assert(y@.subrange(0, y@.len() as int) =~= y@);
    loop
        invariant
            x@ == encode_utf8(a@),
            y@ == encode_utf8(b@),
            i <= x@.len(),
            i <= y@.len(),
            bytes_le(x@, y@) == bytes_le(x@.subrange(i as int, x@.len() as int), y@.subrange(i as int, y@.len() as int)),
        decreases x@.len() - i,
    {
        let ghost xs = x@.subrange(i as int, x@.len() as int);
        let ghost ys = y@.subrange(i as int, y@.len() as int);
        if i == x.len() {
            assert(xs.len() == 0);
            return true;
        }
        if i == y.len() {
            assert(ys.len() == 0);
            return false;
        }
        assert(xs[0] == x@[i as int]);
        assert(ys[0] == y@[i as int]);
        if x[i] != y[i] {
            return x[i] < y[i];
        }
        assert(xs.drop_first() =~= x@.subrange(i + 1, x@.len() as int));
        assert(ys.drop_first() =~= y@.subrange(i + 1, y@.len() as int));
        i = i + 1;
    }
}

impl Label {
    /// A copy of the label.
    pub fn duplicate(&self) -> (r: Label)
        ensures
            r == *self,
    {
        Label { id: self.id, name: self.name.clone() }
    }
}

fn insert_label(v: &mut Vec<Label>, l: Label)
    ensures
        final(v)@ == insert_sorted(old(v)@, l),
{
    let ghost s = v@;
    let mut j: usize = v.len();
    assert(s.subrange(j as int, s.len() as int) =~= seq![]);
    assert(s.subrange(0, j as int) =~= s);
    loop
        invariant
            j <= s.len(),
            v@ == s,
            insert_sorted(s, l) == insert_sorted(s.subrange(0, j as int), l) + s.subrange(j as int, s.len() as int),
        ensures
            j <= s.len(),
            v@ == s,
            insert_sorted(s, l) == insert_sorted(s.subrange(0, j as int), l) + s.subrange(j as int, s.len() as int),
            j == 0 || text_le(s[j - 1].name@, l.name@),
        decreases j,
    {
        if j == 0 {
            break;
        }
        if text_le_exec(v[j - 1].name.as_str(), l.name.as_str()) {
            break;
        }
        proof {
            let p = s.subrange(0, j as int);
            assert(p.drop_last() =~= s.subrange(0, j - 1));
            assert(p.last() == s[j - 1]);
            assert(insert_sorted(s.subrange(0, j - 1), l).push(s[j - 1]) + s.subrange(j as int, s.len() as int)
                =~= insert_sorted(s.subrange(0, j - 1), l) + s.subrange(j - 1, s.len() as int));
        }
        j = j - 1;
    }
    proof {
        let p = s.subrange(0, j as int);
        if j == 0 {
            assert(seq![l] + s.subrange(0, s.len() as int) =~= s.insert(0, l));
        } else {
            assert(p.last() == s[j - 1]);
            assert(p.push(l) + s.subrange(j as int, s.len() as int) =~= s.insert(j as int, l));
        }
    }
    v.insert(j, l);
}

/// The label table of a field: its labels sorted by name (stable).
pub fn sort_labels(labels: &Vec<Label>) -> (r: Vec<Label>)
    ensures
        r@ == sorted_labels(labels@),
{
    let mut r: Vec<Label> = Vec::new();
    let mut i: usize = 0;
    assert(labels@.subrange(0, 0) =~= seq![]);
    while i < labels.len()
        invariant
            i <= labels@.len(),
            r@ == sorted_labels(labels@.subrange(0, i as int)),
        decreases labels@.len() - i,
    {
        let l = labels[i].duplicate();
        insert_label(&mut r, l);
        proof {
            let p = labels@.subrange(0, i + 1);
            assert(p.drop_last() =~= labels@.subrange(0, i as int));
        }
        i = i + 1;
    }
    assert(labels@.subrange(0, labels@.len() as int) =~= labels@);
    r
}

/// Binary search by name over a sorted table: the id of the first entry
/// with that name, or `None` when no entry has it.
pub fn lookup_label(table: &Vec<Label>, name: &str) -> (r: Option<u64>)
    requires
        labels_sorted(table@),
    ensures
        r is None <==> forall|i: int| 0 <= i < table@.len() ==> table@[i].name@ != name@,
        r is Some ==> exists|i: int|
            0 <= i < table@.len() && table@[i].name@ == name@ && table@[i].id == r->Some_0
                && forall|k: int| 0 <= k < i ==> table@[k].name@ != name@,
{
    let mut lo: usize = 0;
    let mut hi: usize = table.len();
    while lo < hi
        invariant
            lo <= hi <= table@.len(),
            labels_sorted(table@),
            forall|k: int| 0 <= k < lo ==> !text_le(name@, #[trigger] table@[k].name@),
            forall|k: int| hi <= k < table@.len() ==> text_le(name@, #[trigger] table@[k].name@),
        decreases hi - lo,
    {
        let mid = lo + (hi - lo) / 2;
        if text_le_exec(name, table[mid].name.as_str()) {
            proof {
                assert forall|k: int| mid <= k < table@.len() implies text_le(name@, #[trigger] table@[k].name@) by {
                    if k > mid {
                        lemma_text_le_transitive(name@, table@[mid as int].name@, table@[k].name@);
                    }
                }
            }
            hi = mid;
        } else {
            proof {
                assert forall|k: int| 0 <= k <= mid implies !text_le(name@, #[trigger] table@[k].name@) by {
                    if k < mid && text_le(name@, table@[k].name@) {
                        lemma_text_le_transitive(name@, table@[k].name@, table@[mid as int].name@);
                    }
                }
            }
            lo = mid + 1;
        }
    }
    proof {
        assert forall|k: int| 0 <= k < lo implies table@[k].name@ != name@ by {
            lemma_text_le_reflexive(name@);
        }
    }
    if lo < table.len() && text_le_exec(table[lo].name.as_str(), name) {
        proof {
            lemma_text_le_antisymmetric(table@[lo as int].name@, name@);
        }
        Some(table[lo].id)
    } else {
        proof {
            assert forall|k: int| 0 <= k < table@.len() implies table@[k].name@ != name@ by {
                if k > lo && table@[k].name@ == name@ {
                    assert(text_le(table@[lo as int].name@, table@[k].name@));
                }
            }
        }
        None
    }
}

proof fn lemma_insert_sorted_multiset(s: Seq<Label>, l: Label)
    ensures
        insert_sorted(s, l).to_multiset() == s.to_multiset().insert(l),
    decreases s.len(),
{
    broadcast use vstd::seq_lib::group_to_multiset_ensures;
    if s.len() == 0 {
        assert(seq![l] =~= Seq::<Label>::empty().push(l));
    } else if text_le(s.last().name@, l.name@) {
    } else {
        lemma_insert_sorted_multiset(s.drop_last(), l);
        assert(s =~= s.drop_last().push(s.last()));
        assert(s.to_multiset() == s.drop_last().to_multiset().insert(s.last()));
    }
}

proof fn lemma_insert_sorted_bounded(s: Seq<Label>, l: Label, m: Seq<char>)
    requires
        forall|i: int| 0 <= i < s.len() ==> text_le(#[trigger] s[i].name@, m),
        text_le(l.name@, m),
    ensures
        forall|i: int| 0 <= i < insert_sorted(s, l).len() ==> text_le(#[trigger] insert_sorted(s, l)[i].name@, m),
        insert_sorted(s, l).len() == s.len() + 1,
    decreases s.len(),
{
    if s.len() > 0 && !text_le(s.last().name@, l.name@) {
        lemma_insert_sorted_bounded(s.drop_last(), l, m);
    }
}

proof fn lemma_insert_sorted_sorted(s: Seq<Label>, l: Label)
    requires
        labels_sorted(s),
    ensures
        labels_sorted(insert_sorted(s, l)),
    decreases s.len(),
{
    if s.len() == 0 {
    } else if text_le(s.last().name@, l.name@) {
        assert forall|i: int| 0 <= i < s.len() implies text_le(#[trigger] s[i].name@, l.name@) by {
            if i < s.len() - 1 {
                lemma_text_le_transitive(s[i].name@, s.last().name@, l.name@);
            } else {
            }
        }
    } else {
        let d = s.drop_last();
        let m = s.last().name@;
        lemma_insert_sorted_sorted(d, l);
        lemma_text_le_total(m, l.name@);
        assert forall|i: int| 0 <= i < d.len() implies text_le(#[trigger] d[i].name@, m) by {
            assert(s[i] == d[i]);
        }
        lemma_insert_sorted_bounded(d, l, m);
    }
}

proof fn lemma_sorted_labels(s: Seq<Label>)
    ensures
        labels_sorted(sorted_labels(s)),
        sorted_labels(s).to_multiset() == s.to_multiset(),
    decreases s.len(),
{
    broadcast use vstd::seq_lib::group_to_multiset_ensures;
    if s.len() > 0 {
        lemma_sorted_labels(s.drop_last());
        lemma_insert_sorted_sorted(sorted_labels(s.drop_last()), s.last());
        lemma_insert_sorted_multiset(sorted_labels(s.drop_last()), s.last());
        assert(s =~= s.drop_last().push(s.last()));
    }
}

/// The label table of a field is sorted ascending by name and holds exactly
/// the field's labels; when label names are distinct, every entry named like
/// one of the labels is that label, so a lookup of the name (which returns
/// the id of the first entry with that name) yields exactly its id; and as
/// every entry is one of the labels, a name that no label has is not found.
pub proof fn lemma_label_table(labels: Seq<Label>)
    ensures
        labels_sorted(sorted_labels(labels)),
        sorted_labels(labels).to_multiset() == labels.to_multiset(),
        forall|q: int| 0 <= q < labels.len() ==> sorted_labels(labels).contains(#[trigger] labels[q]),
        names_distinct(labels) ==> forall|q: int, i: int|
            0 <= q < labels.len() && 0 <= i < sorted_labels(labels).len()
                && (#[trigger] sorted_labels(labels)[i]).name@ == (#[trigger] labels[q]).name@
                ==> sorted_labels(labels)[i] == labels[q],
        forall|i: int| 0 <= i < sorted_labels(labels).len() ==> labels.contains(#[trigger] sorted_labels(labels)[i]),
{
    broadcast use vstd::seq_lib::group_to_multiset_ensures;
    lemma_sorted_labels(labels);
    let t = sorted_labels(labels);
    assert forall|q: int| 0 <= q < labels.len() implies t.contains(#[trigger] labels[q]) by {
        assert(labels.contains(labels[q]));
        assert(labels.to_multiset().count(labels[q]) > 0);
        assert(t.to_multiset().count(labels[q]) > 0);
    }
    assert forall|i: int| 0 <= i < t.len() implies labels.contains(#[trigger] t[i]) by {
        assert(t.contains(t[i]));
        assert(t.to_multiset().count(t[i]) > 0);
        assert(labels.to_multiset().count(t[i]) > 0);
    }
    if names_distinct(labels) {
        assert forall|q: int, i: int|
            0 <= q < labels.len() && 0 <= i < t.len() && (#[trigger] t[i]).name@ == (#[trigger] labels[q]).name@
            implies t[i] == labels[q] by {
            assert(labels.contains(t[i]));
            let p = choose|p: int| 0 <= p < labels.len() && labels[p] == t[i];
            if p != q {
                if p < q {
                    assert(labels[p].name@ != labels[q].name@);
                } else {
                    assert(labels[q].name@ != labels[p].name@);
                }
            }
        }
    }
}

} // verus!
