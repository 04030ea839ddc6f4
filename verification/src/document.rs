//! The sampled-document model and its flattening: a document is walked
//! recursively into a flat, insertion-ordered mapping from dotted field
//! path to a typed leaf value. Nested documents extend the path; any
//! other value, arrays included, is recorded as a single leaf.
use vstd::prelude::*;
use vstd::string::*;

use crate::element::{DocumentValue, ElementType};
use crate::text::{spec_contains_char, str_eq};

verus! {

/// A value held by a document field: a leaf classified by its type tag,
/// or a nested document.
pub enum FieldValue {
    Leaf(ElementType),
    Nested(Document),
}

/// A sampled document: named fields in document order.
pub struct Document {
    pub fields: Vec<(String, FieldValue)>,
}

/// The dotted path of a field under a prefix.
pub open spec fn spec_entry_key(prefix: Seq<char>, name: Seq<char>) -> Seq<char> {
    prefix + seq!['.'] + name
}

/// The flat entries one field contributes: a single leaf entry, or every
/// entry of the nested document under the extended prefix.
pub open spec fn spec_field_entries(prefix: Seq<char>, name: Seq<char>, v: FieldValue) -> Seq<
    (Seq<char>, ElementType),
>
    decreases v,
{
    match v {
        FieldValue::Leaf(t) => seq![(spec_entry_key(prefix, name), t)],
        FieldValue::Nested(d) => spec_flatten_fields(spec_entry_key(prefix, name), d.fields@),
    }
}

/// The flat entries of a field list under a prefix, in document order.
pub open spec fn spec_flatten_fields(
    prefix: Seq<char>,
    fields: Seq<(String, FieldValue)>,
) -> Seq<(Seq<char>, ElementType)>
    decreases fields,
{
    if fields.len() == 0 {
        Seq::empty()
    } else {
        spec_field_entries(prefix, fields[0].0@, fields[0].1) + spec_flatten_fields(
            prefix,
            fields.drop_first(),
        )
    }
}

/// How many leaves one field holds.
pub open spec fn spec_value_leaf_count(v: FieldValue) -> nat
    decreases v,
{
    match v {
        FieldValue::Leaf(_) => 1,
        FieldValue::Nested(d) => spec_leaf_count(d.fields@),
    }
}

/// How many leaf (non-nested-document) fields a field list reaches
/// without expanding arrays.
pub open spec fn spec_leaf_count(fields: Seq<(String, FieldValue)>) -> nat
    decreases fields,
{
    if fields.len() == 0 {
        0
    } else {
        spec_value_leaf_count(fields[0].1) + spec_leaf_count(fields.drop_first())
    }
}

/// Flattening yields exactly one entry per leaf.
pub proof fn lemma_flatten_len(prefix: Seq<char>, fields: Seq<(String, FieldValue)>)
    ensures
        spec_flatten_fields(prefix, fields).len() == spec_leaf_count(fields),
    decreases fields,
{
    if fields.len() > 0 {
        assert(spec_flatten_fields(prefix, fields) == spec_field_entries(
            prefix,
            fields[0].0@,
            fields[0].1,
        ) + spec_flatten_fields(prefix, fields.drop_first()));
        assert(spec_leaf_count(fields) == spec_value_leaf_count(fields[0].1) + spec_leaf_count(
            fields.drop_first(),
        ));
        match fields[0].1 {
            FieldValue::Leaf(t) => {
                assert(spec_field_entries(prefix, fields[0].0@, fields[0].1) =~= seq![
                    (spec_entry_key(prefix, fields[0].0@), t),
                ]);
                assert(spec_value_leaf_count(fields[0].1) == 1);
            },
            FieldValue::Nested(d) => {
                lemma_flatten_len(spec_entry_key(prefix, fields[0].0@), d.fields@);
                assert(spec_value_leaf_count(fields[0].1) == spec_leaf_count(d.fields@));
            },
        }
        lemma_flatten_len(prefix, fields.drop_first());
    }
}

/// Appending a field appends its entries.
pub proof fn lemma_flatten_push(
    prefix: Seq<char>,
    fields: Seq<(String, FieldValue)>,
    x: (String, FieldValue),
)
    ensures
        spec_flatten_fields(prefix, fields.push(x)) == spec_flatten_fields(prefix, fields)
            + spec_field_entries(prefix, x.0@, x.1),
    decreases fields,
{
    if fields.len() == 0 {
        let lhs = spec_flatten_fields(prefix, fields.push(x));
        assert(fields.push(x)[0] == x);
        assert(fields.push(x).drop_first() =~= Seq::<(String, FieldValue)>::empty());
        assert(lhs == spec_field_entries(prefix, fields.push(x)[0].0@, fields.push(x)[0].1)
            + spec_flatten_fields(prefix, fields.push(x).drop_first()));
        assert(fields.push(x)[0].0 == x.0);
        assert(spec_field_entries(prefix, fields.push(x)[0].0@, fields.push(x)[0].1)
            == spec_field_entries(prefix, x.0@, x.1));
        assert(fields.push(x).drop_first().len() == 0);
        assert(spec_flatten_fields(prefix, fields.push(x).drop_first()) == Seq::<
            (Seq<char>, ElementType),
        >::empty());
        assert(spec_flatten_fields(prefix, fields) == Seq::<(Seq<char>, ElementType)>::empty());
        assert(lhs =~= spec_flatten_fields(prefix, fields) + spec_field_entries(
            prefix,
            x.0@,
            x.1,
        ));
    } else {
        assert(fields.push(x)[0] == fields[0]);
        assert(fields.push(x).drop_first() =~= fields.drop_first().push(x));
        lemma_flatten_push(prefix, fields.drop_first(), x);
        assert(spec_flatten_fields(prefix, fields.push(x)) =~= spec_flatten_fields(prefix, fields)
            + spec_field_entries(prefix, x.0@, x.1));
    }
}

/// The flat mapping from dotted path to typed leaf, in insertion order;
/// writing an existing path again replaces its value in place.
pub struct FlatMap {
    entries: Vec<(String, DocumentValue)>,
}

impl View for FlatMap {
    type V = Seq<(Seq<char>, ElementType)>;

    closed spec fn view(&self) -> Seq<(Seq<char>, ElementType)> {
        self.entries@.map_values(|e: (String, DocumentValue)| (e.0@, e.1.value_type))
    }
}

/// Inserting into the flat mapping: a present key keeps its position and
/// takes the new value; an absent key is appended.
pub open spec fn spec_fm_insert(
    m: Seq<(Seq<char>, ElementType)>,
    k: Seq<char>,
    t: ElementType,
) -> Seq<(Seq<char>, ElementType)>
    decreases m.len(),
{
    if m.len() == 0 {
        seq![(k, t)]
    } else if m[0].0 == k {
        seq![(k, t)] + m.drop_first()
    } else {
        seq![m[0]] + spec_fm_insert(m.drop_first(), k, t)
    }
}

/// Inserting each entry in turn.
pub open spec fn spec_fm_insert_all(
    m: Seq<(Seq<char>, ElementType)>,
    entries: Seq<(Seq<char>, ElementType)>,
) -> Seq<(Seq<char>, ElementType)>
    decreases entries.len(),
{
    if entries.len() == 0 {
        m
    } else {
        spec_fm_insert_all(spec_fm_insert(m, entries[0].0, entries[0].1), entries.drop_first())
    }
}

/// Inserting a key present at position `i` updates that position.
pub proof fn lemma_fm_insert_found(
    m: Seq<(Seq<char>, ElementType)>,
    k: Seq<char>,
    t: ElementType,
    i: int,
)
    requires
        0 <= i < m.len(),
        m[i].0 == k,
        forall|j: int| 0 <= j < i ==> m[j].0 != k,
    ensures
        spec_fm_insert(m, k, t) == m.update(i, (k, t)),
    decreases m.len(),
{
    if i == 0 {
        assert(spec_fm_insert(m, k, t) =~= m.update(0, (k, t)));
    } else {
        assert(m.drop_first()[i - 1].0 == k);
        assert(forall|j: int| 0 <= j < i - 1 ==> m.drop_first()[j] == m[j + 1]);
        lemma_fm_insert_found(m.drop_first(), k, t, i - 1);
        assert(spec_fm_insert(m, k, t) =~= m.update(i, (k, t)));
    }
}

/// Inserting an absent key appends it.
pub proof fn lemma_fm_insert_missing(m: Seq<(Seq<char>, ElementType)>, k: Seq<char>, t: ElementType)
    requires
        forall|j: int| 0 <= j < m.len() ==> (#[trigger] m[j]).0 != k,
    ensures
        spec_fm_insert(m, k, t) == m.push((k, t)),
    decreases m.len(),
{
    if m.len() > 0 {
        assert(forall|j: int| 0 <= j < m.drop_first().len() ==> m.drop_first()[j] == m[j + 1]);
        lemma_fm_insert_missing(m.drop_first(), k, t);
        assert(spec_fm_insert(m, k, t) =~= m.push((k, t)));
    } else {
        assert(spec_fm_insert(m, k, t) =~= m.push((k, t)));
    }
}

impl FlatMap {
    /// An empty mapping.
    pub fn new() -> (r: FlatMap)
        ensures
            r@ == Seq::<(Seq<char>, ElementType)>::empty(),
    {
        let r = FlatMap { entries: Vec::new() };
        proof {
            assert(r@ =~= Seq::<(Seq<char>, ElementType)>::empty());
        }
        r
    }

    /// How many paths the mapping holds.
    pub fn len(&self) -> (r: usize)
        ensures
            r == self@.len(),
    {
        self.entries.len()
    }

    /// The path at position `i`.
    pub fn key_at(&self, i: usize) -> (r: &String)
        requires
            i < self@.len(),
        ensures
            r@ == self@[i as int].0,
    {
        &self.entries[i].0
    }

    /// The typed leaf at position `i`.
    pub fn value_at(&self, i: usize) -> (r: DocumentValue)
        requires
            i < self@.len(),
        ensures
            r.value_type == self@[i as int].1,
    {
        self.entries[i].1
    }

    /// Writes one path: replaces the value in place when the path is
    /// present, appends the entry when it is not.
    pub fn insert(&mut self, key: String, value: DocumentValue)
        ensures
            final(self)@ == spec_fm_insert(old(self)@, key@, value.value_type),
    {
        let mut i: usize = 0;
        while i < self.entries.len()
            invariant
                i <= self.entries.len(),
                self@ == old(self)@,
                self@ == self.entries@.map_values(
                    |e: (String, DocumentValue)| (e.0@, e.1.value_type),
                ),
                forall|j: int| 0 <= j < i ==> (#[trigger] old(self)@[j]).0 != key@,
            decreases self.entries.len() - i,
        {
            if str_eq(self.entries[i].0.as_str(), key.as_str()) {
                proof {
                    assert(old(self)@[i as int].0 == key@);
                    lemma_fm_insert_found(old(self)@, key@, value.value_type, i as int);
                }
                let ghost pre = self@;
                self.entries[i] = (key, value);
                proof {
                    assert(self@ =~= pre.update(i as int, (key@, value.value_type)));
                }
                return ;
            }
            i = i + 1;
        }
        proof {
            lemma_fm_insert_missing(old(self)@, key@, value.value_type);
        }
        let ghost pre = self@;
        self.entries.push((key, value));
        proof {
            assert(self@ =~= pre.push((key@, value.value_type)));
        }
    }
}

/// Walks a document under a path prefix, writing one entry per leaf into
/// the flat mapping: nested documents extend the prefix; any other value
/// is recorded with its type tag under `prefix.field`.
pub fn create_flat_map(flat_map: &mut FlatMap, prefix: &str, doc: &Document)
    ensures
        final(flat_map)@ == spec_fm_insert_all(
            old(flat_map)@,
            spec_flatten_fields(prefix@, doc.fields@),
        ),
    decreases *doc,
{
    let n: usize = doc.fields.len();
    let mut i: usize = 0;
    while i < n
        invariant
            i <= n,
            n == doc.fields@.len(),
            flat_map@ == spec_fm_insert_all(
                old(flat_map)@,
                spec_flatten_fields(prefix@, doc.fields@.take(i as int)),
            ),
        decreases n - i,
    {
        let mut new_key = String::new();
        new_key.append(prefix);
        new_key.append(".");
        let pair = &doc.fields[i];
        new_key.append(pair.0.as_str());
        let ghost curr = flat_map@;
        let ghost fe = spec_field_entries(
            prefix@,
            doc.fields@[i as int].0@,
            doc.fields@[i as int].1,
        );
        proof {
            reveal_strlit(".");
            assert(new_key@ =~= spec_entry_key(prefix@, pair.0@));
            assert(doc.fields@.take(i + 1) =~= doc.fields@.take(i as int).push(
                doc.fields@[i as int],
            ));
            lemma_flatten_push(prefix@, doc.fields@.take(i as int), doc.fields@[i as int]);
            lemma_fm_insert_all_concat(
                old(flat_map)@,
                spec_flatten_fields(prefix@, doc.fields@.take(i as int)),
                fe,
            );
            assert(spec_fm_insert_all(old(flat_map)@, spec_flatten_fields(
                prefix@,
                doc.fields@.take(i + 1),
            )) == spec_fm_insert_all(curr, fe));
        }
        match &pair.1 {
            FieldValue::Leaf(t) => {
                proof {
                    assert(doc.fields@[i as int].1 == FieldValue::Leaf(*t));
                }
                flat_map.insert(new_key, DocumentValue { value_type: *t });
                proof {
                    let entry = (spec_entry_key(prefix@, pair.0@), *t);
                    assert(fe =~= seq![entry]);
                    assert(seq![entry].drop_first() =~= Seq::<(Seq<char>, ElementType)>::empty());
                    assert(seq![entry][0] == entry);
                    let mid = spec_fm_insert(curr, entry.0, entry.1);
                    assert(spec_fm_insert_all(curr, fe) == spec_fm_insert_all(
                        mid,
                        fe.drop_first(),
                    ));
                    assert(fe.drop_first() =~= Seq::<(Seq<char>, ElementType)>::empty());
                    assert(spec_fm_insert_all(mid, fe.drop_first()) == mid);
                    assert(flat_map@ == spec_fm_insert_all(curr, fe));
                }
            },
            FieldValue::Nested(d2) => {
                proof {
                    assert(doc.fields@[i as int].1 == FieldValue::Nested(*d2));
                    assert(fe == spec_flatten_fields(spec_entry_key(prefix@, pair.0@), d2.fields@));
                    assert(decreases_to!(*doc => doc.fields));
                    assert(decreases_to!(doc.fields => doc.fields@));
                    assert(decreases_to!(doc.fields@ => doc.fields@[i as int]));
                    assert(decreases_to!(doc.fields@[i as int] => doc.fields@[i as int].1));
                    assert(decreases_to!(doc.fields@[i as int].1 => *d2));
                }
                create_flat_map(flat_map, new_key.as_str(), d2);
                proof {
                    assert(flat_map@ == spec_fm_insert_all(curr, fe));
                }
            },
        }
        proof {
            assert(flat_map@ == spec_fm_insert_all(old(flat_map)@, spec_flatten_fields(
                prefix@,
                doc.fields@.take(i + 1),
            )));
        }
        i = i + 1;
    }
    proof {
        assert(doc.fields@.take(n as int) =~= doc.fields@);
    }
}

/// Inserting a concatenation inserts the two parts in turn.
pub proof fn lemma_fm_insert_all_concat(
    m: Seq<(Seq<char>, ElementType)>,
    a: Seq<(Seq<char>, ElementType)>,
    b: Seq<(Seq<char>, ElementType)>,
)
    ensures
        spec_fm_insert_all(m, a + b) == spec_fm_insert_all(spec_fm_insert_all(m, a), b),
    decreases a.len(),
{
    if a.len() == 0 {
        assert(a + b =~= b);
    } else {
        assert((a + b)[0] == a[0]);
        assert((a + b).drop_first() =~= a.drop_first() + b);
        lemma_fm_insert_all_concat(spec_fm_insert(m, a[0].0, a[0].1), a.drop_first(), b);
    }
}

/// The flat mapping of one sampled collection document: empty when the
/// collection gave no sample, else the flattening of that document under
/// the collection's name.
pub fn collection_flat_map(collection_name: &str, sample: Option<&Document>) -> (r: FlatMap)
    ensures
        match sample {
            Some(doc) => r@ == spec_fm_insert_all(
                Seq::<(Seq<char>, ElementType)>::empty(),
                spec_flatten_fields(collection_name@, doc.fields@),
            ),
            None => r@ == Seq::<(Seq<char>, ElementType)>::empty(),
        },
{
    let mut flat_map = FlatMap::new();
    match sample {
        Some(doc) => {
            create_flat_map(&mut flat_map, collection_name, doc);
        },
        None => {
        },
    }
    flat_map
}

/// A usable field name: no '.' inside it.
pub open spec fn spec_name_ok(name: Seq<char>) -> bool {
    !spec_contains_char(name, '.')
}

/// A well-formed field value: nested documents are well-formed.
pub open spec fn spec_wf_value(v: FieldValue) -> bool
    decreases v,
{
    match v {
        FieldValue::Leaf(_) => true,
        FieldValue::Nested(d) => spec_wf_fields(d.fields@),
    }
}

/// A well-formed field list: names are pairwise distinct, hold no '.',
/// and nested documents are well-formed in turn.
pub open spec fn spec_wf_fields(fields: Seq<(String, FieldValue)>) -> bool
    decreases fields,
{
    &&& forall|i: int, j: int|
        0 <= i < j < fields.len() ==> (#[trigger] fields[i]).0@ != (#[trigger] fields[j]).0@
    &&& forall|i: int| 0 <= i < fields.len() ==> spec_name_ok((#[trigger] fields[i]).0@)
    &&& forall|i: int| 0 <= i < fields.len() ==> spec_wf_value((#[trigger] fields[i]).1)
}

/// `key` names a field `name` of the document at prefix `p`: it extends
/// `p` with a '.', continues with `name`, and then either ends or goes on
/// with another '.'.
pub open spec fn spec_key_for(p: Seq<char>, name: Seq<char>, key: Seq<char>) -> bool {
    &&& key.len() >= p.len() + 1 + name.len()
    &&& key.take(p.len() as int + 1) == p.push('.')
    &&& key.subrange(p.len() as int + 1, p.len() as int + 1 + name.len() as int) == name
    &&& (key.len() == p.len() + 1 + name.len() || key[p.len() as int + 1 + name.len() as int]
        == '.')
}

/// A key determines the field name it stands for, as long as names hold
/// no '.'.
pub proof fn lemma_key_for_unique(p: Seq<char>, n1: Seq<char>, n2: Seq<char>, key: Seq<char>)
    requires
        spec_key_for(p, n1, key),
        spec_key_for(p, n2, key),
        spec_name_ok(n1),
        spec_name_ok(n2),
    ensures
        n1 == n2,
{
    let a = p.len() as int + 1;
    if n1.len() < n2.len() {
        assert(key.len() > a + n1.len());
        assert(key[a + n1.len() as int] == '.');
        assert(key.subrange(a, a + n2.len() as int)[n1.len() as int] == key[a + n1.len() as int]);
        assert(n2[n1.len() as int] == '.');
        assert(spec_contains_char(n2, '.'));
    } else if n2.len() < n1.len() {
        assert(key.len() > a + n2.len());
        assert(key[a + n2.len() as int] == '.');
        assert(key.subrange(a, a + n1.len() as int)[n2.len() as int] == key[a + n2.len() as int]);
        assert(n1[n2.len() as int] == '.');
        assert(spec_contains_char(n1, '.'));
    } else {
        assert(n1 =~= n2) by {
            assert(forall|i: int|
                0 <= i < n1.len() ==> #[trigger] key.subrange(a, a + n1.len() as int)[i] == key[a
                    + i]);
        }
    }
}

/// A key of a nested document is also a key of the enclosing field.
pub proof fn lemma_key_for_lift(p: Seq<char>, n0: Seq<char>, inner: Seq<char>, key: Seq<char>)
    requires
        spec_key_for(spec_entry_key(p, n0), inner, key),
    ensures
        spec_key_for(p, n0, key),
{
    let p2 = spec_entry_key(p, n0);
    let m = p2.len() as int + 1;
    assert(forall|i: int| 0 <= i < m ==> key.take(m)[i] == key[i]);
    assert(forall|i: int| 0 <= i < m ==> key[i] == p2.push('.')[i]);
    assert(key.take(p.len() as int + 1) =~= p.push('.'));
    assert(key.subrange(p.len() as int + 1, p.len() as int + 1 + n0.len() as int) =~= n0);
    assert(key[p.len() as int + 1 + n0.len() as int] == p2.push('.')[p2.len() as int] == '.');
}

/// Every key a field list yields belongs to one of its fields.
pub open spec fn spec_keys_from(
    p: Seq<char>,
    fields: Seq<(String, FieldValue)>,
    es: Seq<(Seq<char>, ElementType)>,
) -> bool {
    forall|k: int|
        0 <= k < es.len() ==> exists|i: int|
            0 <= i < fields.len() && spec_key_for(p, fields[i].0@, (#[trigger] es[k]).0)
}

/// All keys pairwise distinct.
pub open spec fn spec_keys_distinct(es: Seq<(Seq<char>, ElementType)>) -> bool {
    forall|a: int, b: int|
        0 <= a < b < es.len() ==> (#[trigger] es[a]).0 != (#[trigger] es[b]).0
}

/// Flattening a well-formed field list yields keys that name its fields,
/// pairwise distinct.
pub proof fn lemma_flatten_wf(p: Seq<char>, fields: Seq<(String, FieldValue)>)
    requires
        spec_wf_fields(fields),
    ensures
        spec_keys_from(p, fields, spec_flatten_fields(p, fields)),
        spec_keys_distinct(spec_flatten_fields(p, fields)),
    decreases fields,
{
    if fields.len() > 0 {
        let head = fields[0];
        let name0 = head.0@;
        let rest = fields.drop_first();
        let hes = spec_field_entries(p, name0, head.1);
        let res = spec_flatten_fields(p, rest);
        let es = spec_flatten_fields(p, fields);
        assert(es == hes + res);
        assert(forall|i: int| 0 <= i < rest.len() ==> rest[i] == fields[i + 1]);
        assert(spec_wf_fields(rest));
        lemma_flatten_wf(p, rest);

        // every head entry's key names the head field
        match head.1 {
            FieldValue::Leaf(t) => {
                let key = spec_entry_key(p, name0);
                assert(hes =~= seq![(key, t)]);
                assert(spec_key_for(p, name0, key)) by {
                    assert(key.take(p.len() as int + 1) =~= p.push('.'));
                    assert(key.subrange(
                        p.len() as int + 1,
                        p.len() as int + 1 + name0.len() as int,
                    ) =~= name0);
                }
            },
            FieldValue::Nested(d) => {
                assert(spec_wf_value(head.1));
                lemma_flatten_wf(spec_entry_key(p, name0), d.fields@);
                assert(hes == spec_flatten_fields(spec_entry_key(p, name0), d.fields@));
                assert forall|k: int| 0 <= k < hes.len() implies spec_key_for(
                    p,
                    name0,
                    (#[trigger] hes[k]).0,
                ) by {
                    let i = choose|i: int|
                        0 <= i < d.fields@.len() && spec_key_for(
                            spec_entry_key(p, name0),
                            d.fields@[i].0@,
                            hes[k].0,
                        );
                    lemma_key_for_lift(p, name0, d.fields@[i].0@, hes[k].0);
                }
            },
        }
        assert(forall|k: int|
            0 <= k < hes.len() ==> spec_key_for(p, name0, (#[trigger] hes[k]).0));

        // keys_from for the concatenation
        assert forall|k: int| 0 <= k < es.len() implies exists|i: int|
            0 <= i < fields.len() && spec_key_for(p, fields[i].0@, (#[trigger] es[k]).0) by {
            if k < hes.len() {
                assert(es[k] == hes[k]);
                assert(spec_key_for(p, fields[0].0@, es[k].0));
            } else {
                assert(es[k] == res[k - hes.len()]);
                let i = choose|i: int|
                    0 <= i < rest.len() && spec_key_for(p, rest[i].0@, res[k - hes.len()].0);
                assert(rest[i] == fields[i + 1]);
                assert(spec_key_for(p, fields[i + 1].0@, es[k].0));
            }
        }

        // distinctness of the concatenation
        assert forall|a: int, b: int| 0 <= a < b < es.len() implies (#[trigger] es[a]).0 != (
        #[trigger] es[b]).0 by {
            if b < hes.len() {
                assert(es[a] == hes[a] && es[b] == hes[b]);
            } else if a >= hes.len() {
                assert(es[a] == res[a - hes.len()] && es[b] == res[b - hes.len()]);
            } else {
                assert(es[a] == hes[a] && es[b] == res[b - hes.len()]);
                assert(spec_key_for(p, name0, es[a].0));
                let i = choose|i: int|
                    0 <= i < rest.len() && spec_key_for(p, rest[i].0@, res[b - hes.len()].0);
                assert(rest[i] == fields[i + 1]);
                if es[a].0 == es[b].0 {
                    lemma_key_for_unique(p, name0, fields[i + 1].0@, es[a].0);
                    assert(fields[0].0@ == fields[i + 1].0@);
                }
            }
        }
    }
}

/// Inserting entries whose keys are pairwise distinct and absent from the
/// mapping appends them all.
pub proof fn lemma_fm_insert_all_fresh(
    m: Seq<(Seq<char>, ElementType)>,
    entries: Seq<(Seq<char>, ElementType)>,
)
    requires
        spec_keys_distinct(entries),
        forall|i: int, j: int|
            0 <= i < m.len() && 0 <= j < entries.len() ==> (#[trigger] m[i]).0 != (
            #[trigger] entries[j]).0,
    ensures
        spec_fm_insert_all(m, entries) == m + entries,
    decreases entries.len(),
{
    if entries.len() == 0 {
        assert(spec_fm_insert_all(m, entries) =~= m + entries);
    } else {
        let e = entries[0];
        assert(forall|i: int| 0 <= i < m.len() ==> (#[trigger] m[i]).0 != e.0);
        lemma_fm_insert_missing(m, e.0, e.1);
        let m2 = m.push(e);
        let rest = entries.drop_first();
        assert(forall|j: int| 0 <= j < rest.len() ==> rest[j] == entries[j + 1]);
        assert(spec_keys_distinct(rest));
        assert(forall|i: int, j: int|
            0 <= i < m2.len() && 0 <= j < rest.len() ==> (#[trigger] m2[i]).0 != (
            #[trigger] rest[j]).0);
        lemma_fm_insert_all_fresh(m2, rest);
        assert(spec_fm_insert_all(m, entries) == spec_fm_insert_all(m2, rest));
        assert(m2 + rest =~= m + entries);
    }
}

/// Flattening is total and path-unique: a well-formed document (distinct,
/// dot-free field names at every level) flattens to exactly one entry per
/// leaf field, each keyed by a distinct dotted path, and writing those
/// entries into an empty flat mapping keeps them all, in order.
/// Flattening is a function of the document alone, so re-flattening the
/// same document yields the same mapping.
pub proof fn lemma_flatten_path_unique(collection: Seq<char>, doc: Document)
    requires
        spec_wf_fields(doc.fields@),
    ensures
        spec_flatten_fields(collection, doc.fields@).len() == spec_leaf_count(doc.fields@),
        spec_keys_distinct(spec_flatten_fields(collection, doc.fields@)),
        spec_fm_insert_all(
            Seq::<(Seq<char>, ElementType)>::empty(),
            spec_flatten_fields(collection, doc.fields@),
        ) == spec_flatten_fields(collection, doc.fields@),
{
    lemma_flatten_len(collection, doc.fields@);
    lemma_flatten_wf(collection, doc.fields@);
    lemma_fm_insert_all_fresh(
        Seq::<(Seq<char>, ElementType)>::empty(),
        spec_flatten_fields(collection, doc.fields@),
    );
    assert(Seq::<(Seq<char>, ElementType)>::empty() + spec_flatten_fields(
        collection,
        doc.fields@,
    ) =~= spec_flatten_fields(collection, doc.fields@));
}

} // verus!
