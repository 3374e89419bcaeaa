//! BSON documents as the library sees them: the outside types `bson::Document`
//! and `bson::Bson`, a model of what they hold, and the few operations of the
//! `bson` crate that the request logic uses.
use bson::{Bson, Document};
use vstd::prelude::*;

verus! {

#[verifier::external_type_specification]
#[verifier::external_body]
pub struct ExDocument(bson::Document);

#[verifier::external_type_specification]
#[verifier::external_body]
pub struct ExBson(bson::Bson);

/// What a BSON value holds, as far as this library builds or reads it.
/// Every kind of value that the library never builds nor inspects
/// (doubles, object ids, dates, ...) is `Other`.
pub enum BsonValue {
    Null,
    Boolean(bool),
    Int32(i32),
    Int64(i64),
    Str(Seq<char>),
    Document(Seq<(Seq<char>, BsonValue)>),
    Array(Seq<BsonValue>),
    Other,
}

/// The entries of a document, in the document's order.
pub type Entries = Seq<(Seq<char>, BsonValue)>;

/// The entries that a `bson::Document` holds, in insertion order.
pub uninterp spec fn doc_entries(d: Document) -> Seq<(Seq<char>, BsonValue)>;

/// The value that a `bson::Bson` holds.
pub uninterp spec fn bson_value(b: Bson) -> BsonValue;

/// The value stored under `k`, if any (the first entry with that key).
pub open spec fn entries_get(es: Entries, k: Seq<char>) -> Option<BsonValue>
    decreases es.len(),
{
    if es.len() == 0 {
        None
    } else if es[0].0 == k {
        Some(es[0].1)
    } else {
        entries_get(es.drop_first(), k)
    }
}

/// Inserting into an insertion-ordered map: an entry with the same key keeps
/// its place and takes the new value; otherwise the entry goes last.
pub open spec fn entries_insert(es: Entries, k: Seq<char>, v: BsonValue) -> Entries
    decreases es.len(),
{
    if es.len() == 0 {
        seq![(k, v)]
    } else if es[0].0 == k {
        es.update(0, (k, v))
    } else {
        seq![es[0]] + entries_insert(es.drop_first(), k, v)
    }
}

/// The document that inserting `pairs` one after the other into an empty
/// document gives (what the `doc!` literal of the `bson` crate builds).
pub open spec fn doc_of(pairs: Entries) -> Entries
    decreases pairs.len(),
{
    if pairs.len() == 0 {
        Seq::empty()
    } else {
        entries_insert(doc_of(pairs.drop_last()), pairs.last().0, pairs.last().1)
    }
}

/// The keys of `es` are pairwise distinct.
pub open spec fn keys_distinct(es: Entries) -> bool {
    forall|i: int, j: int| 0 <= i < j < es.len() ==> es[i].0 != es[j].0
}

/// `k` is the key of some entry of `es`.
pub open spec fn has_key(es: Entries, k: Seq<char>) -> bool {
    exists|i: int| 0 <= i < es.len() && es[i].0 == k
}

/// The model of a list of key/value pairs as handed to `make_doc`.
pub open spec fn pairs_model(ps: Seq<(&str, Bson)>) -> Entries {
    ps.map_values(|p: (&str, Bson)| (p.0@, bson_value(p.1)))
}

/// `Document::new` gives an empty document.
#[verifier::external_body]
pub(crate) fn doc_new() -> (d: Document)
    ensures
        doc_entries(d) == Seq::<(Seq<char>, BsonValue)>::empty(),
{
    Document::new()
}

/// `Document::insert` stores `value` under `key`: as `IndexMap::insert`,
/// which it calls, documents it, an existing key keeps its place and takes
/// the new value, and a new key goes last.
#[verifier::external_body]
pub(crate) fn doc_insert(d: &mut Document, key: &str, value: Bson)
    ensures
        doc_entries(*final(d)) == entries_insert(doc_entries(*old(d)), key@, bson_value(value)),
{
    d.insert(key, value);
}

/// `Document::get` gives the value stored under `key`, or `None` where the
/// document has no such key.
#[verifier::external_body]
pub(crate) fn doc_get<'a>(d: &'a Document, key: &str) -> (r: Option<&'a Bson>)
    ensures
        match r {
            Some(b) => entries_get(doc_entries(*d), key@) == Some(bson_value(*b)),
            None => entries_get(doc_entries(*d), key@) is None,
        },
{
    d.get(key)
}

/// `Document::is_empty` tells whether the document has no entry.
#[verifier::external_body]
pub(crate) fn doc_is_empty(d: &Document) -> (r: bool)
    ensures
        r == (doc_entries(*d).len() == 0),
{
    d.is_empty()
}

/// `Bson::from(&str)` is a BSON string with the same characters.
#[verifier::external_body]
pub(crate) fn bson_str(s: &str) -> (b: Bson)
    ensures
        bson_value(b) == BsonValue::Str(s@),
{
    Bson::from(s)
}

/// `Bson::from(bool)` is a BSON boolean.
#[verifier::external_body]
pub(crate) fn bson_bool(x: bool) -> (b: Bson)
    ensures
        bson_value(b) == BsonValue::Boolean(x),
{
    Bson::from(x)
}

/// `Bson::from(i32)` is a BSON 32-bit integer.
#[verifier::external_body]
pub(crate) fn bson_i32(x: i32) -> (b: Bson)
    ensures
        bson_value(b) == BsonValue::Int32(x),
{
    Bson::from(x)
}

/// `Bson::from(Document)` is a BSON embedded document with the same entries.
#[verifier::external_body]
pub(crate) fn bson_doc(d: Document) -> (b: Bson)
    ensures
        bson_value(b) == BsonValue::Document(doc_entries(d)),
{
    Bson::from(d)
}

/// `Bson::from(Vec<Bson>)` is a BSON array of the same values, in order.
#[verifier::external_body]
pub(crate) fn bson_array(v: Vec<Bson>) -> (b: Bson)
    ensures
        bson_value(b) == BsonValue::Array(v@.map_values(|x: Bson| bson_value(x))),
{
    Bson::from(v)
}

/// `Bson::as_str`: the characters of a BSON string, `None` for any other
/// kind of value.
#[verifier::external_body]
pub(crate) fn bson_as_str<'a>(b: &'a Bson) -> (r: Option<&'a str>)
    ensures
        match bson_value(*b) {
            BsonValue::Str(s) => r matches Some(x) && x@ == s,
            _ => r is None,
        },
{
    b.as_str()
}

/// `Bson::as_i32`: the value of a BSON 32-bit integer, `None` for any other
/// kind of value.
#[verifier::external_body]
pub(crate) fn bson_as_i32(b: &Bson) -> (r: Option<i32>)
    ensures
        match bson_value(*b) {
            BsonValue::Int32(x) => r == Some(x),
            _ => r is None,
        },
{
    b.as_i32()
}

/// `Bson::clone` (derived): a value that holds the same.
#[verifier::external_body]
pub(crate) fn bson_clone(b: &Bson) -> (r: Bson)
    ensures
        bson_value(r) == bson_value(*b),
{
    b.clone()
}

/// Builds the document that inserting `pairs` in order gives.
pub fn make_doc(pairs: Vec<(&str, Bson)>) -> (d: Document)
    ensures
        doc_entries(d) == doc_of(pairs_model(pairs@)),
{
    let ghost all = pairs@;
    let mut rest = pairs;
    let mut d = doc_new();
    let n = rest.len();
    let mut i: usize = 0;
    while i < n
        invariant
            n == all.len(),
            i <= n,
            rest@ == all.skip(i as int),
            doc_entries(d) == doc_of(pairs_model(all.take(i as int))),
        decreases n - i,
    {
        let (k, v) = rest.remove(0);
        proof {
            assert(pairs_model(all.take(i + 1)).drop_last() =~= pairs_model(all.take(i as int)));
        }
        doc_insert(&mut d, k, v);
        i = i + 1;
        assert(rest@ =~= all.skip(i as int));
    }
    assert(all.take(n as int) =~= all);
    d
}

/// An embedded document holding `pairs`, inserted in order.
pub open spec fn obj(pairs: Entries) -> BsonValue {
    BsonValue::Document(doc_of(pairs))
}

/// The BSON embedded document that inserting `pairs` in order gives.
pub fn obj_bson(pairs: Vec<(&str, Bson)>) -> (b: Bson)
    ensures
        bson_value(b) == obj(pairs_model(pairs@)),
{
    bson_doc(make_doc(pairs))
}

/// A BSON 32-bit integer.
pub open spec fn num(x: i32) -> BsonValue {
    BsonValue::Int32(x)
}

/// A BSON string.
pub open spec fn text(s: Seq<char>) -> BsonValue {
    BsonValue::Str(s)
}

/// The document that sets each of `keys`, in order, to the integer `v`
/// (a projection or a sort order).
pub open spec fn flags(keys: Seq<&str>, v: i32) -> Entries {
    doc_of(keys.map_values(|k: &str| (k@, BsonValue::Int32(v))))
}

/// Builds the document that sets each of `keys`, in order, to `v`.
pub fn flag_doc(keys: Vec<&str>, v: i32) -> (d: Document)
    ensures
        doc_entries(d) == flags(keys@, v),
{
    let ghost all = keys@;
    let mut d = doc_new();
    let n = keys.len();
    let mut i: usize = 0;
    while i < n
        invariant
            n == all.len(),
            keys@ == all,
            i <= n,
            doc_entries(d) == flags(all.take(i as int), v),
        decreases n - i,
    {
        let k = keys[i];
        proof {
            let m = all.take(i + 1).map_values(|k: &str| (k@, BsonValue::Int32(v)));
            assert(m.drop_last() =~= all.take(i as int).map_values(|k: &str| (k@, BsonValue::Int32(v))));
        }
        doc_insert(&mut d, k, bson_i32(v));
        i = i + 1;
    }
    assert(all.take(n as int) =~= all);
    d
}

/// Adding one pair at the end of a pair list inserts it into the document.
pub proof fn lemma_doc_of_push(ps: Entries, k: Seq<char>, v: BsonValue)
    ensures
        doc_of(ps.push((k, v))) == entries_insert(doc_of(ps), k, v),
{
    assert(ps.push((k, v)).drop_last() =~= ps);
}

/// Reading a key just inserted gives the value inserted.
pub proof fn lemma_get_insert_same(es: Entries, k: Seq<char>, v: BsonValue)
    ensures
        entries_get(entries_insert(es, k, v), k) == Some(v),
    decreases es.len(),
{
    if es.len() > 0 && es[0].0 != k {
        lemma_get_insert_same(es.drop_first(), k, v);
        assert((seq![es[0]] + entries_insert(es.drop_first(), k, v)).drop_first()
            =~= entries_insert(es.drop_first(), k, v));
    }
}

/// Inserting under one key leaves what every other key holds.
pub proof fn lemma_get_insert_other(es: Entries, k: Seq<char>, v: BsonValue, other: Seq<char>)
    requires
        other != k,
    ensures
        entries_get(entries_insert(es, k, v), other) == entries_get(es, other),
    decreases es.len(),
{
    if es.len() == 0 {
        assert(entries_get(seq![(k, v)].drop_first(), other) is None);
    } else if es[0].0 == k {
        assert(es.update(0, (k, v)).drop_first() =~= es.drop_first());
    } else {
        lemma_get_insert_other(es.drop_first(), k, v, other);
        assert((seq![es[0]] + entries_insert(es.drop_first(), k, v)).drop_first()
            =~= entries_insert(es.drop_first(), k, v));
    }
}

/// Inserting keeps the keys distinct, and adds an entry exactly when the
/// key was not there.
pub proof fn lemma_insert_keeps_keys_distinct(es: Entries, k: Seq<char>, v: BsonValue)
    requires
        keys_distinct(es),
    ensures
        keys_distinct(entries_insert(es, k, v)),
        entries_insert(es, k, v).len() == if has_key(es, k) {
            es.len()
        } else {
            es.len() + 1
        },
        forall|k2: Seq<char>| #[trigger]
            has_key(entries_insert(es, k, v), k2) <==> (has_key(es, k2) || k2 == k),
    decreases es.len(),
{
    let r = entries_insert(es, k, v);
    if es.len() == 0 {
        assert(!has_key(es, k));
        assert forall|k2: Seq<char>| #[trigger] has_key(r, k2) <==> (has_key(es, k2) || k2 == k) by {
            if k2 == k {
                assert(r[0].0 == k);
            }
        }
    } else if es[0].0 == k {
        assert(has_key(es, k));
        assert forall|k2: Seq<char>| #[trigger] has_key(r, k2) <==> (has_key(es, k2) || k2 == k) by {
            if has_key(es, k2) {
                let i = choose|i: int| 0 <= i < es.len() && es[i].0 == k2;
                assert(r[i].0 == k2);
            }
            if has_key(r, k2) {
                let i = choose|i: int| 0 <= i < r.len() && r[i].0 == k2;
                assert(es[i].0 == k2);
            }
        }
    } else {
        let t = es.drop_first();
        lemma_insert_keeps_keys_distinct(t, k, v);
        let rt = entries_insert(t, k, v);
        assert(r =~= seq![es[0]] + rt);
        assert(keys_distinct(t));
        assert(!has_key(rt, es[0].0)) by {
            if has_key(t, es[0].0) {
                let i = choose|i: int| 0 <= i < t.len() && t[i].0 == es[0].0;
                assert(es[i + 1].0 == es[0].0);
            }
        }
        assert forall|i: int, j: int| 0 <= i < j < r.len() implies r[i].0 != r[j].0 by {
            if i == 0 {
                if r[j].0 == es[0].0 {
                    assert(rt[j - 1].0 == es[0].0);
                }
            } else {
                assert(r[i] == rt[i - 1] && r[j] == rt[j - 1]);
            }
        }
        assert(has_key(es, k) == has_key(t, k)) by {
            if has_key(es, k) {
                let i = choose|i: int| 0 <= i < es.len() && es[i].0 == k;
                assert(t[i - 1].0 == k);
            }
            if has_key(t, k) {
                let i = choose|i: int| 0 <= i < t.len() && t[i].0 == k;
                assert(es[i + 1].0 == k);
            }
        }
        assert forall|k2: Seq<char>| #[trigger] has_key(r, k2) <==> (has_key(es, k2) || k2 == k) by {
            if has_key(r, k2) {
                let i = choose|i: int| 0 <= i < r.len() && r[i].0 == k2;
                if i > 0 {
                    assert(rt[i - 1].0 == k2);
                    assert(has_key(rt, k2));
                } else {
                    assert(es[0].0 == k2);
                }
            }
            if has_key(es, k2) {
                let i = choose|i: int| 0 <= i < es.len() && es[i].0 == k2;
                if i > 0 {
                    assert(t[i - 1].0 == k2);
                    assert(has_key(rt, k2));
                    let j = choose|j: int| 0 <= j < rt.len() && rt[j].0 == k2;
                    assert(r[j + 1].0 == k2);
                } else {
                    assert(r[0].0 == k2);
                }
            }
            if k2 == k {
                assert(has_key(rt, k2));
                let j = choose|j: int| 0 <= j < rt.len() && rt[j].0 == k2;
                assert(r[j + 1].0 == k2);
            }
        }
    }
}

/// Inserting a new key puts it last.
pub proof fn lemma_insert_new_key(es: Entries, k: Seq<char>, v: BsonValue)
    requires
        !has_key(es, k),
    ensures
        entries_insert(es, k, v) == es.push((k, v)),
    decreases es.len(),
{
    if es.len() > 0 {
        let t = es.drop_first();
        assert(!has_key(t, k)) by {
            if has_key(t, k) {
                let i = choose|i: int| 0 <= i < t.len() && t[i].0 == k;
                assert(es[i + 1].0 == k);
            }
        }
        assert(es[0].0 != k);
        lemma_insert_new_key(t, k, v);
        assert(seq![es[0]] + t.push((k, v)) =~= es.push((k, v)));
    }
}

/// A document literal with distinct keys holds exactly its pairs, in order.
pub proof fn lemma_doc_of_distinct(pairs: Entries)
    requires
        keys_distinct(pairs),
    ensures
        doc_of(pairs) == pairs,
    decreases pairs.len(),
{
    if pairs.len() > 0 {
        let init = pairs.drop_last();
        assert(keys_distinct(init));
        lemma_doc_of_distinct(init);
        assert(!has_key(init, pairs.last().0)) by {
            if has_key(init, pairs.last().0) {
                let i = choose|i: int| 0 <= i < init.len() && init[i].0 == pairs.last().0;
                assert(pairs[i].0 == pairs[pairs.len() - 1].0);
            }
        }
        lemma_insert_new_key(init, pairs.last().0, pairs.last().1);
        assert(init.push(pairs.last()) =~= pairs);
    }
}

/// Inserting under a key that is there replaces its value in place.
pub proof fn lemma_insert_existing_key(es: Entries, i: int, v: BsonValue)
    requires
        keys_distinct(es),
        0 <= i < es.len(),
    ensures
        entries_insert(es, es[i].0, v) == es.update(i, (es[i].0, v)),
    decreases es.len(),
{
    if i > 0 {
        let t = es.drop_first();
        assert(t[i - 1] == es[i]);
        assert(keys_distinct(t));
        lemma_insert_existing_key(t, i - 1, v);
        assert(seq![es[0]] + t.update(i - 1, (es[i].0, v)) =~= es.update(i, (es[i].0, v)));
    }
}

/// In a document with distinct keys, the key of entry `i` gives its value.
pub proof fn lemma_get_at(es: Entries, i: int)
    requires
        keys_distinct(es),
        0 <= i < es.len(),
    ensures
        entries_get(es, es[i].0) == Some(es[i].1),
    decreases es.len(),
{
    if i > 0 {
        let t = es.drop_first();
        assert(t[i - 1] == es[i]);
        assert(keys_distinct(t));
        lemma_get_at(t, i - 1);
    }
}

/// The value of the last pair with key `k` among `ps`, if any.
pub open spec fn last_value(ps: Entries, k: Seq<char>) -> Option<BsonValue>
    decreases ps.len(),
{
    if ps.len() == 0 {
        None
    } else if ps.last().0 == k {
        Some(ps.last().1)
    } else {
        last_value(ps.drop_last(), k)
    }
}

/// Reading key `k` of the document that inserting `ps` in order builds
/// gives the value of the last pair with that key: a later insert under a
/// key replaces an earlier one, and a key never inserted is absent.
pub proof fn lemma_get_doc_of(ps: Entries, k: Seq<char>)
    ensures
        entries_get(doc_of(ps), k) == last_value(ps, k),
    decreases ps.len(),
{
    if ps.len() > 0 {
        lemma_get_doc_of(ps.drop_last(), k);
        if ps.last().0 == k {
            lemma_get_insert_same(doc_of(ps.drop_last()), k, ps.last().1);
        } else {
            lemma_get_insert_other(doc_of(ps.drop_last()), ps.last().0, ps.last().1, k);
        }
    }
}

/// The last pair with key `k` in `a + b` is the last one in `b` where `b`
/// has one, else the last one in `a`.
pub proof fn lemma_last_value_concat(a: Entries, b: Entries, k: Seq<char>)
    ensures
        last_value(a + b, k) == match last_value(b, k) {
            Some(v) => Some(v),
            None => last_value(a, k),
        },
    decreases b.len(),
{
    if b.len() == 0 {
        assert(a + b =~= a);
    } else {
        assert((a + b).drop_last() =~= a + b.drop_last());
        assert((a + b).last() == b.last());
        lemma_last_value_concat(a, b.drop_last(), k);
    }
}

/// A single pair holds its key only.
pub proof fn lemma_last_value_one(key: Seq<char>, v: BsonValue, k: Seq<char>)
    ensures
        last_value(seq![(key, v)], k) == if key == k {
            Some(v)
        } else {
            None
        },
{
    let one: Entries = seq![(key, v)];
    assert(one.drop_last() =~= Seq::<(Seq<char>, BsonValue)>::empty());
    assert(one.last() == (key, v));
    assert(last_value(one.drop_last(), k) is None);
}

/// Adding a pair at the end makes it the last one of its key.
pub proof fn lemma_last_value_push(ps: Entries, key: Seq<char>, v: BsonValue, k: Seq<char>)
    ensures
        last_value(ps.push((key, v)), k) == if key == k {
            Some(v)
        } else {
            last_value(ps, k)
        },
{
    assert(ps.push((key, v)).drop_last() =~= ps);
}

} // verus!
