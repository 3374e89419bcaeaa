//! Building blocks of the filters and pipeline stages that the endpoints
//! send: one-key stages, case-insensitive regex matches, and pages.
use crate::bsondoc::{self, BsonValue, Entries};
use bson::{Bson, Document};
use vstd::prelude::*;

verus! {

/// A document with the single entry `(key, v)`.
pub open spec fn one(key: Seq<char>, v: BsonValue) -> Entries {
    bsondoc::doc_of(seq![(key, v)])
}

/// The case-insensitive regex match `{"$regex": pattern, "$options": "i"}`.
pub open spec fn regex_i(pattern: Seq<char>) -> BsonValue {
    bsondoc::obj(
        seq![("$regex"@, BsonValue::Str(pattern)), ("$options"@, BsonValue::Str("i"@))],
    )
}

/// The page of a `$facet`: `[{"$skip": skip}, {"$limit": limit}]`.
pub open spec fn page_value(skip: i32, limit: i32) -> BsonValue {
    BsonValue::Array(
        seq![
            BsonValue::Document(one("$skip"@, BsonValue::Int32(skip))),
            BsonValue::Document(one("$limit"@, BsonValue::Int32(limit))),
        ],
    )
}

/// The total count of a `$facet`: `[{"$count": "total"}]`.
pub open spec fn count_value() -> BsonValue {
    BsonValue::Array(seq![BsonValue::Document(one("$count"@, BsonValue::Str("total"@)))])
}

/// The document `{key: v}`.
pub fn single(key: &str, v: Bson) -> (d: Document)
    ensures
        bsondoc::doc_entries(d) == one(key@, bsondoc::bson_value(v)),
{
    let ghost gv = v;
    let pairs = vec![(key, v)];
    let ghost gp = pairs@;
    let d = bsondoc::make_doc(pairs);
    assert(bsondoc::pairs_model(gp) =~= seq![(key@, bsondoc::bson_value(gv))]);
    d
}

/// The BSON value `{key: v}`.
pub fn single_bson(key: &str, v: Bson) -> (b: Bson)
    ensures
        bsondoc::bson_value(b) == BsonValue::Document(one(key@, bsondoc::bson_value(v))),
{
    bsondoc::bson_doc(single(key, v))
}

/// `{"$regex": pattern, "$options": "i"}`.
pub fn regex_i_bson(pattern: &str) -> (b: Bson)
    ensures
        bsondoc::bson_value(b) == regex_i(pattern@),
{
    let pairs = vec![("$regex", bsondoc::bson_str(pattern)), ("$options", bsondoc::bson_str("i"))];
    let ghost gp = pairs@;
    let b = bsondoc::obj_bson(pairs);
    assert(bsondoc::pairs_model(gp) =~= seq![
        ("$regex"@, BsonValue::Str(pattern@)),
        ("$options"@, BsonValue::Str("i"@)),
    ]);
    b
}

/// `[{"$skip": skip}, {"$limit": limit}]`.
pub fn page_bson(skip: i32, limit: i32) -> (b: Bson)
    ensures
        bsondoc::bson_value(b) == page_value(skip, limit),
{
    let v = vec![
        single_bson("$skip", bsondoc::bson_i32(skip)),
        single_bson("$limit", bsondoc::bson_i32(limit)),
    ];
    let ghost gv = v@;
    let b = bsondoc::bson_array(v);
    assert(gv.map_values(|x: Bson| bsondoc::bson_value(x)) =~= seq![
        BsonValue::Document(one("$skip"@, BsonValue::Int32(skip))),
        BsonValue::Document(one("$limit"@, BsonValue::Int32(limit))),
    ]);
    b
}

/// `[{"$count": "total"}]`.
pub fn count_bson() -> (b: Bson)
    ensures
        bsondoc::bson_value(b) == count_value(),
{
    let v = vec![single_bson("$count", bsondoc::bson_str("total"))];
    let ghost gv = v@;
    let b = bsondoc::bson_array(v);
    assert(gv.map_values(|x: Bson| bsondoc::bson_value(x)) =~= seq![
        BsonValue::Document(one("$count"@, BsonValue::Str("total"@))),
    ]);
    b
}

/// The skip of page `p` of `l` items, `(p - 1) * l`, where it fits an `i32`.
pub open spec fn page_skip(p: i32, l: i32) -> int {
    (p - 1) * l
}

/// The page and page size that a request asks for: page 1 and 10 items
/// where it does not say.
pub open spec fn page_or_default(p: Option<i32>, l: Option<i32>) -> (i32, i32) {
    (
        match p {
            Some(x) => x,
            None => 1,
        },
        match l {
            Some(x) => x,
            None => 10,
        },
    )
}

/// The page that `p` and `l` ask for can be computed without overflow:
/// `p - 1` and `(p - 1) * l` fit an `i32`.
pub open spec fn page_fits(p: Option<i32>, l: Option<i32>) -> bool {
    let (pp, ll) = page_or_default(p, l);
    i32::MIN <= pp - 1 && i32::MIN <= page_skip(pp, ll) <= i32::MAX
}

/// The entry `(key, v)` where there is a value, and nothing otherwise.
pub open spec fn opt_entry(key: Seq<char>, v: Option<BsonValue>) -> Entries {
    match v {
        Some(x) => seq![(key, x)],
        None => Seq::empty(),
    }
}

/// An optional entry holds its key with its value where there is one, and
/// no other key.
pub proof fn lemma_last_value_opt_entry(key: Seq<char>, v: Option<BsonValue>, k: Seq<char>)
    ensures
        bsondoc::last_value(opt_entry(key, v), k) == if key == k {
            v
        } else {
            None
        },
{
    match v {
        Some(x) => bsondoc::lemma_last_value_one(key, x, k),
        None => {},
    }
}

/// The skip and limit of the page that `p` and `l` ask for (page 1 and
/// 10 items by default), or `None` where `p - 1` or the skip `(p - 1) * l`
/// does not fit an `i32`.
pub fn page_window(p: Option<i32>, l: Option<i32>) -> (r: Option<(i32, i32)>)
    ensures
        ({
            let (pp, ll) = page_or_default(p, l);
            match r {
                Some(w) => page_fits(p, l) && w.0 == page_skip(pp, ll) && w.1 == ll,
                None => !page_fits(p, l),
            }
        }),
{
    let pp: i32 = match p {
        Some(x) => x,
        None => 1,
    };
    let ll: i32 = match l {
        Some(x) => x,
        None => 10,
    };
    let wide: i64 = pp as i64 - 1;
    if wide < i32::MIN as i64 {
        return None;
    }
    assert(-0x1_0000_0000_0000_0000 <= (wide as int) * (ll as int) <= 0x1_0000_0000_0000_0000)
        by (nonlinear_arith)
        requires
            -0x1_0000_0000 <= wide <= 0x1_0000_0000,
            -0x1_0000_0000 <= ll <= 0x1_0000_0000,
    ;
    let prod: i128 = (wide as i128) * (ll as i128);
    if prod < i32::MIN as i128 || prod > i32::MAX as i128 {
        return None;
    }
    Some((prod as i32, ll))
}

/// The page and page size of a search that counts them in `i16`: page 1
/// and 10 items where it does not say.
pub open spec fn small_page_or_default(p: Option<i16>, l: Option<i16>) -> (i16, i16) {
    (
        match p {
            Some(x) => x,
            None => 1,
        },
        match l {
            Some(x) => x,
            None => 10,
        },
    )
}

/// The `i16` page can be computed without overflow: `p - 1` and
/// `(p - 1) * l` fit an `i16`.
pub open spec fn small_page_fits(p: Option<i16>, l: Option<i16>) -> bool {
    let (pp, ll) = small_page_or_default(p, l);
    i16::MIN <= pp - 1 && i16::MIN <= (pp - 1) * ll <= i16::MAX
}

/// The skip `(p - 1) * l` and limit `l` of an `i16` page (page 1 and 10
/// items by default), as 32-bit BSON integers take them, or `None` where the
/// skip does not fit an `i16`.
pub fn small_page_window(p: Option<i16>, l: Option<i16>) -> (r: Option<(i32, i32)>)
    ensures
        ({
            let (pp, ll) = small_page_or_default(p, l);
            match r {
                Some(w) => small_page_fits(p, l) && w.0 == (pp - 1) * ll && w.1 == ll,
                None => !small_page_fits(p, l),
            }
        }),
{
    let pp: i16 = match p {
        Some(x) => x,
        None => 1,
    };
    let ll: i16 = match l {
        Some(x) => x,
        None => 10,
    };
    let wide: i32 = pp as i32 - 1;
    if wide < i16::MIN as i32 {
        return None;
    }
    assert(-0x1_0000_0000 <= (wide as int) * (ll as int) <= 0x1_0000_0000) by (nonlinear_arith)
        requires
            -0x1_0000 <= wide <= 0x1_0000,
            -0x1_0000 <= ll <= 0x1_0000,
    ;
    let prod: i64 = (wide as i64) * (ll as i64);
    if prod < i16::MIN as i64 || prod > i16::MAX as i64 {
        return None;
    }
    Some((prod as i32, ll as i32))
}

/// Paging: a search that names no page and no size shows page 1 of 10
/// items; page 1 skips nothing, and each next page skips `l` more items
/// than the one before.
pub proof fn lemma_pages_are_consecutive(p: i32, l: i32)
    ensures
        page_or_default(None, None) == (1i32, 10i32),
        page_or_default(Some(p), Some(l)) == (p, l),
        page_skip(1, l) == 0,
        p < i32::MAX ==> page_skip((p + 1) as i32, l) == page_skip(p, l) + l,
{
    assert((p + 1 - 1) * l == (p - 1) * l + l) by (nonlinear_arith);
}

} // verus!
