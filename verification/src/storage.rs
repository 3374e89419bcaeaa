//! The storage endpoints: a stored file by id, a temporary file, and the
//! signed-in user's storage use.
use crate::bsondoc::{self, num, text, BsonValue, Entries};
use crate::plan::{FindModel, FindQuery, Pipeline, PipelineModel, Plan};
use crate::settings::{no_data, no_data_doc};
use crate::stages::{self, one};
use bson::Document;
use vstd::prelude::*;

verus! {

/// The lookup of stored file `id` (in the storage database).
pub open spec fn media_query(id: Seq<char>) -> FindModel {
    FindModel {
        collection: "annex_inc_storage"@,
        filter: one("_id"@, text(id)),
        projection: None,
        sort: None,
        limit: None,
    }
}

/// The lookup of stored file `id`; this endpoint needs no sign-in.
pub fn plan_media(id: &str) -> (q: FindQuery)
    ensures
        q@ == media_query(id@),
{
    FindQuery {
        collection: "annex_inc_storage",
        filter: stages::single("_id", bsondoc::bson_str(id)),
        projection: None,
        sort: None,
        limit: None,
    }
}

/// The answer about a stored file.
pub enum MediaReply {
    /// 200 with this JSON message.
    Message(Document),
    /// Send the file at `path` inline, under `filename`.
    Serve { path: String, filename: String },
}

/// The model of a `MediaReply`.
pub enum MediaModel {
    Message(Entries),
    Serve { path: Seq<char>, filename: Seq<char> },
}

impl View for MediaReply {
    type V = MediaModel;

    open spec fn view(&self) -> MediaModel {
        match self {
            MediaReply::Message(d) => MediaModel::Message(bsondoc::doc_entries(*d)),
            MediaReply::Serve { path, filename } => MediaModel::Serve {
                path: path@,
                filename: filename@,
            },
        }
    }
}

/// The entries of the file record found, empty where none was found.
pub open spec fn found_entries(found: Option<Document>) -> Entries {
    match found {
        Some(d) => bsondoc::doc_entries(d),
        None => Seq::empty(),
    }
}

/// A file record can be answered: it is empty, or its owner kind `o` is a
/// string and, unless it is `P`, its `name` is a string.
pub open spec fn media_record_ok(es: Entries) -> bool {
    es.len() == 0 || (bsondoc::entries_get(es, "o"@) matches Some(BsonValue::Str(o)) && (o
        != "P"@ ==> bsondoc::entries_get(es, "name"@) matches Some(BsonValue::Str(_))))
}

/// The answer about a file record: `{"msg": "No data found"}` where there is
/// none; a refusal message for a record of kind `P`; else the file of that
/// name under `storage/`.
pub open spec fn media_outcome(es: Entries) -> MediaModel {
    if es.len() == 0 {
        MediaModel::Message(no_data())
    } else if bsondoc::entries_get(es, "o"@) == Some(BsonValue::Str("P"@)) {
        MediaModel::Message(one("msg"@, text("You Are Not Allowed To Access This File"@)))
    } else {
        match bsondoc::entries_get(es, "name"@) {
            Some(BsonValue::Str(n)) => MediaModel::Serve { path: "storage/"@ + n, filename: n },
            _ => MediaModel::Message(Seq::empty()),
        }
    }
}

/// Tells whether `media_reply` can answer about the record found.
pub fn media_record_ok_exec(found: &Option<Document>) -> (r: bool)
    ensures
        r == media_record_ok(found_entries(*found)),
{
    match found {
        None => true,
        Some(d) => {
            if bsondoc::doc_is_empty(d) {
                return true;
            }
            let o = match bsondoc::doc_get(d, "o") {
                Some(b) => bsondoc::bson_as_str(b),
                None => None,
            };
            match o {
                None => false,
                Some(kind) => {
                    if is_p(kind) {
                        true
                    } else {
                        match bsondoc::doc_get(d, "name") {
                            Some(b) => bsondoc::bson_as_str(b).is_some(),
                            None => false,
                        }
                    }
                },
            }
        },
    }
}

fn is_p(s: &str) -> (r: bool)
    ensures
        r == (s@ == "P"@),
{
    proof {
        reveal_strlit("P");
    }
    if s.unicode_len() != 1 {
        return false;
    }
    let c = s.get_char(0);
    assert(c == 'P' ==> s@ =~= "P"@);
    c == 'P'
}

/// The answer about the file record found (`None` where none was found).
pub fn media_reply(found: Option<Document>) -> (r: MediaReply)
    requires
        media_record_ok(found_entries(found)),
    ensures
        r@ == media_outcome(found_entries(found)),
{
    let d = match found {
        Some(d) => d,
        None => bsondoc::doc_new(),
    };
    if bsondoc::doc_is_empty(&d) {
        return MediaReply::Message(no_data_doc());
    }
    let kind = match bsondoc::doc_get(&d, "o") {
        Some(b) => bsondoc::bson_as_str(b),
        None => None,
    };
    let refused = match kind {
        Some(k) => is_p(k),
        None => false,
    };
    if refused {
        return MediaReply::Message(
            stages::single("msg", bsondoc::bson_str("You Are Not Allowed To Access This File")),
        );
    }
    let name = match bsondoc::doc_get(&d, "name") {
        Some(b) => match bsondoc::bson_as_str(b) {
            Some(n) => n,
            None => "",
        },
        None => "",
    };
    let mut path = String::from_str("storage/");
    path.append(name);
    MediaReply::Serve { path, filename: String::from_str(name) }
}

/// The path of temporary file `id`: `storage/temp/id`.
pub fn temp_media_path(id: &str) -> (p: String)
    ensures
        p@ == "storage/temp/"@ + id@,
{
    let mut p = String::from_str("storage/temp/");
    p.append(id);
    p
}

/// The storage use of the signed-in user: the sizes `s` of their files,
/// summed by owner kind `o`.
pub open spec fn storage_info_pipeline(user_id: Seq<char>) -> Seq<Entries> {
    seq![
        one("$match"@, bsondoc::obj(seq![("u_id"@, text(user_id))])),
        one(
            "$group"@,
            bsondoc::obj(
                seq![
                    ("_id"@, text("$o"@)),
                    ("count"@, bsondoc::obj(seq![("$sum"@, text("$s"@))])),
                ],
            ),
        ),
    ]
}

/// The storage-use request: refused unless signed in, else the storage
/// pipeline (in the storage database).
pub fn plan_storage_info(auth: &(bool, String)) -> (r: Plan<Pipeline>)
    ensures
        !auth.0 ==> r is Unauthorized,
        auth.0 ==> (r matches Plan::Run(pl) && pl@ == PipelineModel {
            collection: "annex_inc_storage"@,
            stages: storage_info_pipeline(auth.1@),
        }),
{
    if !auth.0 {
        return Plan::Unauthorized;
    }
    let uid = auth.1.as_str();
    let g = vec![
        ("_id", bsondoc::bson_str("$o")),
        ("count", stages::single_bson("$sum", bsondoc::bson_str("$s"))),
    ];
    let ghost gg = g@;
    let g_b = bsondoc::obj_bson(g);
    assert(bsondoc::pairs_model(gg) =~= seq![
        ("_id"@, text("$o"@)),
        ("count"@, bsondoc::obj(seq![("$sum"@, text("$s"@))])),
    ]);
    let v = vec![
        stages::single("$match", stages::single_bson("u_id", bsondoc::bson_str(uid))),
        stages::single("$group", g_b),
    ];
    let ghost gv = v@;
    assert(gv.map_values(|d: Document| bsondoc::doc_entries(d)) =~= storage_info_pipeline(uid@));
    Plan::Run(Pipeline { collection: "annex_inc_storage", stages: v })
}

/// The storage summary before any group is read: all four figures 0.
pub open spec fn info_start() -> Entries {
    bsondoc::flags(seq!["public", "private", "total", "available"], 0)
}

/// The storage summary before any group is read.
pub fn storage_info_start() -> (d: Document)
    ensures
        bsondoc::doc_entries(d) == info_start(),
{
    bsondoc::flag_doc(vec!["public", "private", "total", "available"], 0)
}

/// A group can be read: its `_id` is a string and it has a `count`.
pub open spec fn group_ok(g: Entries) -> bool {
    &&& bsondoc::entries_get(g, "_id"@) matches Some(BsonValue::Str(_))
    &&& bsondoc::entries_get(g, "count"@) is Some
}

/// Reading a group: its count becomes the `public` figure for kind `P`
/// and the `private` figure for any other kind.
pub open spec fn info_add(data: Entries, g: Entries) -> Entries {
    let key = if bsondoc::entries_get(g, "_id"@) == Some(BsonValue::Str("P"@)) {
        "public"@
    } else {
        "private"@
    };
    bsondoc::entries_insert(data, key, bsondoc::entries_get(g, "count"@).unwrap())
}

/// Tells whether `storage_info_add` can read the group.
pub fn storage_group_ok(g: &Document) -> (r: bool)
    ensures
        r == group_ok(bsondoc::doc_entries(*g)),
{
    let id_ok = match bsondoc::doc_get(g, "_id") {
        Some(b) => bsondoc::bson_as_str(b).is_some(),
        None => false,
    };
    id_ok && bsondoc::doc_get(g, "count").is_some()
}

/// Reads one group of the storage pipeline's result into the summary.
pub fn storage_info_add(data: &mut Document, group: &Document)
    requires
        group_ok(bsondoc::doc_entries(*group)),
    ensures
        bsondoc::doc_entries(*final(data)) == info_add(
            bsondoc::doc_entries(*old(data)),
            bsondoc::doc_entries(*group),
        ),
{
    let public = match bsondoc::doc_get(group, "_id") {
        Some(b) => match bsondoc::bson_as_str(b) {
            Some(k) => is_p(k),
            None => false,
        },
        None => false,
    };
    let count = match bsondoc::doc_get(group, "count") {
        Some(c) => bsondoc::bson_clone(c),
        None => bsondoc::bson_i32(0),
    };
    if public {
        bsondoc::doc_insert(data, "public", count);
    } else {
        bsondoc::doc_insert(data, "private", count);
    }
}

/// The total space of a user, 1 GiB.
pub const STORAGE_QUOTA: i32 = 1073741824;

/// The summary can be completed: `public` and `private` are 32-bit
/// integers whose sum, and the quota less that sum, fit an `i32`.
pub open spec fn totals_ok(data: Entries) -> bool {
    match (bsondoc::entries_get(data, "public"@), bsondoc::entries_get(data, "private"@)) {
        (Some(BsonValue::Int32(p)), Some(BsonValue::Int32(q))) => i32::MIN <= p + q <= i32::MAX
            && i32::MIN <= STORAGE_QUOTA - (p + q) <= i32::MAX,
        _ => false,
    }
}

/// Completing the summary: `total` is `public` plus `private`, and
/// `available` is the quota less `total`.
pub open spec fn info_totals(data: Entries) -> Entries {
    match (bsondoc::entries_get(data, "public"@), bsondoc::entries_get(data, "private"@)) {
        (Some(BsonValue::Int32(p)), Some(BsonValue::Int32(q))) => bsondoc::entries_insert(
            bsondoc::entries_insert(data, "total"@, num((p + q) as i32)),
            "available"@,
            num((STORAGE_QUOTA - (p + q)) as i32),
        ),
        _ => data,
    }
}

/// Tells whether `storage_info_finish` can complete the summary.
pub fn storage_totals_ok(data: &Document) -> (r: bool)
    ensures
        r == totals_ok(bsondoc::doc_entries(*data)),
{
    let p = match bsondoc::doc_get(data, "public") {
        Some(b) => bsondoc::bson_as_i32(b),
        None => None,
    };
    let q = match bsondoc::doc_get(data, "private") {
        Some(b) => bsondoc::bson_as_i32(b),
        None => None,
    };
    match (p, q) {
        (Some(p), Some(q)) => {
            let sum: i64 = p as i64 + q as i64;
            sum >= i32::MIN as i64 && sum <= i32::MAX as i64 && STORAGE_QUOTA as i64 - sum
                >= i32::MIN as i64 && STORAGE_QUOTA as i64 - sum <= i32::MAX as i64
        },
        _ => false,
    }
}

/// Completes the summary with its `total` and `available` figures.
pub fn storage_info_finish(data: &mut Document)
    requires
        totals_ok(bsondoc::doc_entries(*old(data))),
    ensures
        bsondoc::doc_entries(*final(data)) == info_totals(bsondoc::doc_entries(*old(data))),
{
    let p = match bsondoc::doc_get(data, "public") {
        Some(b) => match bsondoc::bson_as_i32(b) {
            Some(x) => x,
            None => 0,
        },
        None => 0,
    };
    let q = match bsondoc::doc_get(data, "private") {
        Some(b) => match bsondoc::bson_as_i32(b) {
            Some(x) => x,
            None => 0,
        },
        None => 0,
    };
    let total = p + q;
    bsondoc::doc_insert(data, "total", bsondoc::bson_i32(total));
    bsondoc::doc_insert(data, "available", bsondoc::bson_i32(STORAGE_QUOTA - total));
}

/// The storage summary lists `public`, `private`, `total` and `available`,
/// in this order.
pub open spec fn summary_shape(es: Entries) -> bool {
    &&& es.len() == 4
    &&& es[0].0 == "public"@
    &&& es[1].0 == "private"@
    &&& es[2].0 == "total"@
    &&& es[3].0 == "available"@
}

proof fn lemma_summary_keys_distinct(es: Entries)
    requires
        summary_shape(es),
    ensures
        bsondoc::keys_distinct(es),
{
    reveal_strlit("public");
    reveal_strlit("private");
    reveal_strlit("total");
    reveal_strlit("available");
    assert("public"@.len() == 6 && "private"@.len() == 7 && "total"@.len() == 5
        && "available"@.len() == 9);
    assert forall|i: int, j: int| 0 <= i < j < es.len() implies es[i].0 != es[j].0 by {
        assert(es[i].0.len() != es[j].0.len());
    }
}

/// The storage summary keeps its four figures in their order from start to
/// end: it starts with them, reading a group keeps them, and completing it
/// keeps them; once completed, `total` is `public` plus `private`, and
/// `total` plus `available` is the quota.
pub proof fn lemma_storage_summary(data: Entries, g: Entries)
    ensures
        summary_shape(info_start()),
        summary_shape(data) && group_ok(g) ==> summary_shape(info_add(data, g)),
        summary_shape(data) && totals_ok(data) ==> ({
            let done = info_totals(data);
            &&& summary_shape(done)
            &&& done[0] == data[0]
            &&& done[1] == data[1]
            &&& (data[0].1 matches BsonValue::Int32(p) && data[1].1 matches BsonValue::Int32(q)
                && done[2].1 == BsonValue::Int32((p + q) as i32) && done[3].1 == BsonValue::Int32(
                (STORAGE_QUOTA - (p + q)) as i32))
        }),
{
    reveal_strlit("public");
    reveal_strlit("private");
    reveal_strlit("total");
    reveal_strlit("available");
    let start = info_start();
    let ks = seq!["public", "private", "total", "available"];
    let m = ks.map_values(|k: &str| (k@, BsonValue::Int32(0)));
    assert(m =~= seq![
        ("public"@, BsonValue::Int32(0)),
        ("private"@, BsonValue::Int32(0)),
        ("total"@, BsonValue::Int32(0)),
        ("available"@, BsonValue::Int32(0)),
    ]);
    lemma_summary_keys_distinct(m);
    bsondoc::lemma_doc_of_distinct(m);
    assert(summary_shape(start));
    if summary_shape(data) && group_ok(g) {
        lemma_summary_keys_distinct(data);
        let c = bsondoc::entries_get(g, "count"@).unwrap();
        if bsondoc::entries_get(g, "_id"@) == Some(BsonValue::Str("P"@)) {
            bsondoc::lemma_insert_existing_key(data, 0, c);
        } else {
            bsondoc::lemma_insert_existing_key(data, 1, c);
        }
    }
    if summary_shape(data) && totals_ok(data) {
        lemma_summary_keys_distinct(data);
        bsondoc::lemma_get_at(data, 0);
        bsondoc::lemma_get_at(data, 1);
        let p = data[0].1->Int32_0;
        let q = data[1].1->Int32_0;
        let t = num((p + q) as i32);
        let a = num((STORAGE_QUOTA - (p + q)) as i32);
        bsondoc::lemma_insert_existing_key(data, 2, t);
        let d1 = data.update(2, ("total"@, t));
        lemma_summary_keys_distinct(d1);
        bsondoc::lemma_insert_existing_key(d1, 3, a);
    }
}

/// Which file a record is answered with: a non-empty record that is not of
/// kind `P` and holds a string `name` is served from `storage/<name>`
/// under that same name, whatever else (its id among them) it holds; a
/// record of kind `P` is refused; no record, or an empty one, answers
/// `No data found`. Whatever is served is the record's `name` under
/// `storage/`.
pub proof fn lemma_media_served_by_name(es: Entries)
    ensures
        es.len() == 0 ==> media_outcome(es) == MediaModel::Message(no_data()),
        es.len() > 0 && bsondoc::entries_get(es, "o"@) == Some(BsonValue::Str("P"@))
            ==> media_outcome(es) == MediaModel::Message(
            one("msg"@, text("You Are Not Allowed To Access This File"@)),
        ),
        es.len() > 0 && bsondoc::entries_get(es, "o"@) != Some(BsonValue::Str("P"@)) ==> (
        bsondoc::entries_get(es, "name"@) matches Some(BsonValue::Str(n)) ==> media_outcome(es)
            == (MediaModel::Serve { path: "storage/"@ + n, filename: n })),
        media_outcome(es) matches MediaModel::Serve { path, filename } ==> path == "storage/"@
            + filename && bsondoc::entries_get(es, "name"@) == Some(BsonValue::Str(filename)),
{
}

} // verus!
