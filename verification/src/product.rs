//! The product endpoints: the product categories and the product search.
use crate::bsondoc::{self, num, text, BsonValue, Entries};
use crate::plan::{Pipeline, PipelineModel, Plan};
use crate::stages::{self, one};
use bson::{Bson, Document};
use vstd::prelude::*;

verus! {

/// The category list: the distinct `comm` of the signed-in user's
/// categories that are not deleted, each as `{"name": comm}`.
pub open spec fn category_pipeline(user_id: Seq<char>) -> Seq<Entries> {
    seq![
        one(
            "$match"@,
            bsondoc::obj(seq![("is_del"@, BsonValue::Boolean(false)), ("u_id"@, text(user_id))]),
        ),
        one("$group"@, bsondoc::obj(seq![("_id"@, text("$comm"@))])),
        one("$project"@, bsondoc::obj(seq![("_id"@, num(0)), ("name"@, text("$_id"@))])),
    ]
}

/// The category list: refused unless signed in, else the category pipeline.
pub fn plan_categories(auth: &(bool, String)) -> (r: Plan<Pipeline>)
    ensures
        !auth.0 ==> r is Unauthorized,
        auth.0 ==> (r matches Plan::Run(pl) && pl@ == PipelineModel {
            collection: "annex_inc_category"@,
            stages: category_pipeline(auth.1@),
        }),
{
    if !auth.0 {
        return Plan::Unauthorized;
    }
    let uid = auth.1.as_str();
    let m = vec![("is_del", bsondoc::bson_bool(false)), ("u_id", bsondoc::bson_str(uid))];
    let ghost gm = m@;
    let m_b = bsondoc::obj_bson(m);
    assert(bsondoc::pairs_model(gm) =~= seq![
        ("is_del"@, BsonValue::Boolean(false)),
        ("u_id"@, text(uid@)),
    ]);
    let pr = vec![("_id", bsondoc::bson_i32(0)), ("name", bsondoc::bson_str("$_id"))];
    let ghost gpr = pr@;
    let pr_b = bsondoc::obj_bson(pr);
    assert(bsondoc::pairs_model(gpr) =~= seq![("_id"@, num(0)), ("name"@, text("$_id"@))]);
    let v = vec![
        stages::single("$match", m_b),
        stages::single("$group", stages::single_bson("_id", bsondoc::bson_str("$comm"))),
        stages::single("$project", pr_b),
    ];
    let ghost gv = v@;
    assert(gv.map_values(|d: Document| bsondoc::doc_entries(d)) =~= category_pipeline(uid@));
    Plan::Run(Pipeline { collection: "annex_inc_category", stages: v })
}

/// A product search: the name and mark to match (ignoring case), the
/// bounds on the touch of an item (the request's numbers as BSON values),
/// and the page.
pub struct ProductSearch {
    pub name: Option<String>,
    pub tch_from: Option<Bson>,
    pub tch_to: Option<Bson>,
    pub mark: Option<String>,
    pub p: Option<i32>,
    pub l: Option<i32>,
}

/// The model of an optional BSON value.
pub open spec fn opt_value(b: Option<Bson>) -> Option<BsonValue> {
    match b {
        Some(x) => Some(bsondoc::bson_value(x)),
        None => None,
    }
}

/// The pairs that start a product filter, as written: `is_del` twice.
pub open spec fn product_base(user_id: Seq<char>) -> Entries {
    seq![
        ("is_del"@, BsonValue::Boolean(false)),
        ("is_act"@, BsonValue::Boolean(true)),
        ("is_del"@, BsonValue::Boolean(false)),
        ("is_selb"@, BsonValue::Boolean(true)),
        ("u_id"@, text(user_id)),
    ]
}

/// The products of the signed-in user that a search selects: not deleted,
/// active and sellable; where the search says so, with a name and a mark
/// matching (ignoring case) and an item touch of at least `from`, then of
/// at most `to` (both set `itm.tch`, so the second replaces the first).
pub open spec fn product_filter(
    user_id: Seq<char>,
    name: Option<Seq<char>>,
    from: Option<BsonValue>,
    to: Option<BsonValue>,
    mark: Option<Seq<char>>,
) -> Entries {
    bsondoc::doc_of(
        product_base(user_id) + stages::opt_entry(
            "name"@,
            match name {
                Some(n) => Some(stages::regex_i(n)),
                None => None,
            },
        ) + stages::opt_entry(
            "itm.tch"@,
            match from {
                Some(v) => Some(bsondoc::obj(seq![("$gte"@, v)])),
                None => None,
            },
        ) + stages::opt_entry(
            "itm.tch"@,
            match to {
                Some(v) => Some(bsondoc::obj(seq![("$lte"@, v)])),
                None => None,
            },
        ) + stages::opt_entry(
            "mark"@,
            match mark {
                Some(m) => Some(stages::regex_i(m)),
                None => None,
            },
        ),
    )
}

/// The product search: the selected products, one row per touch of each
/// item, by decreasing touch and stock, with their prices and taxes, as one
/// page of `limit` after `skip`, with the total count.
pub open spec fn product_search_pipeline(filter: Entries, skip: i32, limit: i32) -> Seq<Entries> {
    seq![
        one("$match"@, BsonValue::Document(filter)),
        one(
            "$unwind"@,
            bsondoc::obj(
                seq![("path"@, text("$itm"@)), ("preserveNullAndEmptyArrays"@, BsonValue::Boolean(true))],
            ),
        ),
        one(
            "$unwind"@,
            bsondoc::obj(
                seq![
                    ("path"@, text("$itm.tch"@)),
                    ("preserveNullAndEmptyArrays"@, BsonValue::Boolean(true)),
                ],
            ),
        ),
        one("$sort"@, bsondoc::obj(seq![("tch"@, num(-1i32)), ("op_s"@, num(-1i32))])),
        one(
            "$project"@,
            bsondoc::obj(
                seq![
                    ("_id"@, num(0)),
                    ("count"@, text("$total"@)),
                    ("id"@, text("$_id"@)),
                    ("name"@, num(1)),
                    ("mark"@, num(1)),
                    ("tch"@, text("$itm.tch"@)),
                    ("op_s"@, text("$itm.wgt"@)),
                    ("sl_w"@, num(1)),
                    ("prs_w"@, num(1)),
                    ("sl_r"@, num(1)),
                    ("prs_r"@, num(1)),
                    ("gst"@, num(1)),
                    ("hsn"@, num(1)),
                    ("tx"@, num(1)),
                ],
            ),
        ),
        one(
            "$facet"@,
            bsondoc::obj(
                seq![("data"@, stages::page_value(skip, limit)), ("metadata"@, stages::count_value())],
            ),
        ),
    ]
}

fn bound_bson(op: &str, v: Bson) -> (b: Bson)
    ensures
        bsondoc::bson_value(b) == bsondoc::obj(seq![(op@, bsondoc::bson_value(v))]),
{
    let ghost gv = v;
    let b = stages::single_bson(op, v);
    assert(stages::one(op@, bsondoc::bson_value(gv)) =~= bsondoc::doc_of(
        seq![(op@, bsondoc::bson_value(gv))],
    ));
    b
}

fn product_filter_doc(user_id: &str, body: ProductSearch) -> (d: Document)
    ensures
        bsondoc::doc_entries(d) == product_filter(
            user_id@,
            crate::plan::opt_view(body.name),
            opt_value(body.tch_from),
            opt_value(body.tch_to),
            crate::plan::opt_view(body.mark),
        ),
{
    let ghost gbody = body;
    let pairs = vec![
        ("is_del", bsondoc::bson_bool(false)),
        ("is_act", bsondoc::bson_bool(true)),
        ("is_del", bsondoc::bson_bool(false)),
        ("is_selb", bsondoc::bson_bool(true)),
        ("u_id", bsondoc::bson_str(user_id)),
    ];
    let ghost gp = pairs@;
    let mut q = bsondoc::make_doc(pairs);
    let ghost base = product_base(user_id@);
    assert(bsondoc::pairs_model(gp) =~= base);
    let ghost mut acc = base;
    let ProductSearch { name, tch_from, tch_to, mark, p: _, l: _ } = body;
    let ghost e1 = stages::opt_entry(
        "name"@,
        match crate::plan::opt_view(gbody.name) {
            Some(n) => Some(stages::regex_i(n)),
            None => None,
        },
    );
    if let Some(n) = &name {
        bsondoc::doc_insert(&mut q, "name", stages::regex_i_bson(n.as_str()));
        proof {
            bsondoc::lemma_doc_of_push(acc, "name"@, stages::regex_i(n@));
            acc = acc.push(("name"@, stages::regex_i(n@)));
        }
    }
    assert(acc =~= base + e1);
    let ghost e2 = stages::opt_entry(
        "itm.tch"@,
        match opt_value(gbody.tch_from) {
            Some(v) => Some(bsondoc::obj(seq![("$gte"@, v)])),
            None => None,
        },
    );
    if let Some(f) = tch_from {
        let ghost gf = f;
        bsondoc::doc_insert(&mut q, "itm.tch", bound_bson("$gte", f));
        proof {
            let x = bsondoc::obj(seq![("$gte"@, bsondoc::bson_value(gf))]);
            bsondoc::lemma_doc_of_push(acc, "itm.tch"@, x);
            acc = acc.push(("itm.tch"@, x));
        }
    }
    assert(acc =~= base + e1 + e2);
    let ghost e3 = stages::opt_entry(
        "itm.tch"@,
        match opt_value(gbody.tch_to) {
            Some(v) => Some(bsondoc::obj(seq![("$lte"@, v)])),
            None => None,
        },
    );
    if let Some(t) = tch_to {
        let ghost gt = t;
        bsondoc::doc_insert(&mut q, "itm.tch", bound_bson("$lte", t));
        proof {
            let x = bsondoc::obj(seq![("$lte"@, bsondoc::bson_value(gt))]);
            bsondoc::lemma_doc_of_push(acc, "itm.tch"@, x);
            acc = acc.push(("itm.tch"@, x));
        }
    }
    assert(acc =~= base + e1 + e2 + e3);
    let ghost e4 = stages::opt_entry(
        "mark"@,
        match crate::plan::opt_view(gbody.mark) {
            Some(m) => Some(stages::regex_i(m)),
            None => None,
        },
    );
    if let Some(m) = &mark {
        bsondoc::doc_insert(&mut q, "mark", stages::regex_i_bson(m.as_str()));
        proof {
            bsondoc::lemma_doc_of_push(acc, "mark"@, stages::regex_i(m@));
            acc = acc.push(("mark"@, stages::regex_i(m@)));
        }
    }
    assert(acc =~= base + e1 + e2 + e3 + e4);
    q
}

fn product_project_bson() -> (b: Bson)
    ensures
        bsondoc::bson_value(b) == bsondoc::obj(
            seq![
                ("_id"@, num(0)),
                ("count"@, text("$total"@)),
                ("id"@, text("$_id"@)),
                ("name"@, num(1)),
                ("mark"@, num(1)),
                ("tch"@, text("$itm.tch"@)),
                ("op_s"@, text("$itm.wgt"@)),
                ("sl_w"@, num(1)),
                ("prs_w"@, num(1)),
                ("sl_r"@, num(1)),
                ("prs_r"@, num(1)),
                ("gst"@, num(1)),
                ("hsn"@, num(1)),
                ("tx"@, num(1)),
            ],
        ),
{
    let pr = vec![
        ("_id", bsondoc::bson_i32(0)),
        ("count", bsondoc::bson_str("$total")),
        ("id", bsondoc::bson_str("$_id")),
        ("name", bsondoc::bson_i32(1)),
        ("mark", bsondoc::bson_i32(1)),
        ("tch", bsondoc::bson_str("$itm.tch")),
        ("op_s", bsondoc::bson_str("$itm.wgt")),
        ("sl_w", bsondoc::bson_i32(1)),
        ("prs_w", bsondoc::bson_i32(1)),
        ("sl_r", bsondoc::bson_i32(1)),
        ("prs_r", bsondoc::bson_i32(1)),
        ("gst", bsondoc::bson_i32(1)),
        ("hsn", bsondoc::bson_i32(1)),
        ("tx", bsondoc::bson_i32(1)),
    ];
    let ghost gpr = pr@;
    let b = bsondoc::obj_bson(pr);
    assert(bsondoc::pairs_model(gpr) =~= seq![
        ("_id"@, num(0)),
        ("count"@, text("$total"@)),
        ("id"@, text("$_id"@)),
        ("name"@, num(1)),
        ("mark"@, num(1)),
        ("tch"@, text("$itm.tch"@)),
        ("op_s"@, text("$itm.wgt"@)),
        ("sl_w"@, num(1)),
        ("prs_w"@, num(1)),
        ("sl_r"@, num(1)),
        ("prs_r"@, num(1)),
        ("gst"@, num(1)),
        ("hsn"@, num(1)),
        ("tx"@, num(1)),
    ]);
    b
}

fn unwind_bson(path: &str) -> (b: Bson)
    ensures
        bsondoc::bson_value(b) == bsondoc::obj(
            seq![("path"@, text(path@)), ("preserveNullAndEmptyArrays"@, BsonValue::Boolean(true))],
        ),
{
    let u = vec![("path", bsondoc::bson_str(path)), ("preserveNullAndEmptyArrays", bsondoc::bson_bool(true))];
    let ghost gu = u@;
    let b = bsondoc::obj_bson(u);
    assert(bsondoc::pairs_model(gu) =~= seq![
        ("path"@, text(path@)),
        ("preserveNullAndEmptyArrays"@, BsonValue::Boolean(true)),
    ]);
    b
}

/// The product search: refused unless signed in, else the search pipeline
/// on the signed-in user's products, page `p` (default 1) of `l` (default
/// 10). For a signed-in caller the page must be computable without overflow (see
/// `stages::page_window`).
pub fn plan_product_search(auth: &(bool, String), body: ProductSearch) -> (r: Plan<Pipeline>)
    requires
        auth.0 ==> stages::page_fits(body.p, body.l),
    ensures
        !auth.0 ==> r is Unauthorized,
        auth.0 ==> (r matches Plan::Run(pl) && pl@ == PipelineModel {
            collection: "annex_inc_products"@,
            stages: product_search_pipeline(
                product_filter(
                    auth.1@,
                    crate::plan::opt_view(body.name),
                    opt_value(body.tch_from),
                    opt_value(body.tch_to),
                    crate::plan::opt_view(body.mark),
                ),
                stages::page_skip(
                    stages::page_or_default(body.p, body.l).0,
                    stages::page_or_default(body.p, body.l).1,
                ) as i32,
                stages::page_or_default(body.p, body.l).1,
            ),
        }),
{
    if !auth.0 {
        return Plan::Unauthorized;
    }
    let (skip, limit) = match stages::page_window(body.p, body.l) {
        Some(w) => w,
        None => (0, 0),
    };
    let filter = product_filter_doc(auth.1.as_str(), body);
    let ghost gfilter = filter;
    let facet = vec![("data", stages::page_bson(skip, limit)), ("metadata", stages::count_bson())];
    let ghost gf = facet@;
    let facet_b = bsondoc::obj_bson(facet);
    assert(bsondoc::pairs_model(gf) =~= seq![
        ("data"@, stages::page_value(skip, limit)),
        ("metadata"@, stages::count_value()),
    ]);
    let sort = vec![("tch", bsondoc::bson_i32(-1)), ("op_s", bsondoc::bson_i32(-1))];
    let ghost gs = sort@;
    let sort_b = bsondoc::obj_bson(sort);
    assert(bsondoc::pairs_model(gs) =~= seq![("tch"@, num(-1i32)), ("op_s"@, num(-1i32))]);
    let v = vec![
        stages::single("$match", bsondoc::bson_doc(filter)),
        stages::single("$unwind", unwind_bson("$itm")),
        stages::single("$unwind", unwind_bson("$itm.tch")),
        stages::single("$sort", sort_b),
        stages::single("$project", product_project_bson()),
        stages::single("$facet", facet_b),
    ];
    let ghost gv = v@;
    assert(gv.map_values(|d: Document| bsondoc::doc_entries(d)) =~= product_search_pipeline(
        bsondoc::doc_entries(gfilter),
        skip,
        limit,
    ));
    Plan::Run(Pipeline { collection: "annex_inc_products", stages: v })
}

/// The fixed part of a product filter holds `is_del`, `is_act`, `is_selb`
/// and `u_id` once each (the second `is_del` only sets it again), and a
/// search with both touch bounds keeps only the upper one under `itm.tch`.
pub proof fn lemma_product_filter(
    user_id: Seq<char>,
    name: Option<Seq<char>>,
    from: Option<BsonValue>,
    to: Option<BsonValue>,
    mark: Option<Seq<char>>,
)
    ensures
        bsondoc::doc_of(product_base(user_id)) == seq![
            ("is_del"@, BsonValue::Boolean(false)),
            ("is_act"@, BsonValue::Boolean(true)),
            ("is_selb"@, BsonValue::Boolean(true)),
            ("u_id"@, text(user_id)),
        ],
        from is Some && to is Some ==> bsondoc::entries_get(
            product_filter(user_id, name, from, to, mark),
            "itm.tch"@,
        ) == Some(bsondoc::obj(seq![("$lte"@, to.unwrap())])),
{
    reveal_strlit("is_del");
    reveal_strlit("is_act");
    reveal_strlit("is_selb");
    reveal_strlit("u_id");
    reveal_strlit("itm.tch");
    reveal_strlit("mark");
    let fa = BsonValue::Boolean(false);
    let tr = BsonValue::Boolean(true);
    let b1: Entries = seq![("is_del"@, fa)];
    let b2 = b1.push(("is_act"@, tr));
    let b3 = b2.push(("is_del"@, fa));
    let b4 = b3.push(("is_selb"@, tr));
    let b5 = b4.push(("u_id"@, text(user_id)));
    assert(b5 =~= product_base(user_id));
    assert(seq![("is_del"@, fa)].drop_last() =~= Seq::<(Seq<char>, BsonValue)>::empty());
    assert(b1.last() == ("is_del"@, fa));
    assert(bsondoc::doc_of(b1.drop_last()).len() == 0);
    assert(bsondoc::doc_of(b1) =~= b1);
    assert("is_act"@ != "is_del"@) by {
        assert("is_act"@[3] != "is_del"@[3]);
    }
    assert(!bsondoc::has_key(b1, "is_act"@));
    bsondoc::lemma_doc_of_push(b1, "is_act"@, tr);
    bsondoc::lemma_insert_new_key(b1, "is_act"@, tr);
    bsondoc::lemma_doc_of_push(b2, "is_del"@, fa);
    assert(bsondoc::keys_distinct(b2));
    bsondoc::lemma_insert_existing_key(b2, 0, fa);
    assert(b2.update(0, ("is_del"@, fa)) =~= b2);
    bsondoc::lemma_doc_of_push(b3, "is_selb"@, tr);
    assert(!bsondoc::has_key(b2, "is_selb"@)) by {
        assert("is_selb"@.len() == 7);
    }
    bsondoc::lemma_insert_new_key(b2, "is_selb"@, tr);
    let c4 = b2.push(("is_selb"@, tr));
    bsondoc::lemma_doc_of_push(b4, "u_id"@, text(user_id));
    assert(!bsondoc::has_key(c4, "u_id"@)) by {
        assert("u_id"@.len() == 4);
    }
    bsondoc::lemma_insert_new_key(c4, "u_id"@, text(user_id));
    assert(c4.push(("u_id"@, text(user_id))) =~= seq![
        ("is_del"@, fa),
        ("is_act"@, tr),
        ("is_selb"@, tr),
        ("u_id"@, text(user_id)),
    ]);
    if from is Some && to is Some {
        let e1 = stages::opt_entry(
            "name"@,
            match name {
                Some(n) => Some(stages::regex_i(n)),
                None => None,
            },
        );
        let lo = bsondoc::obj(seq![("$gte"@, from.unwrap())]);
        let hi = bsondoc::obj(seq![("$lte"@, to.unwrap())]);
        let x = product_base(user_id) + e1 + seq![("itm.tch"@, lo)];
        bsondoc::lemma_doc_of_push(x, "itm.tch"@, hi);
        bsondoc::lemma_get_insert_same(bsondoc::doc_of(x), "itm.tch"@, hi);
        let y = x.push(("itm.tch"@, hi));
        match mark {
            Some(m) => {
                assert("mark"@ != "itm.tch"@) by {
                    assert("mark"@.len() != "itm.tch"@.len());
                }
                bsondoc::lemma_doc_of_push(y, "mark"@, stages::regex_i(m));
                bsondoc::lemma_get_insert_other(
                    bsondoc::doc_of(y),
                    "mark"@,
                    stages::regex_i(m),
                    "itm.tch"@,
                );
                assert(y.push(("mark"@, stages::regex_i(m))) =~= product_base(user_id) + e1
                    + seq![("itm.tch"@, lo)] + seq![("itm.tch"@, hi)] + seq![
                    ("mark"@, stages::regex_i(m)),
                ]);
            },
            None => {
                assert(y =~= product_base(user_id) + e1 + seq![("itm.tch"@, lo)] + seq![
                    ("itm.tch"@, hi),
                ] + Seq::<(Seq<char>, BsonValue)>::empty());
            },
        }
    }
}

/// What a product search selects, key by key: products that are not
/// deleted, active, sellable and of the signed-in user; with a name
/// matching `name` where one is given; with an item touch of at most `to`
/// where an upper bound is given, else of at least `from` where only a
/// lower bound is given, else any touch; and with a mark matching `mark`
/// where one is given. Each bound and each text filter is applied whatever
/// the other fields of the search are.
pub proof fn lemma_product_filter_keys(
    user_id: Seq<char>,
    name: Option<Seq<char>>,
    from: Option<BsonValue>,
    to: Option<BsonValue>,
    mark: Option<Seq<char>>,
)
    ensures
        ({
            let f = product_filter(user_id, name, from, to, mark);
            &&& bsondoc::entries_get(f, "is_del"@) == Some(BsonValue::Boolean(false))
            &&& bsondoc::entries_get(f, "is_act"@) == Some(BsonValue::Boolean(true))
            &&& bsondoc::entries_get(f, "is_selb"@) == Some(BsonValue::Boolean(true))
            &&& bsondoc::entries_get(f, "u_id"@) == Some(text(user_id))
            &&& (name matches Some(n) ==> bsondoc::entries_get(f, "name"@) == Some(
                stages::regex_i(n),
            ))
            &&& (name is None ==> bsondoc::entries_get(f, "name"@) is None)
            &&& (to matches Some(v) ==> bsondoc::entries_get(f, "itm.tch"@) == Some(
                bsondoc::obj(seq![("$lte"@, v)]),
            ))
            &&& (to is None ==> (from matches Some(v) ==> bsondoc::entries_get(f, "itm.tch"@)
                == Some(bsondoc::obj(seq![("$gte"@, v)]))))
            &&& (to is None && from is None ==> bsondoc::entries_get(f, "itm.tch"@) is None)
            &&& (mark matches Some(m) ==> bsondoc::entries_get(f, "mark"@) == Some(
                stages::regex_i(m),
            ))
            &&& (mark is None ==> bsondoc::entries_get(f, "mark"@) is None)
        }),
{
    reveal_strlit("is_del");
    reveal_strlit("is_act");
    reveal_strlit("is_selb");
    reveal_strlit("u_id");
    reveal_strlit("name");
    reveal_strlit("itm.tch");
    reveal_strlit("mark");
    assert("is_del"@[3] != "is_act"@[3]);
    assert("is_selb"@[1] != "itm.tch"@[1]);
    assert("u_id"@[0] != "name"@[0]);
    assert("u_id"@[0] != "mark"@[0]);
    assert("name"@[0] != "mark"@[0]);
    let base = product_base(user_id);
    let e1 = stages::opt_entry(
        "name"@,
        match name {
            Some(n) => Some(stages::regex_i(n)),
            None => None,
        },
    );
    let e2 = stages::opt_entry(
        "itm.tch"@,
        match from {
            Some(v) => Some(bsondoc::obj(seq![("$gte"@, v)])),
            None => None,
        },
    );
    let e3 = stages::opt_entry(
        "itm.tch"@,
        match to {
            Some(v) => Some(bsondoc::obj(seq![("$lte"@, v)])),
            None => None,
        },
    );
    let e4 = stages::opt_entry(
        "mark"@,
        match mark {
            Some(m) => Some(stages::regex_i(m)),
            None => None,
        },
    );
    let ps = base + e1 + e2 + e3 + e4;
    let fa = BsonValue::Boolean(false);
    let tr = BsonValue::Boolean(true);
    let b0 = Seq::<(Seq<char>, BsonValue)>::empty();
    let b1 = b0.push(("is_del"@, fa));
    let b2 = b1.push(("is_act"@, tr));
    let b3 = b2.push(("is_del"@, fa));
    let b4 = b3.push(("is_selb"@, tr));
    let b5 = b4.push(("u_id"@, text(user_id)));
    assert(b5 =~= base);
    let keys = seq!["is_del"@, "is_act"@, "is_selb"@, "u_id"@, "name"@, "itm.tch"@, "mark"@];
    assert forall|i: int| 0 <= i < keys.len() implies bsondoc::entries_get(
        bsondoc::doc_of(ps),
        #[trigger] keys[i],
    ) == match bsondoc::last_value(e4, keys[i]) {
        Some(v) => Some(v),
        None => match bsondoc::last_value(e3, keys[i]) {
            Some(v) => Some(v),
            None => match bsondoc::last_value(e2, keys[i]) {
                Some(v) => Some(v),
                None => match bsondoc::last_value(e1, keys[i]) {
                    Some(v) => Some(v),
                    None => bsondoc::last_value(base, keys[i]),
                },
            },
        },
    } by {
        let k = keys[i];
        bsondoc::lemma_get_doc_of(ps, k);
        bsondoc::lemma_last_value_concat(base + e1 + e2 + e3, e4, k);
        bsondoc::lemma_last_value_concat(base + e1 + e2, e3, k);
        bsondoc::lemma_last_value_concat(base + e1, e2, k);
        bsondoc::lemma_last_value_concat(base, e1, k);
    }
    assert forall|i: int| 0 <= i < keys.len() implies {
        &&& bsondoc::last_value(e1, #[trigger] keys[i]) == if keys[i] == "name"@ {
            match name {
                Some(n) => Some(stages::regex_i(n)),
                None => None,
            }
        } else {
            None
        }
        &&& bsondoc::last_value(e2, keys[i]) == if keys[i] == "itm.tch"@ {
            match from {
                Some(v) => Some(bsondoc::obj(seq![("$gte"@, v)])),
                None => None,
            }
        } else {
            None
        }
        &&& bsondoc::last_value(e3, keys[i]) == if keys[i] == "itm.tch"@ {
            match to {
                Some(v) => Some(bsondoc::obj(seq![("$lte"@, v)])),
                None => None,
            }
        } else {
            None
        }
        &&& bsondoc::last_value(e4, keys[i]) == if keys[i] == "mark"@ {
            match mark {
                Some(m) => Some(stages::regex_i(m)),
                None => None,
            }
        } else {
            None
        }
        &&& bsondoc::last_value(base, keys[i]) == if keys[i] == "is_del"@ {
            Some(fa)
        } else if keys[i] == "is_act"@ {
            Some(tr)
        } else if keys[i] == "is_selb"@ {
            Some(tr)
        } else if keys[i] == "u_id"@ {
            Some(text(user_id))
        } else {
            None
        }
    } by {
        let k = keys[i];
        stages::lemma_last_value_opt_entry(
            "name"@,
            match name {
                Some(n) => Some(stages::regex_i(n)),
                None => None,
            },
            k,
        );
        stages::lemma_last_value_opt_entry(
            "itm.tch"@,
            match from {
                Some(v) => Some(bsondoc::obj(seq![("$gte"@, v)])),
                None => None,
            },
            k,
        );
        stages::lemma_last_value_opt_entry(
            "itm.tch"@,
            match to {
                Some(v) => Some(bsondoc::obj(seq![("$lte"@, v)])),
                None => None,
            },
            k,
        );
        stages::lemma_last_value_opt_entry(
            "mark"@,
            match mark {
                Some(m) => Some(stages::regex_i(m)),
                None => None,
            },
            k,
        );
        assert(bsondoc::last_value(b0, k) is None);
        bsondoc::lemma_last_value_push(b0, "is_del"@, fa, k);
        bsondoc::lemma_last_value_push(b1, "is_act"@, tr, k);
        bsondoc::lemma_last_value_push(b2, "is_del"@, fa, k);
        bsondoc::lemma_last_value_push(b3, "is_selb"@, tr, k);
        bsondoc::lemma_last_value_push(b4, "u_id"@, text(user_id), k);
    }
    assert(keys[0] == "is_del"@);
    assert(keys[1] == "is_act"@);
    assert(keys[2] == "is_selb"@);
    assert(keys[3] == "u_id"@);
    assert(keys[4] == "name"@);
    assert(keys[5] == "itm.tch"@);
    assert(keys[6] == "mark"@);
}

} // verus!
