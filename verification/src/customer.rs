//! The customer endpoints: a customer by id, the customer list, the Annex
//! user checks by user name and by GSTIN, a customer's recent estimates and
//! payments, the customer search and the customer statement.
use crate::bsondoc::{self, num, text, BsonValue, Entries};
use crate::plan::{self, FindModel, FindQuery, Pipeline, PipelineModel, Plan};
use crate::stages::{self, one};
use bson::{Bson, Document};
use vstd::prelude::*;

verus! {

/// The body of a user-name check.
pub struct AnnexIdCheckUsername {
    pub u_name: Option<String>,
}

/// The body of a GSTIN check.
pub struct AnnexIdCheckGstin {
    pub gstin: Option<String>,
}

/// A user record as the user checks read it.
pub struct Users {
    pub _id: String,
    pub username: Option<String>,
    pub gstin: Option<String>,
}

/// The answer of a user check that found a user.
pub struct AnnexResponse {
    pub _id: String,
    pub username: String,
    pub gstin: Option<String>,
    pub msg: String,
}

/// The body of the recent-estimates and recent-payments requests.
pub struct GetInvoices {
    pub anx_id: String,
}

/// The body of a customer search.
pub struct Search {
    pub cst_name: Option<String>,
    pub city: Option<String>,
    pub state: Option<String>,
    pub p: Option<i32>,
    pub l: Option<i32>,
}

/// The body of a statement request.
pub struct StatementId {
    pub id: String,
}

/// `{"status": false}`.
pub open spec fn status_false() -> Entries {
    one("status"@, BsonValue::Boolean(false))
}

/// `{"status": true, "msg": "Test"}`, the answer of the test endpoint.
pub open spec fn test_answer() -> Entries {
    bsondoc::doc_of(seq![("status"@, BsonValue::Boolean(true)), ("msg"@, text("Test"@))])
}

/// The answer of the test endpoint.
pub fn test_reply() -> (d: Document)
    ensures
        bsondoc::doc_entries(d) == test_answer(),
{
    let pairs = vec![("status", bsondoc::bson_bool(true)), ("msg", bsondoc::bson_str("Test"))];
    let ghost gp = pairs@;
    let d = bsondoc::make_doc(pairs);
    assert(bsondoc::pairs_model(gp) =~= seq![
        ("status"@, BsonValue::Boolean(true)),
        ("msg"@, text("Test"@)),
    ]);
    d
}

/// The fields that customer answers leave out.
pub open spec fn customer_projection() -> Entries {
    bsondoc::flags(seq!["cre_at", "upd_at", "cls_bal", "cls_fine", "u_id"], 0)
}

/// The fields that the user checks read.
pub open spec fn annex_projection() -> Entries {
    bsondoc::flags(seq!["username", "gstin", "_id"], 1)
}

/// `{"status": false}`.
pub fn status_false_doc() -> (d: Document)
    ensures
        bsondoc::doc_entries(d) == status_false(),
{
    stages::single("status", bsondoc::bson_bool(false))
}

fn customer_projection_doc() -> (d: Document)
    ensures
        bsondoc::doc_entries(d) == customer_projection(),
{
    bsondoc::flag_doc(vec!["cre_at", "upd_at", "cls_bal", "cls_fine", "u_id"], 0)
}

fn annex_projection_doc() -> (d: Document)
    ensures
        bsondoc::doc_entries(d) == annex_projection(),
{
    bsondoc::flag_doc(vec!["username", "gstin", "_id"], 1)
}

/// The lookup of customer `id` among the signed-in user's customers.
pub open spec fn get_customer_query(user_id: Seq<char>, id: Seq<char>) -> FindModel {
    FindModel {
        collection: "annex_inc_customers"@,
        filter: bsondoc::doc_of(seq![("_id"@, text(id)), ("u_id"@, text(user_id))]),
        projection: Some(customer_projection()),
        sort: None,
        limit: None,
    }
}

/// Customer `id`: refused unless signed in, else looked up among the
/// signed-in user's customers.
pub fn plan_get_customer(auth: &(bool, String), id: &str) -> (r: Plan<FindQuery>)
    ensures
        !auth.0 ==> r is Unauthorized,
        auth.0 ==> (r matches Plan::Run(q) && q@ == get_customer_query(auth.1@, id@)),
{
    if !auth.0 {
        return Plan::Unauthorized;
    }
    let pairs = vec![("_id", bsondoc::bson_str(id)), ("u_id", bsondoc::bson_str(auth.1.as_str()))];
    let ghost gp = pairs@;
    let filter = bsondoc::make_doc(pairs);
    assert(bsondoc::pairs_model(gp) =~= seq![("_id"@, text(id@)), ("u_id"@, text(auth.1@))]);
    Plan::Run(
        FindQuery {
            collection: "annex_inc_customers",
            filter,
            projection: Some(customer_projection_doc()),
            sort: None,
            limit: None,
        },
    )
}

/// The first customers of the signed-in user.
pub open spec fn all_customers_query(user_id: Seq<char>) -> FindModel {
    FindModel {
        collection: "annex_inc_customers"@,
        filter: one("u_id"@, text(user_id)),
        projection: Some(customer_projection()),
        sort: None,
        limit: Some(10),
    }
}

/// The customer list: refused unless signed in, else the first ten
/// customers of the signed-in user.
pub fn plan_all_customers(auth: &(bool, String)) -> (r: Plan<FindQuery>)
    ensures
        !auth.0 ==> r is Unauthorized,
        auth.0 ==> (r matches Plan::Run(q) && q@ == all_customers_query(auth.1@)),
{
    if !auth.0 {
        return Plan::Unauthorized;
    }
    Plan::Run(
        FindQuery {
            collection: "annex_inc_customers",
            filter: stages::single("u_id", bsondoc::bson_str(auth.1.as_str())),
            projection: Some(customer_projection_doc()),
            sort: None,
            limit: Some(10),
        },
    )
}

/// The lookup of a user by one field (`username` or `gstin`).
pub open spec fn annex_query(field: Seq<char>, value: Seq<char>) -> FindModel {
    FindModel {
        collection: "annex_inc_users"@,
        filter: one(field, text(value)),
        projection: Some(annex_projection()),
        sort: None,
        limit: None,
    }
}

/// The user-name check: refused unless signed in; a body without user
/// name is a bad request answered `{"status": false}`; else the user with
/// that name is looked up.
pub fn plan_check_username(auth: &(bool, String), body: &AnnexIdCheckUsername) -> (r: Plan<
    FindQuery,
>)
    ensures
        !auth.0 ==> r is Unauthorized,
        auth.0 && body.u_name is None ==> (r matches Plan::BadRequest(Some(d))
            && bsondoc::doc_entries(d) == status_false()),
        auth.0 && body.u_name is Some ==> (r matches Plan::Run(q) && q@ == annex_query(
            "username"@,
            body.u_name.unwrap()@,
        )),
{
    if !auth.0 {
        return Plan::Unauthorized;
    }
    match &body.u_name {
        None => Plan::BadRequest(Some(status_false_doc())),
        Some(name) => Plan::Run(
            FindQuery {
                collection: "annex_inc_users",
                filter: stages::single("username", bsondoc::bson_str(name.as_str())),
                projection: Some(annex_projection_doc()),
                sort: None,
                limit: None,
            },
        ),
    }
}

/// The GSTIN check: refused unless signed in; a body without GSTIN is a
/// bad request with no body; else the user with that GSTIN is looked up.
pub fn plan_check_gstin(auth: &(bool, String), body: &AnnexIdCheckGstin) -> (r: Plan<FindQuery>)
    ensures
        !auth.0 ==> r is Unauthorized,
        auth.0 && body.gstin is None ==> r matches Plan::BadRequest(None),
        auth.0 && body.gstin is Some ==> (r matches Plan::Run(q) && q@ == annex_query(
            "gstin"@,
            body.gstin.unwrap()@,
        )),
{
    if !auth.0 {
        return Plan::Unauthorized;
    }
    match &body.gstin {
        None => Plan::BadRequest(None),
        Some(g) => Plan::Run(
            FindQuery {
                collection: "annex_inc_users",
                filter: stages::single("gstin", bsondoc::bson_str(g.as_str())),
                projection: Some(annex_projection_doc()),
                sort: None,
                limit: None,
            },
        ),
    }
}

/// The answer of a user check: the user found, with the message
/// `User found`, or `{"status": false}` (a bad request) where none was
/// found. A user found must have a user name.
pub fn annex_reply(found: Option<Users>) -> (r: Result<AnnexResponse, Document>)
    requires
        found matches Some(u) ==> u.username is Some,
    ensures
        match found {
            Some(u) => r matches Ok(a) && a._id@ == u._id@ && a.username@ == u.username.unwrap()@
                && plan::opt_view(a.gstin) == plan::opt_view(u.gstin) && a.msg@ == "User found"@,
            None => r matches Err(d) && bsondoc::doc_entries(d) == status_false(),
        },
{
    match found {
        Some(u) => {
            let username = match u.username {
                Some(n) => n,
                None => String::new(),
            };
            Ok(
                AnnexResponse {
                    _id: u._id,
                    username,
                    gstin: u.gstin,
                    msg: String::from_str("User found"),
                },
            )
        },
        None => Err(status_false_doc()),
    }
}

/// The count of users with id `anx_id`, which the recent-estimates and
/// recent-payments requests run first.
pub open spec fn annex_user_count_query(anx_id: Seq<char>) -> FindModel {
    FindModel {
        collection: "annex_inc_users"@,
        filter: one("_id"@, text(anx_id)),
        projection: None,
        sort: None,
        limit: None,
    }
}

/// First step of the recent-estimates and recent-payments requests:
/// refused unless signed in, else count the users with the body's id.
pub fn plan_annex_user_count(auth: &(bool, String), body: &GetInvoices) -> (r: Plan<FindQuery>)
    ensures
        !auth.0 ==> r is Unauthorized,
        auth.0 ==> (r matches Plan::Run(q) && q@ == annex_user_count_query(body.anx_id@)),
{
    if !auth.0 {
        return Plan::Unauthorized;
    }
    Plan::Run(
        FindQuery {
            collection: "annex_inc_users",
            filter: stages::single("_id", bsondoc::bson_str(body.anx_id.as_str())),
            projection: None,
            sort: None,
            limit: None,
        },
    )
}

/// The fields of a recent estimate.
pub open spec fn estimate_fields() -> Entries {
    bsondoc::flags(seq!["_id", "t", "inv_num", "pymt_type", "date", "f", "amt"], 1)
}

/// The fields of a recent payment.
pub open spec fn payment_fields() -> Entries {
    bsondoc::flags(seq!["_id", "t", "pyt_num", "date", "f", "amt"], 1)
}

/// The `$lookup` of the customers of the documents, restricted to those
/// whose `anx_id` is the signed-in user.
pub open spec fn customers_lookup(user_id: Seq<char>) -> Entries {
    one(
        "$lookup"@,
        bsondoc::obj(
            seq![
                ("from"@, text("annex_inc_customers"@)),
                ("localField"@, text("cst_name"@)),
                ("foreignField"@, text("_id"@)),
                ("as"@, text("customers"@)),
                (
                    "pipeline"@,
                    BsonValue::Array(
                        seq![
                            bsondoc::obj(
                                seq![("$match"@, bsondoc::obj(seq![("anx_id"@, text(user_id))]))],
                            ),
                        ],
                    ),
                ),
            ],
        ),
    )
}

/// The five latest documents of user `anx_id` whose customer belongs to the
/// signed-in user, with `fields`.
pub open spec fn recent_docs_pipeline(anx_id: Seq<char>, user_id: Seq<char>, fields: Entries) -> Seq<
    Entries,
> {
    seq![
        one("$match"@, bsondoc::obj(seq![("u_id"@, text(anx_id))])),
        one("$limit"@, num(5)),
        customers_lookup(user_id),
        one("$unwind"@, text("$customers"@)),
        one("$project"@, BsonValue::Document(fields)),
        one("$sort"@, bsondoc::obj(seq![("cre_at"@, num(-1i32))])),
    ]
}

fn customers_lookup_doc(user_id: &str) -> (d: Document)
    ensures
        bsondoc::doc_entries(d) == customers_lookup(user_id@),
{
    let m = stages::single_bson("$match", stages::single_bson("anx_id", bsondoc::bson_str(user_id)));
    let inner = vec![m];
    let ghost gi = inner@;
    let arr = bsondoc::bson_array(inner);
    assert(gi.map_values(|x: Bson| bsondoc::bson_value(x)) =~= seq![
        bsondoc::obj(seq![("$match"@, bsondoc::obj(seq![("anx_id"@, text(user_id@))]))]),
    ]);
    let pairs = vec![
        ("from", bsondoc::bson_str("annex_inc_customers")),
        ("localField", bsondoc::bson_str("cst_name")),
        ("foreignField", bsondoc::bson_str("_id")),
        ("as", bsondoc::bson_str("customers")),
        ("pipeline", arr),
    ];
    let ghost gp = pairs@;
    let body = bsondoc::obj_bson(pairs);
    assert(bsondoc::pairs_model(gp) =~= seq![
        ("from"@, text("annex_inc_customers"@)),
        ("localField"@, text("cst_name"@)),
        ("foreignField"@, text("_id"@)),
        ("as"@, text("customers"@)),
        (
            "pipeline"@,
            BsonValue::Array(
                seq![
                    bsondoc::obj(
                        seq![("$match"@, bsondoc::obj(seq![("anx_id"@, text(user_id@))]))],
                    ),
                ],
            ),
        ),
    ]);
    stages::single("$lookup", body)
}

fn recent_docs_stages(anx_id: &str, user_id: &str, fields: Document) -> (v: Vec<Document>)
    ensures
        v@.map_values(|d: Document| bsondoc::doc_entries(d)) == recent_docs_pipeline(
            anx_id@,
            user_id@,
            bsondoc::doc_entries(fields),
        ),
{
    let ghost gf = fields;
    let v = vec![
        stages::single("$match", stages::single_bson("u_id", bsondoc::bson_str(anx_id))),
        stages::single("$limit", bsondoc::bson_i32(5)),
        customers_lookup_doc(user_id),
        stages::single("$unwind", bsondoc::bson_str("$customers")),
        stages::single("$project", bsondoc::bson_doc(fields)),
        stages::single("$sort", stages::single_bson("cre_at", bsondoc::bson_i32(-1))),
    ];
    assert(v@.map_values(|d: Document| bsondoc::doc_entries(d)) =~= recent_docs_pipeline(
        anx_id@,
        user_id@,
        bsondoc::doc_entries(gf),
    ));
    v
}

/// Second step of the recent-estimates request, once the users with id
/// `anx_id` were counted: none is a bad request answered
/// `{"status": false}`; else the five latest estimates of that user whose
/// customer belongs to the signed-in user.
pub fn customer_estimates(count: u64, anx_id: &str, user_id: &str) -> (r: Plan<Pipeline>)
    ensures
        count == 0 ==> (r matches Plan::BadRequest(Some(d)) && bsondoc::doc_entries(d)
            == status_false()),
        count != 0 ==> (r matches Plan::Run(p) && p@ == PipelineModel {
            collection: "annex_inc_estimate_invoice"@,
            stages: recent_docs_pipeline(anx_id@, user_id@, estimate_fields()),
        }),
{
    if count == 0 {
        return Plan::BadRequest(Some(status_false_doc()));
    }
    let fields = bsondoc::flag_doc(
        vec!["_id", "t", "inv_num", "pymt_type", "date", "f", "amt"],
        1,
    );
    Plan::Run(
        Pipeline {
            collection: "annex_inc_estimate_invoice",
            stages: recent_docs_stages(anx_id, user_id, fields),
        },
    )
}

/// Second step of the recent-payments request, as `customer_estimates` but
/// on payments.
pub fn customer_payments(count: u64, anx_id: &str, user_id: &str) -> (r: Plan<Pipeline>)
    ensures
        count == 0 ==> (r matches Plan::BadRequest(Some(d)) && bsondoc::doc_entries(d)
            == status_false()),
        count != 0 ==> (r matches Plan::Run(p) && p@ == PipelineModel {
            collection: "annex_inc_payment"@,
            stages: recent_docs_pipeline(anx_id@, user_id@, payment_fields()),
        }),
{
    if count == 0 {
        return Plan::BadRequest(Some(status_false_doc()));
    }
    let fields = bsondoc::flag_doc(vec!["_id", "t", "pyt_num", "date", "f", "amt"], 1);
    Plan::Run(
        Pipeline {
            collection: "annex_inc_payment",
            stages: recent_docs_stages(anx_id, user_id, fields),
        },
    )
}

/// The customers of the signed-in user that a search selects: active, not
/// deleted, and where the search says so, with a name matching `name`
/// (ignoring case), in `city` and in `state`.
pub open spec fn customer_search_filter(
    user_id: Seq<char>,
    name: Option<Seq<char>>,
    city: Option<Seq<char>>,
    state: Option<Seq<char>>,
) -> Entries {
    bsondoc::doc_of(
        seq![
            ("is_act"@, BsonValue::Boolean(true)),
            ("is_del"@, BsonValue::Boolean(false)),
            ("u_id"@, text(user_id)),
        ] + stages::opt_entry(
            "name"@,
            match name {
                Some(n) => Some(stages::regex_i(n)),
                None => None,
            },
        ) + stages::opt_entry(
            "city"@,
            match city {
                Some(c) => Some(text(c)),
                None => None,
            },
        ) + stages::opt_entry(
            "state"@,
            match state {
                Some(x) => Some(text(x)),
                None => None,
            },
        ),
    )
}

/// The customer search: the selected customers by ascending closing fine,
/// with their id, names, place, GSTIN and first phone number, as one page
/// of `limit` after `skip`, with the total count.
pub open spec fn customer_search_pipeline(filter: Entries, skip: i32, limit: i32) -> Seq<Entries> {
    seq![
        one("$match"@, BsonValue::Document(filter)),
        one("$sort"@, bsondoc::obj(seq![("cls_fine"@, num(1))])),
        one(
            "$project"@,
            bsondoc::obj(
                seq![
                    ("_id"@, num(0)),
                    ("id"@, text("$_id"@)),
                    ("name"@, num(1)),
                    ("b_name"@, num(1)),
                    ("city"@, num(1)),
                    ("state"@, num(1)),
                    ("gstin"@, num(1)),
                    ("ph"@, bsondoc::obj(seq![("$first"@, text("$ph"@))])),
                ],
            ),
        ),
        one(
            "$facet"@,
            bsondoc::obj(
                seq![("metadata"@, stages::count_value()), ("data"@, stages::page_value(skip, limit))],
            ),
        ),
    ]
}

fn customer_search_filter_doc(user_id: &str, body: &Search) -> (d: Document)
    ensures
        bsondoc::doc_entries(d) == customer_search_filter(
            user_id@,
            plan::opt_view(body.cst_name),
            plan::opt_view(body.city),
            plan::opt_view(body.state),
        ),
{
    let pairs = vec![
        ("is_act", bsondoc::bson_bool(true)),
        ("is_del", bsondoc::bson_bool(false)),
        ("u_id", bsondoc::bson_str(user_id)),
    ];
    let ghost gp = pairs@;
    let ghost base: Entries = seq![
        ("is_act"@, BsonValue::Boolean(true)),
        ("is_del"@, BsonValue::Boolean(false)),
        ("u_id"@, text(user_id@)),
    ];
    let mut q = bsondoc::make_doc(pairs);
    assert(bsondoc::pairs_model(gp) =~= base);
    let ghost mut acc = base;
    let ghost e1 = stages::opt_entry(
        "name"@,
        match plan::opt_view(body.cst_name) {
            Some(n) => Some(stages::regex_i(n)),
            None => None,
        },
    );
    if let Some(n) = &body.cst_name {
        bsondoc::doc_insert(&mut q, "name", stages::regex_i_bson(n.as_str()));
        proof {
            bsondoc::lemma_doc_of_push(acc, "name"@, stages::regex_i(n@));
            acc = acc.push(("name"@, stages::regex_i(n@)));
        }
    }
    assert(acc =~= base + e1);
    let ghost e2 = stages::opt_entry(
        "city"@,
        match plan::opt_view(body.city) {
            Some(c) => Some(text(c)),
            None => None,
        },
    );
    if let Some(c) = &body.city {
        bsondoc::doc_insert(&mut q, "city", bsondoc::bson_str(c.as_str()));
        proof {
            bsondoc::lemma_doc_of_push(acc, "city"@, text(c@));
            acc = acc.push(("city"@, text(c@)));
        }
    }
    assert(acc =~= base + e1 + e2);
    let ghost e3 = stages::opt_entry(
        "state"@,
        match plan::opt_view(body.state) {
            Some(x) => Some(text(x)),
            None => None,
        },
    );
    if let Some(x) = &body.state {
        bsondoc::doc_insert(&mut q, "state", bsondoc::bson_str(x.as_str()));
        proof {
            bsondoc::lemma_doc_of_push(acc, "state"@, text(x@));
            acc = acc.push(("state"@, text(x@)));
        }
    }
    assert(acc =~= base + e1 + e2 + e3);
    q
}

/// The customer search: refused unless signed in, else the search pipeline
/// on the signed-in user's customers, page `p` (default 1) of `l` (default
/// 10) customers. For a signed-in caller the page must be computable without overflow (see
/// `stages::page_window`).
pub fn plan_search_customers(auth: &(bool, String), body: &Search) -> (r: Plan<Pipeline>)
    requires
        auth.0 ==> stages::page_fits(body.p, body.l),
    ensures
        !auth.0 ==> r is Unauthorized,
        auth.0 ==> (r matches Plan::Run(pl) && pl@ == PipelineModel {
            collection: "annex_inc_customers"@,
            stages: customer_search_pipeline(
                customer_search_filter(
                    auth.1@,
                    plan::opt_view(body.cst_name),
                    plan::opt_view(body.city),
                    plan::opt_view(body.state),
                ),
                stages::page_skip(
                    stages::page_or_default(body.p, body.l).0,
                    stages::page_or_default(body.p, body.l).1,
                ) as i32,
                stages::page_or_default(body.p, body.l).1,
            ),
        }),
{
    if !auth.0 {
        return Plan::Unauthorized;
    }
    let (skip, limit) = match stages::page_window(body.p, body.l) {
        Some(w) => w,
        None => (0, 0),
    };
    let filter = customer_search_filter_doc(auth.1.as_str(), body);
    let ghost gf = filter;
    let proj = vec![
        ("_id", bsondoc::bson_i32(0)),
        ("id", bsondoc::bson_str("$_id")),
        ("name", bsondoc::bson_i32(1)),
        ("b_name", bsondoc::bson_i32(1)),
        ("city", bsondoc::bson_i32(1)),
        ("state", bsondoc::bson_i32(1)),
        ("gstin", bsondoc::bson_i32(1)),
        ("ph", stages::single_bson("$first", bsondoc::bson_str("$ph"))),
    ];
    let ghost gproj = proj@;
    let proj_b = bsondoc::obj_bson(proj);
    assert(bsondoc::pairs_model(gproj) =~= seq![
        ("_id"@, num(0)),
        ("id"@, text("$_id"@)),
        ("name"@, num(1)),
        ("b_name"@, num(1)),
        ("city"@, num(1)),
        ("state"@, num(1)),
        ("gstin"@, num(1)),
        ("ph"@, bsondoc::obj(seq![("$first"@, text("$ph"@))])),
    ]);
    let facet = vec![("metadata", stages::count_bson()), ("data", stages::page_bson(skip, limit))];
    let ghost gfacet = facet@;
    let facet_b = bsondoc::obj_bson(facet);
    assert(bsondoc::pairs_model(gfacet) =~= seq![
        ("metadata"@, stages::count_value()),
        ("data"@, stages::page_value(skip, limit)),
    ]);
    let v = vec![
        stages::single("$match", bsondoc::bson_doc(filter)),
        stages::single("$sort", stages::single_bson("cls_fine", bsondoc::bson_i32(1))),
        stages::single("$project", proj_b),
        stages::single("$facet", facet_b),
    ];
    let ghost gv = v@;
    assert(gv.map_values(|d: Document| bsondoc::doc_entries(d)) =~= customer_search_pipeline(
        bsondoc::doc_entries(gf),
        skip,
        limit,
    ));
    Plan::Run(Pipeline { collection: "annex_inc_customers", stages: v })
}

/// The `$lookup` of a customer's history in collection `coll` (as
/// `as_name`): the customer's documents that are not deleted and belong to
/// the signed-in user, each joined (as `link_as`, kept where missing) with
/// the document of the same collection that its `link_field` names, with
/// `fields`, in ascending `order_key`.
pub open spec fn history_lookup(
    coll: Seq<char>,
    as_name: Seq<char>,
    user_id: Seq<char>,
    link_field: Seq<char>,
    link_as: Seq<char>,
    unwind_path: Seq<char>,
    fields: Entries,
    order_key: Seq<char>,
) -> BsonValue {
    bsondoc::obj(
        seq![
            ("from"@, text(coll)),
            ("localField"@, text("_id"@)),
            ("foreignField"@, text("cst_name"@)),
            ("as"@, text(as_name)),
            (
                "pipeline"@,
                BsonValue::Array(
                    seq![
                        bsondoc::obj(
                            seq![
                                (
                                    "$match"@,
                                    bsondoc::obj(
                                        seq![
                                            ("is_del"@, BsonValue::Boolean(false)),
                                            ("u_id"@, text(user_id)),
                                        ],
                                    ),
                                ),
                            ],
                        ),
                        bsondoc::obj(
                            seq![
                                (
                                    "$lookup"@,
                                    bsondoc::obj(
                                        seq![
                                            ("from"@, text(coll)),
                                            ("localField"@, text(link_field)),
                                            ("foreignField"@, text("_id"@)),
                                            ("as"@, text(link_as)),
                                        ],
                                    ),
                                ),
                            ],
                        ),
                        bsondoc::obj(
                            seq![
                                (
                                    "$unwind"@,
                                    bsondoc::obj(
                                        seq![
                                            ("path"@, text(unwind_path)),
                                            ("preserveNullAndEmptyArrays"@, BsonValue::Boolean(true)),
                                        ],
                                    ),
                                ),
                            ],
                        ),
                        bsondoc::obj(seq![("$project"@, BsonValue::Document(fields))]),
                        bsondoc::obj(seq![("$sort"@, bsondoc::obj(seq![(order_key, num(1))]))]),
                    ],
                ),
            ),
        ],
    )
}

/// The fields of an estimate in a statement, with those of the estimate it
/// links to.
pub open spec fn statement_estimate_fields() -> Entries {
    bsondoc::entries_insert(
        bsondoc::flags(seq!["_id", "t", "inv_num", "pymt_type", "date", "f", "is_vrfy", "amt"], 1),
        "anx_est"@,
        BsonValue::Document(bsondoc::flags(seq!["t", "pymt_type", "date", "f", "amt", "is_vrfy"], 1)),
    )
}

/// The fields of a payment in a statement, with those of the payment it
/// links to.
pub open spec fn statement_payment_fields() -> Entries {
    bsondoc::entries_insert(
        bsondoc::flags(seq!["_id", "t", "pyt_num", "date", "f", "amt", "is_vrfy"], 1),
        "anx_pyt"@,
        BsonValue::Document(bsondoc::flags(seq!["t", "date", "f", "amt", "is_vrfy"], 1)),
    )
}

/// The statement of customer `id` of the signed-in user: the customer (if
/// active and not deleted) with its estimates and payments.
pub open spec fn statement_pipeline(user_id: Seq<char>, id: Seq<char>) -> Seq<Entries> {
    seq![
        one(
            "$match"@,
            bsondoc::obj(
                seq![
                    ("is_act"@, BsonValue::Boolean(true)),
                    ("is_del"@, BsonValue::Boolean(false)),
                    ("u_id"@, text(user_id)),
                    ("_id"@, text(id)),
                ],
            ),
        ),
        one(
            "$lookup"@,
            history_lookup(
                "annex_inc_estimate_invoice"@,
                "estimate"@,
                user_id,
                "anx_est_id"@,
                "anx_est"@,
                "$anx_est"@,
                statement_estimate_fields(),
                "inv_num"@,
            ),
        ),
        one(
            "$lookup"@,
            history_lookup(
                "annex_inc_payment"@,
                "payment"@,
                user_id,
                "anx_pyt_id"@,
                "anx_pyt"@,
                "$anx_pyt"@,
                statement_payment_fields(),
                "pyt_num"@,
            ),
        ),
        one(
            "$project"@,
            bsondoc::obj(
                seq![
                    ("_id"@, num(0)),
                    ("id"@, text("$_id"@)),
                    ("name"@, num(1)),
                    ("b_name"@, num(1)),
                    ("city"@, num(1)),
                    ("state"@, num(1)),
                    ("gstin"@, num(1)),
                    ("ph"@, num(1)),
                    ("op_bal"@, num(1)),
                    ("op_fine"@, num(1)),
                    ("cls_bal"@, num(1)),
                    ("cls_fine"@, num(1)),
                    ("estimate"@, num(1)),
                    ("payment"@, num(1)),
                ],
            ),
        ),
    ]
}

fn history_pipeline_bson(
    coll: &str,
    user_id: &str,
    link_field: &str,
    link_as: &str,
    unwind_path: &str,
    fields: Document,
    order_key: &str,
) -> (b: Bson)
    ensures
        bsondoc::bson_value(b) == BsonValue::Array(
            seq![
                bsondoc::obj(
                    seq![
                        (
                            "$match"@,
                            bsondoc::obj(
                                seq![("is_del"@, BsonValue::Boolean(false)), ("u_id"@, text(user_id@))],
                            ),
                        ),
                    ],
                ),
                bsondoc::obj(
                    seq![
                        (
                            "$lookup"@,
                            bsondoc::obj(
                                seq![
                                    ("from"@, text(coll@)),
                                    ("localField"@, text(link_field@)),
                                    ("foreignField"@, text("_id"@)),
                                    ("as"@, text(link_as@)),
                                ],
                            ),
                        ),
                    ],
                ),
                bsondoc::obj(
                    seq![
                        (
                            "$unwind"@,
                            bsondoc::obj(
                                seq![
                                    ("path"@, text(unwind_path@)),
                                    ("preserveNullAndEmptyArrays"@, BsonValue::Boolean(true)),
                                ],
                            ),
                        ),
                    ],
                ),
                bsondoc::obj(seq![("$project"@, BsonValue::Document(bsondoc::doc_entries(fields)))]),
                bsondoc::obj(seq![("$sort"@, bsondoc::obj(seq![(order_key@, num(1))]))]),
            ],
        ),
{
    let ghost gf = fields;
    let m = vec![("is_del", bsondoc::bson_bool(false)), ("u_id", bsondoc::bson_str(user_id))];
    let ghost gm = m@;
    let m_b = bsondoc::obj_bson(m);
    assert(bsondoc::pairs_model(gm) =~= seq![
        ("is_del"@, BsonValue::Boolean(false)),
        ("u_id"@, text(user_id@)),
    ]);
    let l = vec![
        ("from", bsondoc::bson_str(coll)),
        ("localField", bsondoc::bson_str(link_field)),
        ("foreignField", bsondoc::bson_str("_id")),
        ("as", bsondoc::bson_str(link_as)),
    ];
    let ghost gl = l@;
    let l_b = bsondoc::obj_bson(l);
    assert(bsondoc::pairs_model(gl) =~= seq![
        ("from"@, text(coll@)),
        ("localField"@, text(link_field@)),
        ("foreignField"@, text("_id"@)),
        ("as"@, text(link_as@)),
    ]);
    let u = vec![
        ("path", bsondoc::bson_str(unwind_path)),
        ("preserveNullAndEmptyArrays", bsondoc::bson_bool(true)),
    ];
    let ghost gu = u@;
    let u_b = bsondoc::obj_bson(u);
    assert(bsondoc::pairs_model(gu) =~= seq![
        ("path"@, text(unwind_path@)),
        ("preserveNullAndEmptyArrays"@, BsonValue::Boolean(true)),
    ]);
    let stages_v = vec![
        stages::single_bson("$match", m_b),
        stages::single_bson("$lookup", l_b),
        stages::single_bson("$unwind", u_b),
        stages::single_bson("$project", bsondoc::bson_doc(fields)),
        stages::single_bson("$sort", stages::single_bson(order_key, bsondoc::bson_i32(1))),
    ];
    let ghost gs = stages_v@;
    let b = bsondoc::bson_array(stages_v);
    assert(gs.map_values(|x: Bson| bsondoc::bson_value(x)) =~= seq![
        bsondoc::obj(
            seq![
                (
                    "$match"@,
                    bsondoc::obj(
                        seq![("is_del"@, BsonValue::Boolean(false)), ("u_id"@, text(user_id@))],
                    ),
                ),
            ],
        ),
        bsondoc::obj(
            seq![
                (
                    "$lookup"@,
                    bsondoc::obj(
                        seq![
                            ("from"@, text(coll@)),
                            ("localField"@, text(link_field@)),
                            ("foreignField"@, text("_id"@)),
                            ("as"@, text(link_as@)),
                        ],
                    ),
                ),
            ],
        ),
        bsondoc::obj(
            seq![
                (
                    "$unwind"@,
                    bsondoc::obj(
                        seq![
                            ("path"@, text(unwind_path@)),
                            ("preserveNullAndEmptyArrays"@, BsonValue::Boolean(true)),
                        ],
                    ),
                ),
            ],
        ),
        bsondoc::obj(seq![("$project"@, BsonValue::Document(bsondoc::doc_entries(gf)))]),
        bsondoc::obj(seq![("$sort"@, bsondoc::obj(seq![(order_key@, num(1))]))]),
    ]);
    b
}

fn history_lookup_doc(
    coll: &str,
    as_name: &str,
    user_id: &str,
    link_field: &str,
    link_as: &str,
    unwind_path: &str,
    fields: Document,
    order_key: &str,
) -> (d: Document)
    ensures
        bsondoc::doc_entries(d) == one(
            "$lookup"@,
            history_lookup(
                coll@,
                as_name@,
                user_id@,
                link_field@,
                link_as@,
                unwind_path@,
                bsondoc::doc_entries(fields),
                order_key@,
            ),
        ),
{
    let inner = history_pipeline_bson(coll, user_id, link_field, link_as, unwind_path, fields, order_key);
    let ghost gi = inner;
    let pairs = vec![
        ("from", bsondoc::bson_str(coll)),
        ("localField", bsondoc::bson_str("_id")),
        ("foreignField", bsondoc::bson_str("cst_name")),
        ("as", bsondoc::bson_str(as_name)),
        ("pipeline", inner),
    ];
    let ghost gp = pairs@;
    let body = bsondoc::obj_bson(pairs);
    assert(bsondoc::pairs_model(gp) =~= seq![
        ("from"@, text(coll@)),
        ("localField"@, text("_id"@)),
        ("foreignField"@, text("cst_name"@)),
        ("as"@, text(as_name@)),
        ("pipeline"@, bsondoc::bson_value(gi)),
    ]);
    stages::single("$lookup", body)
}

fn statement_fields_doc(keys: Vec<&str>, link_as: &str, link_keys: Vec<&str>) -> (d: Document)
    ensures
        bsondoc::doc_entries(d) == bsondoc::entries_insert(
            bsondoc::flags(keys@, 1),
            link_as@,
            BsonValue::Document(bsondoc::flags(link_keys@, 1)),
        ),
{
    let mut d = bsondoc::flag_doc(keys, 1);
    bsondoc::doc_insert(&mut d, link_as, bsondoc::bson_doc(bsondoc::flag_doc(link_keys, 1)));
    d
}

/// The customer statement: refused unless signed in, else customer `id` of
/// the signed-in user with its estimates and payments.
pub fn plan_customer_statement(auth: &(bool, String), body: &StatementId) -> (r: Plan<Pipeline>)
    ensures
        !auth.0 ==> r is Unauthorized,
        auth.0 ==> (r matches Plan::Run(pl) && pl@ == PipelineModel {
            collection: "annex_inc_customers"@,
            stages: statement_pipeline(auth.1@, body.id@),
        }),
{
    if !auth.0 {
        return Plan::Unauthorized;
    }
    let uid = auth.1.as_str();
    let id = body.id.as_str();
    let m = vec![
        ("is_act", bsondoc::bson_bool(true)),
        ("is_del", bsondoc::bson_bool(false)),
        ("u_id", bsondoc::bson_str(uid)),
        ("_id", bsondoc::bson_str(id)),
    ];
    let ghost gm = m@;
    let m_b = bsondoc::obj_bson(m);
    assert(bsondoc::pairs_model(gm) =~= seq![
        ("is_act"@, BsonValue::Boolean(true)),
        ("is_del"@, BsonValue::Boolean(false)),
        ("u_id"@, text(uid@)),
        ("_id"@, text(id@)),
    ]);
    let est_fields = statement_fields_doc(
        vec!["_id", "t", "inv_num", "pymt_type", "date", "f", "is_vrfy", "amt"],
        "anx_est",
        vec!["t", "pymt_type", "date", "f", "amt", "is_vrfy"],
    );
    let pay_fields = statement_fields_doc(
        vec!["_id", "t", "pyt_num", "date", "f", "amt", "is_vrfy"],
        "anx_pyt",
        vec!["t", "date", "f", "amt", "is_vrfy"],
    );
    let proj = vec![
        ("_id", bsondoc::bson_i32(0)),
        ("id", bsondoc::bson_str("$_id")),
        ("name", bsondoc::bson_i32(1)),
        ("b_name", bsondoc::bson_i32(1)),
        ("city", bsondoc::bson_i32(1)),
        ("state", bsondoc::bson_i32(1)),
        ("gstin", bsondoc::bson_i32(1)),
        ("ph", bsondoc::bson_i32(1)),
        ("op_bal", bsondoc::bson_i32(1)),
        ("op_fine", bsondoc::bson_i32(1)),
        ("cls_bal", bsondoc::bson_i32(1)),
        ("cls_fine", bsondoc::bson_i32(1)),
        ("estimate", bsondoc::bson_i32(1)),
        ("payment", bsondoc::bson_i32(1)),
    ];
    let ghost gproj = proj@;
    let proj_b = bsondoc::obj_bson(proj);
    assert(bsondoc::pairs_model(gproj) =~= seq![
        ("_id"@, num(0)),
        ("id"@, text("$_id"@)),
        ("name"@, num(1)),
        ("b_name"@, num(1)),
        ("city"@, num(1)),
        ("state"@, num(1)),
        ("gstin"@, num(1)),
        ("ph"@, num(1)),
        ("op_bal"@, num(1)),
        ("op_fine"@, num(1)),
        ("cls_bal"@, num(1)),
        ("cls_fine"@, num(1)),
        ("estimate"@, num(1)),
        ("payment"@, num(1)),
    ]);
    let v = vec![
        stages::single("$match", m_b),
        history_lookup_doc(
            "annex_inc_estimate_invoice",
            "estimate",
            uid,
            "anx_est_id",
            "anx_est",
            "$anx_est",
            est_fields,
            "inv_num",
        ),
        history_lookup_doc(
            "annex_inc_payment",
            "payment",
            uid,
            "anx_pyt_id",
            "anx_pyt",
            "$anx_pyt",
            pay_fields,
            "pyt_num",
        ),
        stages::single("$project", proj_b),
    ];
    let ghost gv = v@;
    assert(gv.map_values(|d: Document| bsondoc::doc_entries(d)) =~= statement_pipeline(
        uid@,
        id@,
    ));
    Plan::Run(Pipeline { collection: "annex_inc_customers", stages: v })
}

/// What a customer search selects, key by key: active customers that are
/// not deleted and belong to the signed-in user; with a name matching
/// `name` (ignoring case) where one is given; in `city` where one is given;
/// in `state` where one is given. Each filter is applied whatever the
/// others are, and a filter not given adds no key.
pub proof fn lemma_customer_search_filter_keys(
    user_id: Seq<char>,
    name: Option<Seq<char>>,
    city: Option<Seq<char>>,
    state: Option<Seq<char>>,
)
    ensures
        ({
            let f = customer_search_filter(user_id, name, city, state);
            &&& bsondoc::entries_get(f, "is_act"@) == Some(BsonValue::Boolean(true))
            &&& bsondoc::entries_get(f, "is_del"@) == Some(BsonValue::Boolean(false))
            &&& bsondoc::entries_get(f, "u_id"@) == Some(text(user_id))
            &&& (name matches Some(n) ==> bsondoc::entries_get(f, "name"@) == Some(
                stages::regex_i(n),
            ))
            &&& (name is None ==> bsondoc::entries_get(f, "name"@) is None)
            &&& (city matches Some(c) ==> bsondoc::entries_get(f, "city"@) == Some(text(c)))
            &&& (city is None ==> bsondoc::entries_get(f, "city"@) is None)
            &&& (state matches Some(x) ==> bsondoc::entries_get(f, "state"@) == Some(text(x)))
            &&& (state is None ==> bsondoc::entries_get(f, "state"@) is None)
        }),
{
    reveal_strlit("is_act");
    reveal_strlit("is_del");
    reveal_strlit("u_id");
    reveal_strlit("name");
    reveal_strlit("city");
    reveal_strlit("state");
    assert("is_del"@[3] != "is_act"@[3]);
    assert("u_id"@[0] != "name"@[0]);
    assert("u_id"@[0] != "city"@[0]);
    assert("name"@[0] != "city"@[0]);
    let tr = BsonValue::Boolean(true);
    let fa = BsonValue::Boolean(false);
    let b0 = Seq::<(Seq<char>, BsonValue)>::empty();
    let b1 = b0.push(("is_act"@, tr));
    let b2 = b1.push(("is_del"@, fa));
    let base = b2.push(("u_id"@, text(user_id)));
    assert(base =~= seq![("is_act"@, tr), ("is_del"@, fa), ("u_id"@, text(user_id))]);
    let vn = match name {
        Some(n) => Some(stages::regex_i(n)),
        None => None,
    };
    let vc = match city {
        Some(c) => Some(text(c)),
        None => None,
    };
    let vs = match state {
        Some(x) => Some(text(x)),
        None => None,
    };
    let e1 = stages::opt_entry("name"@, vn);
    let e2 = stages::opt_entry("city"@, vc);
    let e3 = stages::opt_entry("state"@, vs);
    let ps = base + e1 + e2 + e3;
    let keys = seq!["is_act"@, "is_del"@, "u_id"@, "name"@, "city"@, "state"@];
    assert forall|i: int| 0 <= i < keys.len() implies bsondoc::last_value(base, #[trigger] keys[i])
        == if keys[i] == "is_act"@ {
        Some(tr)
    } else if keys[i] == "is_del"@ {
        Some(fa)
    } else if keys[i] == "u_id"@ {
        Some(text(user_id))
    } else {
        None
    } by {
        let k = keys[i];
        assert(bsondoc::last_value(b0, k) is None);
        bsondoc::lemma_last_value_push(b0, "is_act"@, tr, k);
        bsondoc::lemma_last_value_push(b1, "is_del"@, fa, k);
        bsondoc::lemma_last_value_push(b2, "u_id"@, text(user_id), k);
    }
    assert forall|i: int| 0 <= i < keys.len() implies bsondoc::entries_get(
        bsondoc::doc_of(ps),
        #[trigger] keys[i],
    ) == if keys[i] == "state"@ {
        vs
    } else if keys[i] == "city"@ {
        vc
    } else if keys[i] == "name"@ {
        vn
    } else {
        bsondoc::last_value(base, keys[i])
    } by {
        let k = keys[i];
        bsondoc::lemma_get_doc_of(ps, k);
        bsondoc::lemma_last_value_concat(base + e1 + e2, e3, k);
        bsondoc::lemma_last_value_concat(base + e1, e2, k);
        bsondoc::lemma_last_value_concat(base, e1, k);
        stages::lemma_last_value_opt_entry("name"@, vn, k);
        stages::lemma_last_value_opt_entry("city"@, vc, k);
        stages::lemma_last_value_opt_entry("state"@, vs, k);
    }
    assert(keys[0] == "is_act"@);
    assert(keys[1] == "is_del"@);
    assert(keys[2] == "u_id"@);
    assert(keys[3] == "name"@);
    assert(keys[4] == "city"@);
    assert(keys[5] == "state"@);
}

} // verus!
