//! The invoice endpoints: the next invoice number, an invoice by id, and
//! the invoice search.
use crate::bsondoc::{self, num, text, BsonValue, Entries};
use crate::estimate::Search;
use crate::ledger;
use crate::plan::{self, FindQuery, Pipeline, PipelineModel, Plan};
use crate::stages::{self, one};
use bson::{Bson, Document};
use vstd::prelude::*;

verus! {

/// The next invoice number for month `month` of `year`, as
/// `estimate::plan_estimate_number` but on invoices.
pub fn plan_invoice_number(auth: &(bool, String), month: i32, year: i32) -> (r: Plan<FindQuery>)
    ensures
        ledger::number_plan_now_is(r, (auth.0, auth.1@), "annex_inc_invoice"@, month, year),
{
    ledger::number_plan_now(auth, "annex_inc_invoice", month, year)
}

/// Invoice `id`: refused unless signed in, else looked up among the
/// signed-in user's invoices.
pub fn plan_get_invoice(auth: &(bool, String), id: &str) -> (r: Plan<FindQuery>)
    ensures
        !auth.0 ==> r is Unauthorized,
        auth.0 ==> (r matches Plan::Run(q) && q@ == ledger::record_query(
            "annex_inc_invoice"@,
            auth.1@,
            id@,
        )),
{
    ledger::record_plan(auth, "annex_inc_invoice", id)
}

/// Invoices whose customer's name or business name matches `name`,
/// ignoring case.
pub open spec fn customer_name_match(name: Seq<char>) -> BsonValue {
    bsondoc::obj(
        seq![
            (
                "$or"@,
                BsonValue::Array(
                    seq![
                        bsondoc::obj(seq![("customer.name"@, stages::regex_i(name))]),
                        bsondoc::obj(seq![("customer.b_name"@, stages::regex_i(name))]),
                    ],
                ),
            ),
        ],
    )
}

/// The invoice search: the signed-in user's invoices that are not deleted,
/// with their customer; where the search says so, only those whose customer
/// matches `name` and those of financial year `y` (when `y` is not 0);
/// latest first; with their id, customer and amounts; as one page of
/// `limit` after `skip`, with the total count.
pub open spec fn invoice_search_pipeline(
    user_id: Seq<char>,
    name: Option<Seq<char>>,
    y: i32,
    skip: i32,
    limit: i32,
) -> Seq<Entries> {
    seq![
        one(
            "$match"@,
            bsondoc::obj(seq![("is_del"@, BsonValue::Boolean(false)), ("u_id"@, text(user_id))]),
        ),
        one(
            "$lookup"@,
            bsondoc::obj(
                seq![
                    ("from"@, text("annex_inc_customers"@)),
                    ("localField"@, text("cst_name"@)),
                    ("foreignField"@, text("_id"@)),
                    ("as"@, text("customer"@)),
                ],
            ),
        ),
        one("$unwind"@, text("$customer"@)),
    ] + (match name {
        Some(n) => seq![one("$match"@, customer_name_match(n))],
        None => Seq::empty(),
    }) + (if y != 0 {
        seq![one("$match"@, bsondoc::obj(seq![("date"@, ledger::fiscal_year_range(y as int))]))]
    } else {
        Seq::empty()
    }) + seq![
        one("$sort"@, bsondoc::obj(seq![("date"@, num(-1i32))])),
        one(
            "$project"@,
            bsondoc::obj(
                seq![
                    ("_id"@, num(0)),
                    ("id"@, text("$_id"@)),
                    ("cust_name"@, text("$customer.name"@)),
                    ("b_name"@, text("$customer.business_name"@)),
                    ("t"@, num(1)),
                    ("inv_num"@, num(1)),
                    ("date"@, num(1)),
                    ("pymt_type"@, num(1)),
                    ("amt"@, num(1)),
                    ("f"@, num(1)),
                    ("is_fin"@, num(1)),
                    ("is_vrfy"@, num(1)),
                ],
            ),
        ),
        one(
            "$facet"@,
            bsondoc::obj(
                seq![("data"@, stages::page_value(skip, limit)), ("metadata"@, stages::count_value())],
            ),
        ),
    ]
}

fn customer_name_match_bson(name: &str) -> (b: Bson)
    ensures
        bsondoc::bson_value(b) == customer_name_match(name@),
{
    let alts = vec![
        stages::single_bson("customer.name", stages::regex_i_bson(name)),
        stages::single_bson("customer.b_name", stages::regex_i_bson(name)),
    ];
    let ghost ga = alts@;
    let arr = bsondoc::bson_array(alts);
    assert(ga.map_values(|x: Bson| bsondoc::bson_value(x)) =~= seq![
        bsondoc::obj(seq![("customer.name"@, stages::regex_i(name@))]),
        bsondoc::obj(seq![("customer.b_name"@, stages::regex_i(name@))]),
    ]);
    stages::single_bson("$or", arr)
}

fn invoice_project_bson() -> (b: Bson)
    ensures
        bsondoc::bson_value(b) == bsondoc::obj(
            seq![
                ("_id"@, num(0)),
                ("id"@, text("$_id"@)),
                ("cust_name"@, text("$customer.name"@)),
                ("b_name"@, text("$customer.business_name"@)),
                ("t"@, num(1)),
                ("inv_num"@, num(1)),
                ("date"@, num(1)),
                ("pymt_type"@, num(1)),
                ("amt"@, num(1)),
                ("f"@, num(1)),
                ("is_fin"@, num(1)),
                ("is_vrfy"@, num(1)),
            ],
        ),
{
    let proj = vec![
        ("_id", bsondoc::bson_i32(0)),
        ("id", bsondoc::bson_str("$_id")),
        ("cust_name", bsondoc::bson_str("$customer.name")),
        ("b_name", bsondoc::bson_str("$customer.business_name")),
        ("t", bsondoc::bson_i32(1)),
        ("inv_num", bsondoc::bson_i32(1)),
        ("date", bsondoc::bson_i32(1)),
        ("pymt_type", bsondoc::bson_i32(1)),
        ("amt", bsondoc::bson_i32(1)),
        ("f", bsondoc::bson_i32(1)),
        ("is_fin", bsondoc::bson_i32(1)),
        ("is_vrfy", bsondoc::bson_i32(1)),
    ];
    let ghost gp = proj@;
    let b = bsondoc::obj_bson(proj);
    assert(bsondoc::pairs_model(gp) =~= seq![
        ("_id"@, num(0)),
        ("id"@, text("$_id"@)),
        ("cust_name"@, text("$customer.name"@)),
        ("b_name"@, text("$customer.business_name"@)),
        ("t"@, num(1)),
        ("inv_num"@, num(1)),
        ("date"@, num(1)),
        ("pymt_type"@, num(1)),
        ("amt"@, num(1)),
        ("f"@, num(1)),
        ("is_fin"@, num(1)),
        ("is_vrfy"@, num(1)),
    ]);
    b
}

/// The invoice search: refused unless signed in, else the search pipeline
/// on the invoices, page `p` (default 1) of `l` (default 10). For a signed-in caller the page must
/// be computable in `i16` without overflow (see
/// `stages::small_page_window`), and a year `y` other than 0 must be below
/// `i32::MAX`.
pub fn plan_invoice_search(auth: &(bool, String), body: &Search) -> (r: Plan<Pipeline>)
    requires
        auth.0 ==> stages::small_page_fits(body.p, body.l),
        auth.0 && body.y != 0 ==> body.y < i32::MAX,
    ensures
        !auth.0 ==> r is Unauthorized,
        auth.0 ==> (r matches Plan::Run(pl) && pl@ == PipelineModel {
            collection: "annex_inc_invoice"@,
            stages: invoice_search_pipeline(
                auth.1@,
                plan::opt_view(body.cst_name),
                body.y,
                ((stages::small_page_or_default(body.p, body.l).0 - 1)
                    * stages::small_page_or_default(body.p, body.l).1) as i32,
                stages::small_page_or_default(body.p, body.l).1 as i32,
            ),
        }),
{
    if !auth.0 {
        return Plan::Unauthorized;
    }
    let (skip, limit) = match stages::small_page_window(body.p, body.l) {
        Some(w) => w,
        None => (0, 0),
    };
    let uid = auth.1.as_str();
    let m = vec![("is_del", bsondoc::bson_bool(false)), ("u_id", bsondoc::bson_str(uid))];
    let ghost gm = m@;
    let m_b = bsondoc::obj_bson(m);
    assert(bsondoc::pairs_model(gm) =~= seq![
        ("is_del"@, BsonValue::Boolean(false)),
        ("u_id"@, text(uid@)),
    ]);
    let l = vec![
        ("from", bsondoc::bson_str("annex_inc_customers")),
        ("localField", bsondoc::bson_str("cst_name")),
        ("foreignField", bsondoc::bson_str("_id")),
        ("as", bsondoc::bson_str("customer")),
    ];
    let ghost gl = l@;
    let l_b = bsondoc::obj_bson(l);
    assert(bsondoc::pairs_model(gl) =~= seq![
        ("from"@, text("annex_inc_customers"@)),
        ("localField"@, text("cst_name"@)),
        ("foreignField"@, text("_id"@)),
        ("as"@, text("customer"@)),
    ]);
    let mut v: Vec<Document> = vec![
        stages::single("$match", m_b),
        stages::single("$lookup", l_b),
        stages::single("$unwind", bsondoc::bson_str("$customer")),
    ];
    let ghost head = v@.map_values(|d: Document| bsondoc::doc_entries(d));
    let ghost name_part: Seq<Entries> = match plan::opt_view(body.cst_name) {
        Some(n) => seq![one("$match"@, customer_name_match(n))],
        None => Seq::empty(),
    };
    if let Some(n) = &body.cst_name {
        v.push(stages::single("$match", customer_name_match_bson(n.as_str())));
    }
    assert(v@.map_values(|d: Document| bsondoc::doc_entries(d)) =~= head + name_part);
    let ghost year_part: Seq<Entries> = if body.y != 0 {
        seq![one("$match"@, bsondoc::obj(seq![("date"@, ledger::fiscal_year_range(body.y as int))]))]
    } else {
        Seq::empty()
    };
    if body.y != 0 {
        let range = ledger::fiscal_year_range_bson(body.y);
        let ghost gr = range;
        v.push(stages::single("$match", stages::single_bson("date", range)));
        assert(one("date"@, bsondoc::bson_value(gr)) =~= bsondoc::doc_of(
            seq![("date"@, ledger::fiscal_year_range(body.y as int))],
        ));
    }
    assert(v@.map_values(|d: Document| bsondoc::doc_entries(d)) =~= head + name_part + year_part);
    let facet = vec![("data", stages::page_bson(skip, limit)), ("metadata", stages::count_bson())];
    let ghost gf = facet@;
    let facet_b = bsondoc::obj_bson(facet);
    assert(bsondoc::pairs_model(gf) =~= seq![
        ("data"@, stages::page_value(skip, limit)),
        ("metadata"@, stages::count_value()),
    ]);
    v.push(stages::single("$sort", stages::single_bson("date", bsondoc::bson_i32(-1))));
    v.push(stages::single("$project", invoice_project_bson()));
    v.push(stages::single("$facet", facet_b));
    assert(v@.map_values(|d: Document| bsondoc::doc_entries(d)) =~= invoice_search_pipeline(
        uid@,
        plan::opt_view(body.cst_name),
        body.y,
        skip,
        limit,
    ));
    Plan::Run(Pipeline { collection: "annex_inc_invoice", stages: v })
}

/// The stages of an invoice search: first the signed-in user's invoices
/// that are not deleted, then their customer; then the customer-name match
/// where a name is given; then the match on financial year `y` where `y`
/// is not 0, whether or not a name is given; then the newest-first sort,
/// the projection and the page. No other stage is added, so without a name
/// or a year there is no name or date match.
pub proof fn lemma_invoice_search_stages(
    user_id: Seq<char>,
    name: Option<Seq<char>>,
    y: i32,
    skip: i32,
    limit: i32,
)
    ensures
        ({
            let p = invoice_search_pipeline(user_id, name, y, skip, limit);
            let k: int = if name is Some {
                1
            } else {
                0
            };
            let d: int = if y != 0 {
                1
            } else {
                0
            };
            &&& p.len() == 6 + k + d
            &&& p[0] == one(
                "$match"@,
                bsondoc::obj(seq![("is_del"@, BsonValue::Boolean(false)), ("u_id"@, text(user_id))]),
            )
            &&& (name matches Some(n) ==> p[3] == one("$match"@, customer_name_match(n)))
            &&& (y != 0 ==> p[3 + k] == one(
                "$match"@,
                bsondoc::obj(seq![("date"@, ledger::fiscal_year_range(y as int))]),
            ))
            &&& p[3 + k + d] == one("$sort"@, bsondoc::obj(seq![("date"@, num(-1i32))]))
        }),
{
}

} // verus!
