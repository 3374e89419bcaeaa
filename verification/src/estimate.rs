//! The estimate endpoints: the next estimate number, an estimate by id, and
//! the estimate search.
use crate::bsondoc::{self, BsonValue, Entries};
use crate::ledger;
use crate::plan::{FindQuery, Plan, Reply};
use crate::stages::{self, one};
use bson::Document;
use vstd::prelude::*;

verus! {

/// The highest number found by a next-number query.
pub struct InvoiceIdReturn {
    pub inv_num: i32,
}

/// The body of an estimate or invoice search.
pub struct Search {
    pub cst_name: Option<String>,
    pub y: i32,
    pub n: Option<i32>,
    pub p: Option<i16>,
    pub l: Option<i16>,
}

/// The next estimate number for month `month` of `year`: refused unless
/// signed in, a bad request for a year out of the last ten to the next two
/// (around the current year in UTC) or a month out of 1 to 12, else the
/// highest estimate number of that month's financial year is looked up.
/// Where the clock gives no current year, a signed-in request is a bad
/// request answered `{"status": false, "msg": "Current year unavailable"}`.
pub fn plan_estimate_number(auth: &(bool, String), month: i32, year: i32) -> (r: Plan<FindQuery>)
    ensures
        ledger::number_plan_now_is(r, (auth.0, auth.1@), "annex_inc_estimate_invoice"@, month, year),
{
    ledger::number_plan_now(auth, "annex_inc_estimate_invoice", month, year)
}

/// Estimate `id`: refused unless signed in, else looked up among the
/// signed-in user's estimates.
pub fn plan_get_estimate(auth: &(bool, String), id: &str) -> (r: Plan<FindQuery>)
    ensures
        !auth.0 ==> r is Unauthorized,
        auth.0 ==> (r matches Plan::Run(q) && q@ == ledger::record_query(
            "annex_inc_estimate_invoice"@,
            auth.1@,
            id@,
        )),
{
    ledger::record_plan(auth, "annex_inc_estimate_invoice", id)
}

/// `{"status": true}`.
pub open spec fn status_true() -> Entries {
    one("status"@, BsonValue::Boolean(true))
}

/// The estimate search: refused unless signed in, else answered
/// `{"status": true}`.
pub fn estimate_search_reply(auth: &(bool, String)) -> (r: Reply)
    ensures
        !auth.0 ==> r is Unauthorized,
        auth.0 ==> (r matches Reply::Json(d) && bsondoc::doc_entries(d) == status_true()),
{
    if !auth.0 {
        return Reply::Unauthorized;
    }
    Reply::Json(stages::single("status", bsondoc::bson_bool(true)))
}

} // verus!
