//! What estimates and invoices share: financial years (April to March),
//! the next document number of a financial year, and the lookup of one
//! document.
use crate::bsondoc::{self, num, text, BsonValue, Entries};
use crate::plan::{FindModel, FindQuery, Plan};
use crate::stages::{self, one};
use crate::text::{decimal, decimal_string};
use bson::{Bson, Document};
use chrono::{DateTime, Datelike};
use std::time::{Duration, SystemTime, UNIX_EPOCH};
use vstd::prelude::*;

verus! {

#[verifier::external_type_specification]
#[verifier::external_body]
pub struct ExSystemTime(std::time::SystemTime);

/// `SystemTime::now`: the time of the system clock. Nothing is stated of it:
/// it is whatever the clock reads.
#[verifier::external_body]
fn clock_now() -> (t: SystemTime) {
    SystemTime::now()
}

/// `SystemTime::duration_since(UNIX_EPOCH)`: the time elapsed since the Unix
/// epoch, `None` where the clock reads before it (the error case). Nothing
/// is stated of the duration, which depends on the clock.
#[verifier::external_body]
fn since_epoch(t: &SystemTime) -> (d: Option<Duration>) {
    match t.duration_since(UNIX_EPOCH) {
        Ok(d) => Some(d),
        Err(_) => None,
    }
}

/// `Duration::as_secs`: the whole seconds of a duration. A duration is
/// opaque here, so nothing is stated of the number.
#[verifier::external_body]
fn whole_seconds(d: &Duration) -> (s: u64) {
    d.as_secs()
}

/// The UTC year at `secs` seconds after the Unix epoch, `None` where chrono
/// has no date for that instant.
pub uninterp spec fn timestamp_year(secs: i64) -> Option<i32>;

/// `DateTime::from_timestamp(secs, 0)`, then `Datelike::year` of the date
/// found: the UTC year at that instant, or `None` where the instant lies
/// outside chrono's dates. The year is within chrono's range, as chrono
/// keeps a year as an `i32` shifted right by 13 bits.
#[verifier::external_body]
fn year_at(secs: i64) -> (r: Option<i32>)
    ensures
        r == timestamp_year(secs),
        r matches Some(y) ==> -262144 <= y <= 262143,
{
    match DateTime::from_timestamp(secs, 0) {
        Some(d) => Some(Datelike::year(&d)),
        None => None,
    }
}

/// The current year in UTC, from the system clock; `None` where the clock
/// reads before the Unix epoch or outside chrono's dates.
fn current_utc_year() -> (r: Option<i32>)
    ensures
        r matches Some(y) ==> -262144 <= y <= 262143 && exists|secs: i64|
            timestamp_year(secs) == Some(y),
{
    let now = clock_now();
    match since_epoch(&now) {
        None => None,
        Some(d) => {
            let s = whole_seconds(&d);
            if s > 9223372036854775807u64 {
                None
            } else {
                let r = year_at(s as i64);
                proof {
                    if r is Some {
                        assert(timestamp_year(s as i64) == r);
                    }
                }
                r
            }
        },
    }
}

/// The financial year (April to March) that month `month` of `year` falls
/// in, named by the year it starts in.
pub open spec fn fiscal_year(month: int, year: int) -> int {
    if month < 4 {
        year - 1
    } else {
        year
    }
}

/// The dates of financial year `fy`, as strings: from `fy-04-01` on, and
/// before `(fy+1)-03-31`.
pub open spec fn fiscal_year_range(fy: int) -> BsonValue {
    bsondoc::obj(
        seq![
            ("$gte"@, text(decimal(fy) + "-04-01"@)),
            ("$lt"@, text(decimal(fy + 1) + "-03-31"@)),
        ],
    )
}

/// The date range of financial year `fy`.
pub fn fiscal_year_range_bson(fy: i32) -> (b: Bson)
    requires
        fy < i32::MAX,
    ensures
        bsondoc::bson_value(b) == fiscal_year_range(fy as int),
{
    let mut start = decimal_string(fy);
    start.append("-04-01");
    let mut end = decimal_string(fy + 1);
    end.append("-03-31");
    let pairs = vec![("$gte", bsondoc::bson_str(start.as_str())), ("$lt", bsondoc::bson_str(end.as_str()))];
    let ghost gp = pairs@;
    let b = bsondoc::obj_bson(pairs);
    assert(bsondoc::pairs_model(gp) =~= seq![
        ("$gte"@, text(decimal(fy as int) + "-04-01"@)),
        ("$lt"@, text(decimal(fy + 1) + "-03-31"@)),
    ]);
    b
}

/// `{"status": false, "msg": msg}`.
pub open spec fn refusal(msg: Seq<char>) -> Entries {
    bsondoc::doc_of(seq![("status"@, BsonValue::Boolean(false)), ("msg"@, text(msg))])
}

fn refusal_doc(msg: &str) -> (d: Document)
    ensures
        bsondoc::doc_entries(d) == refusal(msg@),
{
    let pairs = vec![("status", bsondoc::bson_bool(false)), ("msg", bsondoc::bson_str(msg))];
    let ghost gp = pairs@;
    let d = bsondoc::make_doc(pairs);
    assert(bsondoc::pairs_model(gp) =~= seq![
        ("status"@, BsonValue::Boolean(false)),
        ("msg"@, text(msg@)),
    ]);
    d
}

/// The query for the highest number in `collection` of the signed-in
/// user's documents of financial year `fy`.
pub open spec fn last_number_query(collection: Seq<char>, user_id: Seq<char>, fy: int) -> FindModel {
    FindModel {
        collection,
        filter: bsondoc::doc_of(seq![("u_id"@, text(user_id)), ("date"@, fiscal_year_range(fy))]),
        projection: Some(bsondoc::doc_of(seq![("inv_num"@, num(1)), ("_id"@, num(0))])),
        sort: Some(one("inv_num"@, num(-1i32))),
        limit: Some(1),
    }
}

/// What a next-number request does, for month `month` of `year` when the
/// current year is `current_year`: refused unless signed in; a year more
/// than 10 years back or 2 years ahead, then a month out of 1 to 12, is a
/// bad request; else the highest number of the financial year of that
/// month is looked up.
pub open spec fn number_plan_is(
    r: Plan<FindQuery>,
    auth: (bool, Seq<char>),
    collection: Seq<char>,
    month: i32,
    year: i32,
    current_year: i32,
) -> bool {
    if !auth.0 {
        r is Unauthorized
    } else if year < current_year - 10 || year > current_year + 2 {
        r matches Plan::BadRequest(Some(d)) && bsondoc::doc_entries(d) == refusal("Invalid year"@)
    } else if month < 1 || month > 12 {
        r matches Plan::BadRequest(Some(d)) && bsondoc::doc_entries(d) == refusal("Invalid month"@)
    } else {
        r matches Plan::Run(q) && q@ == last_number_query(
            collection,
            auth.1,
            fiscal_year(month as int, year as int),
        )
    }
}

/// The next-number request on `collection`, given the current year.
pub fn number_plan(
    auth: &(bool, String),
    collection: &'static str,
    month: i32,
    year: i32,
    current_year: i32,
) -> (r: Plan<FindQuery>)
    requires
        -262144 <= current_year <= 262143,
    ensures
        number_plan_is(r, (auth.0, auth.1@), collection@, month, year, current_year),
{
    if !auth.0 {
        return Plan::Unauthorized;
    }
    if year < current_year - 10 || year > current_year + 2 {
        return Plan::BadRequest(Some(refusal_doc("Invalid year")));
    }
    if month < 1 || month > 12 {
        return Plan::BadRequest(Some(refusal_doc("Invalid month")));
    }
    let fy = if month < 4 {
        year - 1
    } else {
        year
    };
    let range = fiscal_year_range_bson(fy);
    let pairs = vec![("u_id", bsondoc::bson_str(auth.1.as_str())), ("date", range)];
    let ghost gp = pairs@;
    let filter = bsondoc::make_doc(pairs);
    assert(bsondoc::pairs_model(gp) =~= seq![
        ("u_id"@, text(auth.1@)),
        ("date"@, fiscal_year_range(fy as int)),
    ]);
    let proj = vec![("inv_num", bsondoc::bson_i32(1)), ("_id", bsondoc::bson_i32(0))];
    let ghost gproj = proj@;
    let projection = bsondoc::make_doc(proj);
    assert(bsondoc::pairs_model(gproj) =~= seq![("inv_num"@, num(1)), ("_id"@, num(0))]);
    Plan::Run(
        FindQuery {
            collection,
            filter,
            projection: Some(projection),
            sort: Some(stages::single("inv_num", bsondoc::bson_i32(-1))),
            limit: Some(1),
        },
    )
}

/// The refusal of a next-number request when the clock gives no current
/// year.
pub open spec fn no_current_year() -> Entries {
    refusal("Current year unavailable"@)
}

/// What a next-number request does on the current year in UTC: refused
/// unless signed in; else what `number_plan_is` says for the year at some
/// instant, or a bad request where the clock gives no year.
pub open spec fn number_plan_now_is(
    r: Plan<FindQuery>,
    auth: (bool, Seq<char>),
    collection: Seq<char>,
    month: i32,
    year: i32,
) -> bool {
    if !auth.0 {
        r is Unauthorized
    } else {
        ||| exists|secs: i64, cy: i32|
            #![trigger timestamp_year(secs), number_plan_is(r, auth, collection, month, year, cy)]
            -262144 <= cy <= 262143 && timestamp_year(secs) == Some(cy) && number_plan_is(
                r,
                auth,
                collection,
                month,
                year,
                cy,
            )
        ||| r matches Plan::BadRequest(Some(d)) && bsondoc::doc_entries(d) == no_current_year()
    }
}

/// The next-number request on `collection`, on the current year in UTC.
pub(crate) fn number_plan_now(auth: &(bool, String), collection: &'static str, month: i32, year: i32) -> (r:
    Plan<FindQuery>)
    ensures
        number_plan_now_is(r, (auth.0, auth.1@), collection@, month, year),
{
    if !auth.0 {
        return Plan::Unauthorized;
    }
    match current_utc_year() {
        Some(cy) => {
            let r = number_plan(auth, collection, month, year, cy);
            proof {
                let secs = choose|secs: i64| timestamp_year(secs) == Some(cy);
                assert(timestamp_year(secs) == Some(cy));
                assert(number_plan_is(r, (auth.0, auth.1@), collection@, month, year, cy));
            }
            r
        },
        None => Plan::BadRequest(Some(refusal_doc("Current year unavailable"))),
    }
}

/// The number of the next document: one more than the highest number
/// found, or 1 where the financial year has none yet.
pub open spec fn next_number(found: Option<i32>) -> int {
    match found {
        Some(n) => n + 1,
        None => 1,
    }
}

/// `{"n": next}` on the highest number found (the first of `found`, which
/// the query sorted by decreasing number); that number must be below
/// `i32::MAX`.
pub fn number_reply(found: Option<i32>) -> (d: Document)
    requires
        found matches Some(n) ==> n < i32::MAX,
    ensures
        bsondoc::doc_entries(d) == one("n"@, num(next_number(found) as i32)),
{
    let n = match found {
        Some(top) => top + 1,
        None => 1,
    };
    stages::single("n", bsondoc::bson_i32(n))
}

/// The fields that a document lookup leaves out.
pub open spec fn record_projection() -> Entries {
    bsondoc::flags(seq!["cre_at", "upd_at", "is_del", "u_id", "_id"], 0)
}

/// The lookup of document `id` of the signed-in user in `collection`.
pub open spec fn record_query(collection: Seq<char>, user_id: Seq<char>, id: Seq<char>) -> FindModel {
    FindModel {
        collection,
        filter: bsondoc::doc_of(seq![("u_id"@, text(user_id)), ("_id"@, text(id))]),
        projection: Some(record_projection()),
        sort: None,
        limit: None,
    }
}

/// Document `id` in `collection`: refused unless signed in, else looked up
/// among the signed-in user's documents.
pub(crate) fn record_plan(auth: &(bool, String), collection: &'static str, id: &str) -> (r: Plan<
    FindQuery,
>)
    ensures
        !auth.0 ==> r is Unauthorized,
        auth.0 ==> (r matches Plan::Run(q) && q@ == record_query(collection@, auth.1@, id@)),
{
    if !auth.0 {
        return Plan::Unauthorized;
    }
    let pairs = vec![("u_id", bsondoc::bson_str(auth.1.as_str())), ("_id", bsondoc::bson_str(id))];
    let ghost gp = pairs@;
    let filter = bsondoc::make_doc(pairs);
    assert(bsondoc::pairs_model(gp) =~= seq![("u_id"@, text(auth.1@)), ("_id"@, text(id@))]);
    Plan::Run(
        FindQuery {
            collection,
            filter,
            projection: Some(bsondoc::flag_doc(vec!["cre_at", "upd_at", "is_del", "u_id", "_id"], 0)),
            sort: None,
            limit: None,
        },
    )
}

/// The months April to December of a year and January to March of the
/// next fall in one financial year, named by the first.
pub proof fn lemma_fiscal_year_spans_april_to_march(year: int, month: int)
    requires
        1 <= month <= 12,
    ensures
        month >= 4 ==> fiscal_year(month, year) == year,
        month < 4 ==> fiscal_year(month, year + 1) == year,
        year - 1 <= fiscal_year(month, year) <= year,
{
}

/// The next number is above every number that the financial year has: it
/// is one more than the highest.
pub proof fn lemma_next_number_is_new(top: i32, other: i32)
    requires
        other <= top,
    ensures
        next_number(Some(top)) > other,
        next_number(None) == 1,
{
}

/// The next number is exactly one more than the highest number found, and
/// 1 where the financial year has none; the reply `{"n": ...}` of a next-
/// number request carries exactly that number under `n`.
pub proof fn lemma_next_number_exact(found: Option<i32>)
    ensures
        found matches Some(n) ==> next_number(found) == n + 1,
        found is None ==> next_number(found) == 1,
        (found matches Some(n) ==> n < i32::MAX) ==> bsondoc::entries_get(
            one("n"@, num(next_number(found) as i32)),
            "n"@,
        ) == Some(
            BsonValue::Int32(
                match found {
                    Some(n) => (n + 1) as i32,
                    None => 1i32,
                },
            ),
        ),
{
    bsondoc::lemma_get_doc_of(seq![("n"@, num(next_number(found) as i32))], "n"@);
    bsondoc::lemma_last_value_one("n"@, num(next_number(found) as i32), "n"@);
}

/// Which next-number requests of a signed-in user run: exactly those for a
/// year from ten years before to two years after the current one and a
/// month from 1 to 12. A request that runs looks in the signed-in user's
/// documents of `collection` dated in the financial year that holds that
/// month: the one starting in April of `year` for April to December, of
/// `year - 1` for January to March.
pub proof fn lemma_number_plan_window(
    r: Plan<FindQuery>,
    auth: (bool, Seq<char>),
    collection: Seq<char>,
    month: i32,
    year: i32,
    current_year: i32,
)
    requires
        auth.0,
        number_plan_is(r, auth, collection, month, year, current_year),
    ensures
        r is Run <==> (current_year - 10 <= year <= current_year + 2 && 1 <= month <= 12),
        r matches Plan::Run(q) ==> q@.collection == collection && q@.filter == bsondoc::doc_of(
            seq![
                ("u_id"@, text(auth.1)),
                (
                    "date"@,
                    fiscal_year_range(
                        if month >= 4 {
                            year as int
                        } else {
                            year - 1
                        },
                    ),
                ),
            ],
        ),
{
}

} // verus!
