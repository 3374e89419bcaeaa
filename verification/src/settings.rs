//! The settings endpoint: the signed-in user's settings document.
use crate::bsondoc::{self, num, text, Entries};
use crate::plan::{FindModel, FindQuery, Plan, Reply};
use crate::stages::{self, one};
use bson::Document;
use vstd::prelude::*;

verus! {

/// The lookup of the signed-in user's settings, without its ids.
pub open spec fn settings_query(user_id: Seq<char>) -> FindModel {
    FindModel {
        collection: "annex_inc_settings"@,
        filter: one("u_id"@, text(user_id)),
        projection: Some(bsondoc::doc_of(seq![("u_id"@, num(0)), ("_id"@, num(0))])),
        sort: None,
        limit: None,
    }
}

/// The settings request: refused unless signed in, else the lookup of the
/// signed-in user's settings.
pub fn plan_settings(auth: &(bool, String)) -> (r: Plan<FindQuery>)
    ensures
        !auth.0 ==> r is Unauthorized,
        auth.0 ==> (r matches Plan::Run(q) && q@ == settings_query(auth.1@)),
{
    if !auth.0 {
        return Plan::Unauthorized;
    }
    let proj = vec![("u_id", bsondoc::bson_i32(0)), ("_id", bsondoc::bson_i32(0))];
    let ghost gp = proj@;
    let projection = bsondoc::make_doc(proj);
    assert(bsondoc::pairs_model(gp) =~= seq![("u_id"@, num(0)), ("_id"@, num(0))]);
    Plan::Run(
        FindQuery {
            collection: "annex_inc_settings",
            filter: stages::single("u_id", bsondoc::bson_str(auth.1.as_str())),
            projection: Some(projection),
            sort: None,
            limit: None,
        },
    )
}

/// `{"msg": "No data found"}`.
pub open spec fn no_data() -> Entries {
    one("msg"@, text("No data found"@))
}

/// `{"msg": "No data found"}`.
pub fn no_data_doc() -> (d: Document)
    ensures
        bsondoc::doc_entries(d) == no_data(),
{
    stages::single("msg", bsondoc::bson_str("No data found"))
}

/// What a found document answers: the document itself, or
/// `{"msg": "No data found"}` where none was found or it is empty.
pub open spec fn found_or_no_data(found: Option<Document>) -> Entries {
    match found {
        Some(d) => if bsondoc::doc_entries(d).len() == 0 {
            no_data()
        } else {
            bsondoc::doc_entries(d)
        },
        None => no_data(),
    }
}

/// The answer of the settings request, on the settings found.
pub fn settings_reply(found: Option<Document>) -> (r: Reply)
    ensures
        r matches Reply::Json(d) && bsondoc::doc_entries(d) == found_or_no_data(found),
{
    let v = match found {
        Some(d) => d,
        None => bsondoc::doc_new(),
    };
    if bsondoc::doc_is_empty(&v) {
        Reply::Json(no_data_doc())
    } else {
        Reply::Json(v)
    }
}

} // verus!
