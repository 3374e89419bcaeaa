use annex::customer::{
    annex_reply, customer_estimates, customer_payments, plan_all_customers, plan_annex_user_count,
    plan_check_gstin, plan_check_username, plan_customer_statement, plan_get_customer,
    plan_search_customers, status_false_doc, test_reply, AnnexIdCheckGstin, AnnexIdCheckUsername,
    GetInvoices, Search, StatementId, Users,
};
use annex::plan::{FindQuery, Pipeline, Plan};
use bson::Document;

fn signed_in() -> (bool, String) {
    (true, "u1".to_string())
}

fn signed_out() -> (bool, String) {
    (false, "Token is invalid".to_string())
}

fn show_opt(d: &Option<Document>) -> String {
    match d {
        Some(d) => d.to_string(),
        None => "-".to_string(),
    }
}

fn show_find(q: &FindQuery) -> String {
    format!(
        "{} | {} | {} | {} | {:?}",
        q.collection,
        q.filter,
        show_opt(&q.projection),
        show_opt(&q.sort),
        q.limit
    )
}

fn run_find(p: Plan<FindQuery>) -> String {
    match p {
        Plan::Run(q) => show_find(&q),
        _ => panic!("expected a query"),
    }
}

fn run_pipeline(p: Plan<Pipeline>) -> (String, Vec<String>) {
    match p {
        Plan::Run(pl) => (pl.collection.to_string(), pl.stages.iter().map(|d| d.to_string()).collect()),
        _ => panic!("expected a pipeline"),
    }
}

const CUSTOMER_PROJECTION: &str = r#"{ "cre_at": 0, "upd_at": 0, "cls_bal": 0, "cls_fine": 0, "u_id": 0 }"#;

#[test]
fn test_endpoint_answer() {
    assert_eq!(test_reply().to_string(), r#"{ "status": true, "msg": "Test" }"#);
}

#[test]
fn get_customer_refused_when_signed_out() {
    assert!(matches!(plan_get_customer(&signed_out(), "c1"), Plan::Unauthorized));
}

#[test]
fn get_customer_query() {
    assert_eq!(
        run_find(plan_get_customer(&signed_in(), "c1")),
        format!(r#"annex_inc_customers | {{ "_id": "c1", "u_id": "u1" }} | {} | - | None"#, CUSTOMER_PROJECTION)
    );
}

#[test]
fn all_customers_query_limits_to_ten() {
    assert!(matches!(plan_all_customers(&signed_out()), Plan::Unauthorized));
    assert_eq!(
        run_find(plan_all_customers(&signed_in())),
        format!(r#"annex_inc_customers | {{ "u_id": "u1" }} | {} | - | Some(10)"#, CUSTOMER_PROJECTION)
    );
}

#[test]
fn check_username_paths() {
    let body = AnnexIdCheckUsername { u_name: Some("alice".to_string()) };
    assert!(matches!(plan_check_username(&signed_out(), &body), Plan::Unauthorized));
    assert_eq!(
        run_find(plan_check_username(&signed_in(), &body)),
        r#"annex_inc_users | { "username": "alice" } | { "username": 1, "gstin": 1, "_id": 1 } | - | None"#
    );
    match plan_check_username(&signed_in(), &AnnexIdCheckUsername { u_name: None }) {
        Plan::BadRequest(Some(d)) => assert_eq!(d.to_string(), r#"{ "status": false }"#),
        _ => panic!("expected a bad request with a body"),
    }
}

#[test]
fn check_gstin_paths() {
    let body = AnnexIdCheckGstin { gstin: Some("27ABCDE1234F1Z5".to_string()) };
    assert!(matches!(plan_check_gstin(&signed_out(), &body), Plan::Unauthorized));
    assert_eq!(
        run_find(plan_check_gstin(&signed_in(), &body)),
        r#"annex_inc_users | { "gstin": "27ABCDE1234F1Z5" } | { "username": 1, "gstin": 1, "_id": 1 } | - | None"#
    );
    assert!(matches!(
        plan_check_gstin(&signed_in(), &AnnexIdCheckGstin { gstin: None }),
        Plan::BadRequest(None)
    ));
}

#[test]
fn annex_reply_found_and_missing() {
    let found = Users { _id: "u9".to_string(), username: Some("zed".to_string()), gstin: None };
    match annex_reply(Some(found)) {
        Ok(a) => {
            assert_eq!(a._id, "u9");
            assert_eq!(a.username, "zed");
            assert_eq!(a.gstin, None);
            assert_eq!(a.msg, "User found");
        },
        Err(_) => panic!("expected a user"),
    }
    match annex_reply(None) {
        Err(d) => assert_eq!(d.to_string(), r#"{ "status": false }"#),
        Ok(_) => panic!("expected a refusal"),
    }
    assert_eq!(status_false_doc().to_string(), r#"{ "status": false }"#);
}

#[test]
fn annex_user_count_query() {
    let body = GetInvoices { anx_id: "a7".to_string() };
    assert!(matches!(plan_annex_user_count(&signed_out(), &body), Plan::Unauthorized));
    assert_eq!(run_find(plan_annex_user_count(&signed_in(), &body)), r#"annex_inc_users | { "_id": "a7" } | - | - | None"#);
}

#[test]
fn recent_estimates_pipeline() {
    match customer_estimates(0, "a7", "u1") {
        Plan::BadRequest(Some(d)) => assert_eq!(d.to_string(), r#"{ "status": false }"#),
        _ => panic!("expected a bad request"),
    }
    let (coll, stages) = run_pipeline(customer_estimates(1, "a7", "u1"));
    assert_eq!(coll, "annex_inc_estimate_invoice");
    assert_eq!(
        stages,
        vec![
            r#"{ "$match": { "u_id": "a7" } }"#,
            r#"{ "$limit": 5 }"#,
            r#"{ "$lookup": { "from": "annex_inc_customers", "localField": "cst_name", "foreignField": "_id", "as": "customers", "pipeline": [{ "$match": { "anx_id": "u1" } }] } }"#,
            r#"{ "$unwind": "$customers" }"#,
            r#"{ "$project": { "_id": 1, "t": 1, "inv_num": 1, "pymt_type": 1, "date": 1, "f": 1, "amt": 1 } }"#,
            r#"{ "$sort": { "cre_at": -1 } }"#,
        ]
    );
}

#[test]
fn recent_payments_pipeline() {
    assert!(matches!(customer_payments(0, "a7", "u1"), Plan::BadRequest(Some(_))));
    let (coll, stages) = run_pipeline(customer_payments(3, "a7", "u1"));
    assert_eq!(coll, "annex_inc_payment");
    assert_eq!(stages[4], r#"{ "$project": { "_id": 1, "t": 1, "pyt_num": 1, "date": 1, "f": 1, "amt": 1 } }"#);
    assert_eq!(stages.len(), 6);
}

#[test]
fn customer_search_with_every_filter() {
    let body = Search {
        cst_name: Some("ram".to_string()),
        city: Some("Pune".to_string()),
        state: Some("MH".to_string()),
        p: Some(3),
        l: Some(20),
    };
    assert!(matches!(plan_search_customers(&signed_out(), &body), Plan::Unauthorized));
    let (coll, stages) = run_pipeline(plan_search_customers(&signed_in(), &body));
    assert_eq!(coll, "annex_inc_customers");
    assert_eq!(
        stages,
        vec![
            r#"{ "$match": { "is_act": true, "is_del": false, "u_id": "u1", "name": { "$regex": "ram", "$options": "i" }, "city": "Pune", "state": "MH" } }"#,
            r#"{ "$sort": { "cls_fine": 1 } }"#,
            r#"{ "$project": { "_id": 0, "id": "$_id", "name": 1, "b_name": 1, "city": 1, "state": 1, "gstin": 1, "ph": { "$first": "$ph" } } }"#,
            r#"{ "$facet": { "metadata": [{ "$count": "total" }], "data": [{ "$skip": 40 }, { "$limit": 20 }] } }"#,
        ]
    );
}

#[test]
fn customer_search_defaults() {
    let body = Search { cst_name: None, city: None, state: None, p: None, l: None };
    let (_, stages) = run_pipeline(plan_search_customers(&signed_in(), &body));
    assert_eq!(stages[0], r#"{ "$match": { "is_act": true, "is_del": false, "u_id": "u1" } }"#);
    assert_eq!(stages[3], r#"{ "$facet": { "metadata": [{ "$count": "total" }], "data": [{ "$skip": 0 }, { "$limit": 10 }] } }"#);
}

#[test]
fn statement_pipeline() {
    let body = StatementId { id: "c5".to_string() };
    assert!(matches!(plan_customer_statement(&signed_out(), &body), Plan::Unauthorized));
    let (coll, stages) = run_pipeline(plan_customer_statement(&signed_in(), &body));
    assert_eq!(coll, "annex_inc_customers");
    assert_eq!(
        stages,
        vec![
            r#"{ "$match": { "is_act": true, "is_del": false, "u_id": "u1", "_id": "c5" } }"#,
            r#"{ "$lookup": { "from": "annex_inc_estimate_invoice", "localField": "_id", "foreignField": "cst_name", "as": "estimate", "pipeline": [{ "$match": { "is_del": false, "u_id": "u1" } }, { "$lookup": { "from": "annex_inc_estimate_invoice", "localField": "anx_est_id", "foreignField": "_id", "as": "anx_est" } }, { "$unwind": { "path": "$anx_est", "preserveNullAndEmptyArrays": true } }, { "$project": { "_id": 1, "t": 1, "inv_num": 1, "pymt_type": 1, "date": 1, "f": 1, "is_vrfy": 1, "amt": 1, "anx_est": { "t": 1, "pymt_type": 1, "date": 1, "f": 1, "amt": 1, "is_vrfy": 1 } } }, { "$sort": { "inv_num": 1 } }] } }"#,
            r#"{ "$lookup": { "from": "annex_inc_payment", "localField": "_id", "foreignField": "cst_name", "as": "payment", "pipeline": [{ "$match": { "is_del": false, "u_id": "u1" } }, { "$lookup": { "from": "annex_inc_payment", "localField": "anx_pyt_id", "foreignField": "_id", "as": "anx_pyt" } }, { "$unwind": { "path": "$anx_pyt", "preserveNullAndEmptyArrays": true } }, { "$project": { "_id": 1, "t": 1, "pyt_num": 1, "date": 1, "f": 1, "amt": 1, "is_vrfy": 1, "anx_pyt": { "t": 1, "date": 1, "f": 1, "amt": 1, "is_vrfy": 1 } } }, { "$sort": { "pyt_num": 1 } }] } }"#,
            r#"{ "$project": { "_id": 0, "id": "$_id", "name": 1, "b_name": 1, "city": 1, "state": 1, "gstin": 1, "ph": 1, "op_bal": 1, "op_fine": 1, "cls_bal": 1, "cls_fine": 1, "estimate": 1, "payment": 1 } }"#,
        ]
    );
}

#[test]
fn customer_search_signed_out_with_any_page() {
    let body = Search { cst_name: None, city: None, state: None, p: Some(i32::MIN), l: Some(i32::MAX) };
    assert!(matches!(plan_search_customers(&signed_out(), &body), Plan::Unauthorized));
}
