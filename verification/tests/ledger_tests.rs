use annex::estimate::{estimate_search_reply, plan_estimate_number, plan_get_estimate, Search};
use annex::invoice::{plan_get_invoice, plan_invoice_number, plan_invoice_search};
use annex::ledger::{fiscal_year_range_bson, number_plan, number_reply};
use annex::plan::{FindQuery, Plan, Reply};
use annex::stages::small_page_window;
use bson::Document;

fn signed_in() -> (bool, String) {
    (true, "u1".to_string())
}

fn signed_out() -> (bool, String) {
    (false, "User not found".to_string())
}

fn show_opt(d: &Option<Document>) -> String {
    match d {
        Some(d) => d.to_string(),
        None => "-".to_string(),
    }
}

fn run_find(p: Plan<FindQuery>) -> String {
    match p {
        Plan::Run(q) => format!(
            "{} | {} | {} | {} | {:?}",
            q.collection,
            q.filter,
            show_opt(&q.projection),
            show_opt(&q.sort),
            q.limit
        ),
        _ => panic!("expected a query"),
    }
}

fn bad_request_body(p: Plan<FindQuery>) -> String {
    match p {
        Plan::BadRequest(Some(d)) => d.to_string(),
        _ => panic!("expected a bad request"),
    }
}

#[test]
fn number_plan_refusals() {
    assert!(matches!(number_plan(&signed_out(), "annex_inc_invoice", 5, 2024, 2024), Plan::Unauthorized));
    assert_eq!(
        bad_request_body(number_plan(&signed_in(), "annex_inc_invoice", 5, 2013, 2024)),
        r#"{ "status": false, "msg": "Invalid year" }"#
    );
    assert_eq!(
        bad_request_body(number_plan(&signed_in(), "annex_inc_invoice", 5, 2027, 2024)),
        r#"{ "status": false, "msg": "Invalid year" }"#
    );
    assert_eq!(
        bad_request_body(number_plan(&signed_in(), "annex_inc_invoice", 0, 2024, 2024)),
        r#"{ "status": false, "msg": "Invalid month" }"#
    );
    assert_eq!(
        bad_request_body(number_plan(&signed_in(), "annex_inc_invoice", 13, 2024, 2024)),
        r#"{ "status": false, "msg": "Invalid month" }"#
    );
    // the year is checked before the month
    assert_eq!(
        bad_request_body(number_plan(&signed_in(), "annex_inc_invoice", 13, 2000, 2024)),
        r#"{ "status": false, "msg": "Invalid year" }"#
    );
}

#[test]
fn number_plan_year_bounds_are_inclusive() {
    assert!(matches!(number_plan(&signed_in(), "c", 5, 2014, 2024), Plan::Run(_)));
    assert!(matches!(number_plan(&signed_in(), "c", 5, 2026, 2024), Plan::Run(_)));
}

#[test]
fn number_plan_uses_financial_year() {
    assert_eq!(
        run_find(number_plan(&signed_in(), "annex_inc_invoice", 4, 2024, 2024)),
        r#"annex_inc_invoice | { "u_id": "u1", "date": { "$gte": "2024-04-01", "$lt": "2025-03-31" } } | { "inv_num": 1, "_id": 0 } | { "inv_num": -1 } | Some(1)"#
    );
    assert_eq!(
        run_find(number_plan(&signed_in(), "annex_inc_estimate_invoice", 3, 2024, 2024)),
        r#"annex_inc_estimate_invoice | { "u_id": "u1", "date": { "$gte": "2023-04-01", "$lt": "2024-03-31" } } | { "inv_num": 1, "_id": 0 } | { "inv_num": -1 } | Some(1)"#
    );
}

#[test]
fn financial_year_law_on_values() {
    // April to December of 2024 and January to March of 2025 share a financial year.
    let q_apr = run_find(number_plan(&signed_in(), "c", 4, 2024, 2024));
    let q_dec = run_find(number_plan(&signed_in(), "c", 12, 2024, 2024));
    let q_jan = run_find(number_plan(&signed_in(), "c", 1, 2025, 2024));
    let q_mar = run_find(number_plan(&signed_in(), "c", 3, 2025, 2024));
    assert_eq!(q_apr, q_dec);
    assert_eq!(q_apr, q_jan);
    assert_eq!(q_apr, q_mar);
}

#[test]
fn number_plans_on_current_year() {
    assert!(matches!(plan_estimate_number(&signed_out(), 5, 2024), Plan::Unauthorized));
    assert!(matches!(plan_invoice_number(&signed_in(), 5, 1900), Plan::BadRequest(Some(_))));
}

#[test]
fn next_number_reply() {
    assert_eq!(number_reply(None).to_string(), r#"{ "n": 1 }"#);
    assert_eq!(number_reply(Some(41)).to_string(), r#"{ "n": 42 }"#);
    assert_eq!(number_reply(Some(-5)).to_string(), r#"{ "n": -4 }"#);
}

#[test]
fn range_of_negative_financial_year() {
    assert_eq!(
        bson::Bson::from(fiscal_year_range_bson(-1)).to_string(),
        r#"{ "$gte": "-1-04-01", "$lt": "0-03-31" }"#
    );
}

#[test]
fn record_lookups() {
    let projection = r#"{ "cre_at": 0, "upd_at": 0, "is_del": 0, "u_id": 0, "_id": 0 }"#;
    assert!(matches!(plan_get_estimate(&signed_out(), "e1"), Plan::Unauthorized));
    assert_eq!(
        run_find(plan_get_estimate(&signed_in(), "e1")),
        format!(r#"annex_inc_estimate_invoice | {{ "u_id": "u1", "_id": "e1" }} | {} | - | None"#, projection)
    );
    assert!(matches!(plan_get_invoice(&signed_out(), "i1"), Plan::Unauthorized));
    assert_eq!(
        run_find(plan_get_invoice(&signed_in(), "i1")),
        format!(r#"annex_inc_invoice | {{ "u_id": "u1", "_id": "i1" }} | {} | - | None"#, projection)
    );
}

#[test]
fn estimate_search_answers_status() {
    assert!(matches!(estimate_search_reply(&signed_out()), Reply::Unauthorized));
    match estimate_search_reply(&signed_in()) {
        Reply::Json(d) => assert_eq!(d.to_string(), r#"{ "status": true }"#),
        _ => panic!("expected an answer"),
    }
}

#[test]
fn small_page_window_values() {
    assert_eq!(small_page_window(None, None), Some((0, 10)));
    assert_eq!(small_page_window(Some(4), Some(25)), Some((75, 25)));
    assert_eq!(small_page_window(Some(i16::MIN), None), None);
    assert_eq!(small_page_window(Some(1000), Some(1000)), None);
    assert_eq!(small_page_window(Some(-2), Some(10)), Some((-30, 10)));
}

#[test]
fn invoice_search_full() {
    let body = Search { cst_name: Some("ab".to_string()), y: 2023, n: None, p: Some(2), l: Some(5) };
    assert!(matches!(plan_invoice_search(&signed_out(), &body), Plan::Unauthorized));
    match plan_invoice_search(&signed_in(), &body) {
        Plan::Run(pl) => {
            assert_eq!(pl.collection, "annex_inc_invoice");
            let stages: Vec<String> = pl.stages.iter().map(|d| d.to_string()).collect();
            assert_eq!(
                stages,
                vec![
                    r#"{ "$match": { "is_del": false, "u_id": "u1" } }"#,
                    r#"{ "$lookup": { "from": "annex_inc_customers", "localField": "cst_name", "foreignField": "_id", "as": "customer" } }"#,
                    r#"{ "$unwind": "$customer" }"#,
                    r#"{ "$match": { "$or": [{ "customer.name": { "$regex": "ab", "$options": "i" } }, { "customer.b_name": { "$regex": "ab", "$options": "i" } }] } }"#,
                    r#"{ "$match": { "date": { "$gte": "2023-04-01", "$lt": "2024-03-31" } } }"#,
                    r#"{ "$sort": { "date": -1 } }"#,
                    r#"{ "$project": { "_id": 0, "id": "$_id", "cust_name": "$customer.name", "b_name": "$customer.business_name", "t": 1, "inv_num": 1, "date": 1, "pymt_type": 1, "amt": 1, "f": 1, "is_fin": 1, "is_vrfy": 1 } }"#,
                    r#"{ "$facet": { "data": [{ "$skip": 5 }, { "$limit": 5 }], "metadata": [{ "$count": "total" }] } }"#,
                ]
            );
        },
        _ => panic!("expected a pipeline"),
    }
}

#[test]
fn invoice_search_minimal() {
    let body = Search { cst_name: None, y: 0, n: Some(3), p: None, l: None };
    match plan_invoice_search(&signed_in(), &body) {
        Plan::Run(pl) => {
            assert_eq!(pl.stages.len(), 6);
            assert_eq!(pl.stages[3].to_string(), r#"{ "$sort": { "date": -1 } }"#);
            assert_eq!(
                pl.stages[5].to_string(),
                r#"{ "$facet": { "data": [{ "$skip": 0 }, { "$limit": 10 }], "metadata": [{ "$count": "total" }] } }"#
            );
        },
        _ => panic!("expected a pipeline"),
    }
}

#[test]
fn invoice_search_signed_out_with_any_page() {
    let body = Search { cst_name: None, y: i32::MAX, n: None, p: Some(i16::MIN), l: Some(i16::MAX) };
    assert!(matches!(plan_invoice_search(&signed_out(), &body), Plan::Unauthorized));
}

#[test]
fn number_plans_on_the_clock_year() {
    let year = chrono::Datelike::year(&chrono::Utc::now());
    let est = run_find(plan_estimate_number(&signed_in(), 5, year));
    assert!(est.starts_with("annex_inc_estimate_invoice | "));
    let inv = run_find(plan_invoice_number(&signed_in(), 2, year));
    assert!(inv.starts_with("annex_inc_invoice | "));
    assert!(inv.contains(&format!("\"$gte\": \"{}-04-01\"", year - 1)));
}
