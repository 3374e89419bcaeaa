use annex::plan::{Pipeline, Plan};
use annex::product::{plan_categories, plan_product_search, ProductSearch};
use bson::Bson;

fn signed_in() -> (bool, String) {
    (true, "u1".to_string())
}

fn stages_of(p: Plan<Pipeline>) -> (String, Vec<String>) {
    match p {
        Plan::Run(pl) => (pl.collection.to_string(), pl.stages.iter().map(|d| d.to_string()).collect()),
        _ => panic!("expected a pipeline"),
    }
}

#[test]
fn categories_pipeline() {
    assert!(matches!(plan_categories(&(false, String::new())), Plan::Unauthorized));
    let (coll, stages) = stages_of(plan_categories(&signed_in()));
    assert_eq!(coll, "annex_inc_category");
    assert_eq!(
        stages,
        vec![
            r#"{ "$match": { "is_del": false, "u_id": "u1" } }"#,
            r#"{ "$group": { "_id": "$comm" } }"#,
            r#"{ "$project": { "_id": 0, "name": "$_id" } }"#,
        ]
    );
}

#[test]
fn product_search_without_filters() {
    let body = ProductSearch { name: None, tch_from: None, tch_to: None, mark: None, p: None, l: None };
    let (coll, stages) = stages_of(plan_product_search(&signed_in(), body));
    assert_eq!(coll, "annex_inc_products");
    assert_eq!(
        stages,
        vec![
            r#"{ "$match": { "is_del": false, "is_act": true, "is_selb": true, "u_id": "u1" } }"#,
            r#"{ "$unwind": { "path": "$itm", "preserveNullAndEmptyArrays": true } }"#,
            r#"{ "$unwind": { "path": "$itm.tch", "preserveNullAndEmptyArrays": true } }"#,
            r#"{ "$sort": { "tch": -1, "op_s": -1 } }"#,
            r#"{ "$project": { "_id": 0, "count": "$total", "id": "$_id", "name": 1, "mark": 1, "tch": "$itm.tch", "op_s": "$itm.wgt", "sl_w": 1, "prs_w": 1, "sl_r": 1, "prs_r": 1, "gst": 1, "hsn": 1, "tx": 1 } }"#,
            r#"{ "$facet": { "data": [{ "$skip": 0 }, { "$limit": 10 }], "metadata": [{ "$count": "total" }] } }"#,
        ]
    );
}

#[test]
fn product_search_upper_touch_bound_replaces_lower() {
    let body = ProductSearch {
        name: Some("ring".to_string()),
        tch_from: Some(Bson::from(75.5f32)),
        tch_to: Some(Bson::from(92.0f32)),
        mark: Some("916".to_string()),
        p: Some(2),
        l: Some(30),
    };
    let (_, stages) = stages_of(plan_product_search(&signed_in(), body));
    assert_eq!(
        stages[0],
        r#"{ "$match": { "is_del": false, "is_act": true, "is_selb": true, "u_id": "u1", "name": { "$regex": "ring", "$options": "i" }, "itm.tch": { "$lte": 92 }, "mark": { "$regex": "916", "$options": "i" } } }"#
    );
    assert_eq!(
        stages[5],
        r#"{ "$facet": { "data": [{ "$skip": 30 }, { "$limit": 30 }], "metadata": [{ "$count": "total" }] } }"#
    );
}

#[test]
fn product_search_lower_touch_bound_alone() {
    let body = ProductSearch {
        name: None,
        tch_from: Some(Bson::from(58.5f32)),
        tch_to: None,
        mark: None,
        p: None,
        l: None,
    };
    let (_, stages) = stages_of(plan_product_search(&signed_in(), body));
    assert_eq!(
        stages[0],
        r#"{ "$match": { "is_del": false, "is_act": true, "is_selb": true, "u_id": "u1", "itm.tch": { "$gte": 58.5 } } }"#
    );
}

#[test]
fn product_search_signed_out_with_any_page() {
    let body = ProductSearch { name: None, tch_from: None, tch_to: None, mark: None, p: Some(i32::MIN), l: Some(i32::MAX) };
    assert!(matches!(plan_product_search(&(false, String::new()), body), Plan::Unauthorized));
}
