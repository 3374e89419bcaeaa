use annex::plan::{Pipeline, Plan, Reply};
use annex::settings::{no_data_doc, plan_settings, settings_reply};
use annex::storage::{
    media_record_ok_exec, media_reply, plan_media, plan_storage_info, storage_group_ok, storage_info_add,
    storage_info_finish, storage_info_start, storage_totals_ok, temp_media_path, MediaReply,
};
use bson::{Bson, Document};

fn doc(pairs: &[(&str, Bson)]) -> Document {
    let mut d = Document::new();
    for (k, v) in pairs {
        d.insert(*k, v.clone());
    }
    d
}

#[test]
fn settings_query_and_answers() {
    assert!(matches!(plan_settings(&(false, String::new())), Plan::Unauthorized));
    match plan_settings(&(true, "u1".to_string())) {
        Plan::Run(q) => {
            assert_eq!(q.collection, "annex_inc_settings");
            assert_eq!(q.filter.to_string(), r#"{ "u_id": "u1" }"#);
            assert_eq!(q.projection.unwrap().to_string(), r#"{ "u_id": 0, "_id": 0 }"#);
        },
        _ => panic!("expected a query"),
    }
    let no_data = r#"{ "msg": "No data found" }"#;
    assert_eq!(no_data_doc().to_string(), no_data);
    match settings_reply(None) {
        Reply::Json(d) => assert_eq!(d.to_string(), no_data),
        _ => panic!(),
    }
    match settings_reply(Some(Document::new())) {
        Reply::Json(d) => assert_eq!(d.to_string(), no_data),
        _ => panic!(),
    }
    match settings_reply(Some(doc(&[("gst", Bson::from(3))]))) {
        Reply::Json(d) => assert_eq!(d.to_string(), r#"{ "gst": 3 }"#),
        _ => panic!(),
    }
}

#[test]
fn media_lookup_and_answers() {
    let q = plan_media("f1");
    assert_eq!(q.collection, "annex_inc_storage");
    assert_eq!(q.filter.to_string(), r#"{ "_id": "f1" }"#);

    match media_reply(None) {
        MediaReply::Message(d) => assert_eq!(d.to_string(), r#"{ "msg": "No data found" }"#),
        _ => panic!(),
    }
    let private = doc(&[("o", Bson::from("P")), ("name", Bson::from("a.pdf"))]);
    assert!(media_record_ok_exec(&Some(private.clone())));
    match media_reply(Some(private)) {
        MediaReply::Message(d) => {
            assert_eq!(d.to_string(), r#"{ "msg": "You Are Not Allowed To Access This File" }"#)
        },
        _ => panic!(),
    }
    let public = doc(&[("o", Bson::from("U")), ("name", Bson::from("b.png"))]);
    match media_reply(Some(public)) {
        MediaReply::Serve { path, filename } => {
            assert_eq!(path, "storage/b.png");
            assert_eq!(filename, "b.png");
        },
        _ => panic!(),
    }
}

#[test]
fn media_records_that_cannot_be_answered() {
    assert!(media_record_ok_exec(&None));
    assert!(media_record_ok_exec(&Some(Document::new())));
    assert!(!media_record_ok_exec(&Some(doc(&[("name", Bson::from("x"))]))));
    assert!(!media_record_ok_exec(&Some(doc(&[("o", Bson::from(1))]))));
    assert!(!media_record_ok_exec(&Some(doc(&[("o", Bson::from("U"))]))));
    assert!(media_record_ok_exec(&Some(doc(&[("o", Bson::from("P"))]))));
}

#[test]
fn temp_path() {
    assert_eq!(temp_media_path("abc.zip"), "storage/temp/abc.zip");
}

#[test]
fn storage_info_pipeline_shape() {
    match plan_storage_info(&(true, "u1".to_string())) {
        Plan::Run(Pipeline { collection, stages }) => {
            assert_eq!(collection, "annex_inc_storage");
            let s: Vec<String> = stages.iter().map(|d| d.to_string()).collect();
            assert_eq!(
                s,
                vec![
                    r#"{ "$match": { "u_id": "u1" } }"#,
                    r#"{ "$group": { "_id": "$o", "count": { "$sum": "$s" } } }"#,
                ]
            );
        },
        _ => panic!(),
    }
    assert!(matches!(plan_storage_info(&(false, String::new())), Plan::Unauthorized));
}

#[test]
fn storage_summary_adds_up() {
    let mut data = storage_info_start();
    assert_eq!(data.to_string(), r#"{ "public": 0, "private": 0, "total": 0, "available": 0 }"#);
    let g1 = doc(&[("_id", Bson::from("P")), ("count", Bson::from(1000))]);
    let g2 = doc(&[("_id", Bson::from("V")), ("count", Bson::from(24))]);
    assert!(storage_group_ok(&g1) && storage_group_ok(&g2));
    storage_info_add(&mut data, &g1);
    storage_info_add(&mut data, &g2);
    assert!(storage_totals_ok(&data));
    storage_info_finish(&mut data);
    assert_eq!(
        data.to_string(),
        r#"{ "public": 1000, "private": 24, "total": 1024, "available": 1073740800 }"#
    );
    assert_eq!(data.get_i32("total").unwrap() + data.get_i32("available").unwrap(), 1073741824);
}

#[test]
fn storage_summary_refuses_what_it_cannot_add() {
    assert!(!storage_group_ok(&doc(&[("_id", Bson::from(1)), ("count", Bson::from(1))])));
    assert!(!storage_group_ok(&doc(&[("_id", Bson::from("P"))])));
    let mut data = storage_info_start();
    storage_info_add(&mut data, &doc(&[("_id", Bson::from("P")), ("count", Bson::from(5i64))]));
    assert!(!storage_totals_ok(&data));
    let mut big = storage_info_start();
    storage_info_add(&mut big, &doc(&[("_id", Bson::from("P")), ("count", Bson::from(i32::MAX))]));
    storage_info_add(&mut big, &doc(&[("_id", Bson::from("Q")), ("count", Bson::from(1))]));
    assert!(!storage_totals_ok(&big));
}
