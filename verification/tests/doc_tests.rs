use annex::bsondoc::{flag_doc, make_doc, obj_bson};
use annex::stages::{count_bson, page_bson, page_window, regex_i_bson, single, single_bson};
use bson::Bson;

#[test]
fn make_doc_inserts_in_order_and_replaces_in_place() {
    let d = make_doc(vec![("a", Bson::from(1)), ("b", Bson::from(2)), ("a", Bson::from(3))]);
    assert_eq!(d.to_string(), r#"{ "a": 3, "b": 2 }"#);
    assert_eq!(d.len(), 2);
}

#[test]
fn flag_doc_sets_each_key() {
    assert_eq!(flag_doc(vec!["x", "y"], 1).to_string(), r#"{ "x": 1, "y": 1 }"#);
    assert_eq!(flag_doc(vec![], 0).to_string(), "{}");
}

#[test]
fn building_blocks() {
    assert_eq!(single("$limit", Bson::from(5)).to_string(), r#"{ "$limit": 5 }"#);
    assert_eq!(single_bson("k", Bson::from("v")).to_string(), r#"{ "k": "v" }"#);
    assert_eq!(regex_i_bson("ab").to_string(), r#"{ "$regex": "ab", "$options": "i" }"#);
    assert_eq!(page_bson(20, 10).to_string(), r#"[{ "$skip": 20 }, { "$limit": 10 }]"#);
    assert_eq!(count_bson().to_string(), r#"[{ "$count": "total" }]"#);
    assert_eq!(obj_bson(vec![("q", Bson::from(true))]).to_string(), r#"{ "q": true }"#);
}

#[test]
fn page_window_values() {
    assert_eq!(page_window(None, None), Some((0, 10)));
    assert_eq!(page_window(Some(3), Some(20)), Some((40, 20)));
    assert_eq!(page_window(Some(0), Some(10)), Some((-10, 10)));
    assert_eq!(page_window(Some(i32::MIN), None), None);
    assert_eq!(page_window(Some(100000), Some(100000)), None);
    assert_eq!(page_window(Some(i32::MIN), Some(0)), None);
}
