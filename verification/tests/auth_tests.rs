use annex::auth::{auth_after_decode, auth_after_lookup, auth_start, user_query, AuthAction, Claims, User};

fn sign_in(token: &str, claims: Option<Claims>, user: Option<User>) -> (bool, String) {
    match auth_start(token) {
        AuthAction::Done(ok, msg) => (ok, msg),
        AuthAction::DecodeToken => match auth_after_decode(claims) {
            AuthAction::Done(ok, msg) => (ok, msg),
            AuthAction::FindUser(_) => auth_after_lookup(user),
            AuthAction::DecodeToken => unreachable!(),
        },
        AuthAction::FindUser(_) => unreachable!(),
    }
}

#[test]
fn empty_token_is_refused() {
    assert_eq!(sign_in("", None, None), (false, "Token is empty".to_string()));
}

#[test]
fn non_empty_token_is_decoded() {
    assert!(matches!(auth_start("abc"), AuthAction::DecodeToken));
}

#[test]
fn undecodable_token_is_invalid() {
    assert_eq!(sign_in("abc", None, None), (false, "Token is invalid".to_string()));
}

#[test]
fn decoded_token_asks_for_its_user() {
    match auth_after_decode(Some(Claims::new(1700000000, "alice".to_string()))) {
        AuthAction::FindUser(name) => assert_eq!(name, "alice"),
        _ => panic!("expected a user lookup"),
    }
}

#[test]
fn unknown_user_is_refused() {
    let claims = Claims::new(1, "bob".to_string());
    assert_eq!(sign_in("abc", Some(claims), None), (false, "User not found".to_string()));
}

#[test]
fn known_user_is_accepted_with_its_id() {
    let claims = Claims::new(1, "carol".to_string());
    let user = User { _id: "u-42".to_string() };
    assert_eq!(sign_in("abc", Some(claims), Some(user)), (true, "u-42".to_string()));
}

#[test]
fn claims_keep_expiry() {
    let c = Claims::new(99, "d".to_string());
    assert_eq!(c.expiry(), 99);
    assert_eq!(c.username, "d");
}

#[test]
fn user_query_filters_by_user_name() {
    let q = user_query("alice");
    assert_eq!(q.collection, "annex_inc_users");
    assert_eq!(q.filter.to_string(), r#"{ "username": "alice" }"#);
    assert!(q.projection.is_none() && q.sort.is_none() && q.limit.is_none());
}
