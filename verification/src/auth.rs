//! The sign-in check of every protected endpoint: a request's token must be
//! non-empty, must decode as a valid HS256 token, and must name a user that
//! exists.
use crate::bsondoc::{self, BsonValue};
use crate::plan::FindQuery;
use vstd::prelude::*;

verus! {

/// The claims that a token carries.
pub struct Claims {
    /// Expiry time of the token, as a UTC timestamp.
    exp: usize,
    /// The user name that the token was issued to.
    pub username: String,
}

impl Claims {
    /// Claims of a token issued to `username`, expiring at `exp`.
    pub fn new(exp: usize, username: String) -> (c: Claims)
        ensures
            c.exp() == exp,
            c.name() == username@,
    {
        Claims { exp, username }
    }

    /// The expiry time that the claims hold.
    pub closed spec fn exp(&self) -> usize {
        self.exp
    }

    /// The user name that the claims hold.
    pub closed spec fn name(&self) -> Seq<char> {
        self.username@
    }

    /// The expiry time of the token.
    pub fn expiry(&self) -> (r: usize)
        ensures
            r == self.exp(),
    {
        self.exp
    }
}

/// A user record, by its id.
pub struct User {
    pub _id: String,
}

/// The next step of the sign-in check.
pub enum AuthAction {
    /// The check is over, with this outcome.
    Done(bool, String),
    /// Decode and verify the token.
    DecodeToken,
    /// Look up the user with this user name.
    FindUser(String),
}

/// The model of an `AuthAction`.
pub enum AuthModel {
    Done(bool, Seq<char>),
    DecodeToken,
    FindUser(Seq<char>),
}

impl View for AuthAction {
    type V = AuthModel;

    open spec fn view(&self) -> AuthModel {
        match self {
            AuthAction::Done(ok, msg) => AuthModel::Done(*ok, msg@),
            AuthAction::DecodeToken => AuthModel::DecodeToken,
            AuthAction::FindUser(name) => AuthModel::FindUser(name@),
        }
    }
}

/// First step: an empty token is refused, any other is decoded.
pub open spec fn start_step(token: Seq<char>) -> AuthModel {
    if token.len() == 0 {
        AuthModel::Done(false, "Token is empty"@)
    } else {
        AuthModel::DecodeToken
    }
}

/// Second step, on the user name of the decoded claims (`None` where the
/// token did not decode): look that user up, or refuse.
pub open spec fn decoded_step(username: Option<Seq<char>>) -> AuthModel {
    match username {
        Some(name) => AuthModel::FindUser(name),
        None => AuthModel::Done(false, "Token is invalid"@),
    }
}

/// Last step, on the id of the user found (if any).
pub open spec fn lookup_step(user_id: Option<Seq<char>>) -> (bool, Seq<char>) {
    match user_id {
        Some(id) => (true, id),
        None => (false, "User not found"@),
    }
}

/// The outcome of the whole check, given the token, the user name of its
/// decoded claims (`None` where it did not decode) and the id of the user
/// that the lookup found (`None` where it found none).
pub open spec fn sign_in(
    token: Seq<char>,
    username: Option<Seq<char>>,
    user_id: Option<Seq<char>>,
) -> (bool, Seq<char>) {
    match start_step(token) {
        AuthModel::Done(ok, msg) => (ok, msg),
        _ => match decoded_step(username) {
            AuthModel::Done(ok, msg) => (ok, msg),
            _ => lookup_step(user_id),
        },
    }
}

/// Starts the check of `token`.
pub fn auth_start(token: &str) -> (r: AuthAction)
    ensures
        r@ == start_step(token@),
{
    if token.unicode_len() == 0 {
        AuthAction::Done(false, String::from_str("Token is empty"))
    } else {
        AuthAction::DecodeToken
    }
}

/// Continues the check once the token was decoded (`Some` claims) or
/// refused by the decoder (`None`).
pub fn auth_after_decode(claims: Option<Claims>) -> (r: AuthAction)
    ensures
        r@ == decoded_step(
            match claims {
                Some(c) => Some(c.name()),
                None => None,
            },
        ),
{
    match claims {
        Some(c) => AuthAction::FindUser(c.username),
        None => AuthAction::Done(false, String::from_str("Token is invalid")),
    }
}

/// Ends the check once the user lookup has answered.
pub fn auth_after_lookup(user: Option<User>) -> (r: (bool, String))
    ensures
        (r.0, r.1@) == lookup_step(
            match user {
                Some(u) => Some(u._id@),
                None => None,
            },
        ),
{
    match user {
        Some(u) => (true, u._id),
        None => (false, String::from_str("User not found")),
    }
}

/// The lookup of the user that a token names: `{"username": name}` on the
/// users collection.
pub fn user_query(username: &str) -> (q: FindQuery)
    ensures
        q@.collection == "annex_inc_users"@,
        q@.filter == bsondoc::doc_of(seq![("username"@, BsonValue::Str(username@))]),
        q@.projection is None,
        q@.sort is None,
        q@.limit is None,
{
    let pairs = vec![("username", bsondoc::bson_str(username))];
    let ghost gp = pairs@;
    let filter = bsondoc::make_doc(pairs);
    assert(bsondoc::pairs_model(gp) =~= seq![("username"@, BsonValue::Str(username@))]);
    FindQuery { collection: "annex_inc_users", filter, projection: None, sort: None, limit: None }
}

/// The check accepts exactly when the token is non-empty, decodes, and
/// names a user that exists; it then gives that user's id.
pub proof fn lemma_sign_in_accepts_exactly_known_users(
    token: Seq<char>,
    username: Option<Seq<char>>,
    user_id: Option<Seq<char>>,
)
    ensures
        sign_in(token, username, user_id).0 <==> (token.len() > 0 && username is Some
            && user_id is Some),
        sign_in(token, username, user_id).0 ==> sign_in(token, username, user_id).1
            == user_id.unwrap(),
{
}

} // verus!
