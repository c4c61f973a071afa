//! Roles of the users of the service, and where a request's token comes from.

use vstd::prelude::*;
use crate::ids::{parse_uuid, parsed_uuid};
use crate::text::{chars_of, slice_chars, string_from, text_equals};

verus! {

/// What a request may do.
#[derive(Debug, Clone, Copy, PartialEq, Eq)]
pub enum Role {
    Admin,
    Manager,
}

/// The role name that grants administration.
pub open spec fn admin_role_name() -> Seq<char> {
    "admin"@
}

/// The roles of a request that carries no token.
pub fn roles_without_token() -> (r: Vec<Role>)
    ensures
        r@ == seq![Role::Manager],
{
    let mut r = Vec::new();
    r.push(Role::Manager);
    r
}

/// The roles of a user with the given role name: administration for
/// `admin`, management for any other name.
pub fn roles_for_user(role: &str) -> (r: Vec<Role>)
    ensures
        r@ == seq![if role@ == admin_role_name() { Role::Admin } else { Role::Manager }],
{
    let mut r = Vec::new();
    if text_equals(role, "admin") {
        r.push(Role::Admin);
    } else {
        r.push(Role::Manager);
    }
    r
}

/// The characters of a header value that the HTTP layer reads as text:
/// ASCII only.
pub open spec fn is_ascii_text(s: Seq<char>) -> bool {
    forall|i: int| 0 <= i < s.len() ==> (#[trigger] s[i] as int) < 128
}

/// The token of an `Authorization` header: what follows its first seven
/// characters (the scheme `Bearer ` and its space).
pub fn bearer_token(header: &str) -> (t: String)
    requires
        header@.len() >= 7,
        is_ascii_text(header@),
    ensures
        t@ == header@.skip(7),
{
    let v = chars_of(header);
    let w = slice_chars(&v, 7, v.len());
    assert(w@ =~= header@.skip(7));
    string_from(&w)
}

/// The token a request carries: its `token` cookie when it has one,
/// otherwise the token of its `Authorization` header, if any.
pub open spec fn request_token_spec(cookie: Option<Seq<char>>, header: Option<Seq<char>>) -> Option<Seq<char>> {
    match cookie {
        Some(c) => Some(c),
        None => match header {
            Some(h) => Some(h.skip(7)),
            None => None,
        },
    }
}

/// The token of a request, from its `token` cookie or else from its
/// `Authorization` header (a header shorter than the scheme is refused by
/// the caller, as slicing it would fail).
pub fn request_token(cookie: Option<String>, header: Option<&str>) -> (t: Option<String>)
    requires
        cookie is None ==> (header matches Some(h) ==> h@.len() >= 7 && is_ascii_text(h@)),
    ensures
        t matches Some(s) ==> request_token_spec(
            match cookie { Some(c) => Some(c@), None => None },
            match header { Some(h) => Some(h@), None => None },
        ) == Some(s@),
        t is None ==> request_token_spec(
            match cookie { Some(c) => Some(c@), None => None },
            match header { Some(h) => Some(h@), None => None },
        ) is None,
{
    match cookie {
        Some(c) => Some(c),
        None => match header {
            Some(h) => Some(bearer_token(h)),
            None => None,
        },
    }
}

/// The subject (`sub`, a text) of a token whose HS256 signature checks out
/// under the secret and whose claims decode, leaving its times aside; none
/// otherwise.
pub uninterp spec fn jwt_subject(token: Seq<char>, secret: Seq<char>) -> Option<Seq<char>>;

/// Reads the subject (`sub`) of a signed token through
/// `jsonwebtoken::decode` with `Validation::default()` (HS256, expiry
/// checked) and the given secret.
/// Trusted: the signature check and the decoding of the claims depend on
/// the token and the secret alone, so a subject that is read is the name
/// `jwt_subject` of them, and a token without one is refused. Whether an
/// otherwise good token is accepted depends on the clock (its expiry), so
/// that is not stated. The claims are read as a map, so the presence of the
/// issue time is not checked here.
#[verifier::external_body]
pub fn token_subject(token: &str, secret: &str) -> (r: Option<String>)
    ensures
        r matches Some(s) ==> jwt_subject(token@, secret@) == Some(s@),
        jwt_subject(token@, secret@) is None ==> r is None,
{
    let key = jsonwebtoken::DecodingKey::from_secret(secret.as_bytes());
    let validation = jsonwebtoken::Validation::default();
    let data = jsonwebtoken::decode::<std::collections::HashMap<String, serde_json::Value>>(
        token, &key, &validation,
    ).ok()?;
    data.claims.get("sub").and_then(|v| v.as_str()).map(|v| v.to_string())
}

/// Who a request comes from.
#[derive(Debug, Clone, Copy, PartialEq, Eq)]
pub enum RequestUser {
    /// The request carries no token.
    Anonymous,
    /// The token names this user.
    User(u128),
    /// The token was refused.
    InvalidToken,
    /// The token's subject is not a user identifier.
    InvalidSubject,
}

/// The user named by the subject of a token, if the token was accepted.
pub open spec fn subject_user(subject: Option<Seq<char>>) -> RequestUser {
    match subject {
        None => RequestUser::InvalidToken,
        Some(s) => match parsed_uuid(s) {
            Some(id) => RequestUser::User(id),
            None => RequestUser::InvalidSubject,
        },
    }
}

/// The user named by the subject read from a token.
pub fn user_from_subject(subject: Option<String>) -> (r: RequestUser)
    ensures
        r == subject_user(match subject { Some(s) => Some(s@), None => None }),
{
    match subject {
        None => RequestUser::InvalidToken,
        Some(s) => match parse_uuid(s.as_str()) {
            Some(id) => RequestUser::User(id),
            None => RequestUser::InvalidSubject,
        },
    }
}

/// Who a request comes from: anonymous exactly when it carries no token;
/// otherwise the user that the token's subject names, as `subject_user`
/// reads it from whatever the token check gave.
pub fn request_user(cookie: Option<String>, header: Option<&str>, secret: &str) -> (r: RequestUser)
    requires
        cookie is None ==> (header matches Some(h) ==> h@.len() >= 7 && is_ascii_text(h@)),
    ensures
        (r is Anonymous) <==> (cookie is None && header is None),
        !(r is Anonymous) ==> exists|subject: Option<Seq<char>>| r == #[trigger] subject_user(subject),
        ({
            let token = request_token_spec(
                match cookie { Some(c) => Some(c@), None => None },
                match header { Some(h) => Some(h@), None => None },
            );
            let subject = match token { Some(t) => jwt_subject(t, secret@), None => None };
            &&& (r is User ==> (match subject { Some(s) => parsed_uuid(s) == Some(r->0), None => false }))
            &&& (r is InvalidSubject ==> (match subject { Some(s) => parsed_uuid(s) is None, None => false }))
            &&& (token is Some && subject is None ==> r is InvalidToken)
        }),
{
    match request_token(cookie, header) {
        None => RequestUser::Anonymous,
        Some(t) => {
            let subject = token_subject(t.as_str(), secret);
            let r = user_from_subject(subject);
            assert(r == subject_user(match subject { Some(s) => Some(s@), None => None }));
            assert(!(subject_user(match subject { Some(s) => Some(s@), None => None }) is Anonymous));
            r
        },
    }
}

} // verus!
