//! What clients send to create users, quotes and reviews, and the values
//! that are stored from it.

use vstd::prelude::*;
use crate::ids::{parse_uuid, parsed_uuid};

verus! {

/// The lower-case form of a text, as `str::to_lowercase` gives it.
pub uninterp spec fn lowercase(s: Seq<char>) -> Seq<char>;

/// Lower-cases a text through `str::to_lowercase`.
/// Trusted: the result depends on the text alone; the Unicode case mapping
/// itself is left to the name `lowercase`.
#[verifier::external_body]
pub fn to_lowercase(s: &str) -> (r: String)
    ensures
        r@ == lowercase(s@),
{
    s.to_lowercase()
}

#[derive(Debug, PartialEq, Eq)]
pub struct RegisterUserSchema {
    pub name: String,
    pub email: String,
    pub password: String,
}

/// The PHC string (`$argon2id$v=19$...`) that Argon2 with its default
/// parameters gives for a password and a B64-encoded salt, if it gives one.
pub uninterp spec fn argon2_phc(password: Seq<char>, salt: Seq<char>) -> Option<Seq<char>>;

/// Hashes a password through `argon2::Argon2::default().hash_password`.
/// Trusted: Argon2 with fixed parameters is a function of the password and
/// the salt alone, so the result is the name `argon2_phc` applied to them;
/// `None` stands for an error of `Salt::from_b64` or of the hashing (a salt
/// that is not B64 or has the wrong length). Which inputs fail, and the hash
/// itself, are left to the name.
#[verifier::external_body]
pub fn hash_password(password: &str, salt: &str) -> (r: Option<String>)
    ensures
        r is None <==> argon2_phc(password@, salt@) is None,
        r matches Some(h) ==> argon2_phc(password@, salt@) == Some(h@),
{
    let salt = argon2::password_hash::Salt::from_b64(salt).ok()?;
    let hasher = argon2::Argon2::default();
    argon2::password_hash::PasswordHasher::hash_password(&hasher, password.as_bytes(), salt)
        .ok()
        .map(|h| h.to_string())
}

/// A fresh random salt through `SaltString::generate` with the operating
/// system's generator.
/// Trusted: the salt is random, so only what holds of every outcome is
/// stated: 16 random bytes written in unpadded B64 are 22 characters.
#[verifier::external_body]
pub fn generate_salt() -> (s: String)
    ensures
        s@.len() == 22,
{
    argon2::password_hash::SaltString::generate(&mut argon2::password_hash::rand_core::OsRng)
        .as_str()
        .to_string()
}

/// The values stored for a new user.
#[derive(Debug, PartialEq, Eq)]
pub struct NewUser {
    pub name: String,
    pub email: String,
    pub password_hash: String,
}

/// The values stored for a new user with the given salt: the name as
/// given, the e-mail address lower-cased and the Argon2 hash of the
/// password; nothing when the password cannot be hashed with that salt.
pub fn new_user_values(body: &RegisterUserSchema, salt: &str) -> (r: Option<NewUser>)
    ensures
        r is None <==> argon2_phc(body.password@, salt@) is None,
        r matches Some(u) ==> {
            &&& u.name@ == body.name@
            &&& u.email@ == lowercase(body.email@)
            &&& Some(u.password_hash@) == argon2_phc(body.password@, salt@)
        },
{
    match hash_password(body.password.as_str(), salt) {
        Some(password_hash) => Some(NewUser {
            name: body.name.clone(),
            email: registered_email(body),
            password_hash,
        }),
        None => None,
    }
}

/// The values stored for a new user, with a fresh salt: for some salt of 22
/// characters, the user is stored exactly when the password hashes under
/// it, and the stored hash is the Argon2 hash of the password that was sent
/// under that salt.
pub fn new_user(body: &RegisterUserSchema) -> (r: Option<NewUser>)
    ensures
        exists|salt: Seq<char>| {
            &&& salt.len() == 22
            &&& (r is None <==> #[trigger] argon2_phc(body.password@, salt) is None)
            &&& (r matches Some(u) ==> Some(u.password_hash@) == argon2_phc(body.password@, salt))
        },
        r matches Some(u) ==> {
            &&& u.name@ == body.name@
            &&& u.email@ == lowercase(body.email@)
            &&& exists|salt: Seq<char>|
                salt.len() == 22 && #[trigger] argon2_phc(body.password@, salt) == Some(u.password_hash@)
        },
{
    let salt = generate_salt();
    let r = new_user_values(body, salt.as_str());
    assert(r matches Some(u) ==> argon2_phc(body.password@, salt@) == Some(u.password_hash@));
    assert(r is None <==> argon2_phc(body.password@, salt@) is None);
    r
}

/// The e-mail address stored for a new user: the one given, lower-cased.
pub fn registered_email(body: &RegisterUserSchema) -> (r: String)
    ensures
        r@ == lowercase(body.email@),
{
    to_lowercase(body.email.as_str())
}

#[derive(Debug, PartialEq, Eq)]
pub struct AddQuoteSchema {
    pub text: String,
    pub author: String,
}

/// The text and the author stored for a new quote: both lower-cased.
pub fn quote_values(body: &AddQuoteSchema) -> (r: (String, String))
    ensures
        r.0@ == lowercase(body.text@),
        r.1@ == lowercase(body.author@),
{
    (to_lowercase(body.text.as_str()), to_lowercase(body.author.as_str()))
}

#[derive(Debug, PartialEq, Eq)]
pub struct AddReview {
    pub firm_id: String,
    pub text: String,
    pub author: String,
    pub rating: String,
}

/// The values stored for a new review, which is not marked as crawled.
#[derive(Debug, PartialEq, Eq)]
pub struct NewReview {
    pub firm_id: u128,
    pub text: String,
    pub author: String,
    pub rating: String,
    pub parsed: bool,
}

/// The values stored for a new review: the firm read from its identifier,
/// the text, the author and the rating lower-cased; nothing when the
/// identifier does not read.
pub fn review_values(body: &AddReview) -> (r: Option<NewReview>)
    ensures
        r is None <==> parsed_uuid(body.firm_id@) is None,
        r matches Some(v) ==> {
            &&& Some(v.firm_id) == parsed_uuid(body.firm_id@)
            &&& v.text@ == lowercase(body.text@)
            &&& v.author@ == lowercase(body.author@)
            &&& v.rating@ == lowercase(body.rating@)
            &&& !v.parsed
        },
{
    match parse_uuid(body.firm_id.as_str()) {
        Some(firm_id) => Some(NewReview {
            firm_id,
            text: to_lowercase(body.text.as_str()),
            author: to_lowercase(body.author.as_str()),
            rating: to_lowercase(body.rating.as_str()),
            parsed: false,
        }),
        None => None,
    }
}

} // verus!
