//! The credential store: passwords are kept as salted bcrypt hashes and
//! checked against them.

use vstd::prelude::*;

verus! {

/// The error of the bcrypt library. The library carries it to its text.
#[verifier::external_type_specification]
#[verifier::external_body]
pub struct ExBcryptError(bcrypt::BcryptError);

/// What bcrypt answers when `password` is checked against `hash`: whether
/// they match, or `None` where `hash` is no well-formed bcrypt hash.
pub uninterp spec fn bcrypt_verdict(password: Seq<char>, hash: Seq<char>) -> Option<bool>;

/// `bcrypt::verify`: hashes `password` with the cost and salt that `hash`
/// names and compares. The answer depends on the two texts alone.
#[verifier::external_body]
fn bcrypt_verify(password: &str, hash: &str) -> (r: Result<bool, bcrypt::BcryptError>)
    ensures
        match r {
            Ok(matches) => bcrypt_verdict(password@, hash@) == Some(matches),
            Err(_) => bcrypt_verdict(password@, hash@) is None,
        },
{
    bcrypt::verify(password, hash)
}

/// `bcrypt::hash` at the default cost, with a salt that the system draws
/// anew for each call. Whatever the salt, the hash that comes back is one
/// against which `password` verifies.
#[verifier::external_body]
fn bcrypt_hash(password: &str) -> (r: Result<String, bcrypt::BcryptError>)
    ensures
        r matches Ok(hash) ==> bcrypt_verdict(password@, hash@) == Some(true),
{
    bcrypt::hash(password, bcrypt::DEFAULT_COST)
}

/// The text of a `bcrypt::BcryptError`, by its `Display`.
#[verifier::external_body]
fn bcrypt_error_text(error: &bcrypt::BcryptError) -> (text: String) {
    error.to_string()
}

/// Whether `password` is the one that `hash` was made of.
pub open spec fn password_matches(password: Seq<char>, hash: Seq<char>) -> bool {
    bcrypt_verdict(password, hash) == Some(true)
}

/// Decides a check of a password from what bcrypt answered: only a clear
/// "yes" counts; an error counts as "no".
pub fn matches_from(answer: Option<bool>) -> (matches: bool)
    ensures
        matches == (answer == Some(true)),
{
    match answer {
        Some(true) => true,
        _ => false,
    }
}

/// Checks `password` against a stored hash. A stored value that is no
/// bcrypt hash matches no password.
pub fn verify_password(password: &str, hash: &str) -> (matches: bool)
    ensures
        matches == password_matches(password@, hash@),
{
    match bcrypt_verify(password, hash) {
        Ok(answer) => matches_from(Some(answer)),
        Err(_) => matches_from(None),
    }
}

/// Hashes `password` with a fresh salt. Each call gives another hash; every
/// one of them matches `password`. Where the system yields no salt, the
/// error's text is returned.
pub fn hash_password(password: &str) -> (r: Result<String, String>)
    ensures
        r matches Ok(hash) ==> password_matches(password@, hash@),
{
    match bcrypt_hash(password) {
        Ok(hash) => Ok(hash),
        Err(error) => Err(bcrypt_error_text(&error)),
    }
}

} // verus!
