//! The token service: identity claims are issued as a signed token that
//! expires, and read back from a token whose signature and expiry hold.

use serde_json::Value;
use vstd::prelude::*;
use crate::models::{optional_text, Claims, ClaimsView};

verus! {

/// The error of the token library. The library carries it to its text.
#[verifier::external_type_specification]
#[verifier::external_body]
pub struct ExTokenError(jsonwebtoken::errors::Error);

/// The signing secret that is used where none is configured. It is public
/// knowledge: a deployment that relies on it can be impersonated.
pub const DEFAULT_SECRET: &'static str = "supersecretkey";

/// How long a token is valid, in seconds: one day.
pub const TOKEN_LIFETIME: i64 = 86400;

/// The token that carries `claims` under `secret`: an HS256 signature over
/// the default header and the claims as a JSON object. `None` where the
/// signer reports an error.
pub uninterp spec fn signed_token(claims: ClaimsView, secret: Seq<char>) -> Option<Seq<char>>;

/// `jsonwebtoken::encode` with the default header, on a JSON object that
/// holds the five claims under their names, keyed by `secret`. The token
/// depends on the claims and the secret alone. It carries the five claims:
/// its payload is that object, and its signature is the one that the
/// decoder makes again under the same secret.
#[verifier::external_body]
fn sign_claims(claims: &Claims, secret: &str) -> (r: Result<String, jsonwebtoken::errors::Error>)
    ensures
        match r {
            Ok(token) => signed_token(claims@, secret@) == Some(token@),
            Err(_) => signed_token(claims@, secret@) is None,
        },
        r matches Ok(token) ==> carried_members(token@, secret@) == Some(members_of(claims@)),
{
    let mut payload = serde_json::Map::new();
    payload.insert("id".to_string(), claims.id.into());
    payload.insert("email".to_string(), claims.email.as_str().into());
    payload.insert("firstname".to_string(), claims.firstname.as_str().into());
    payload.insert("lastname".to_string(), claims.lastname.as_str().into());
    payload.insert("exp".to_string(), claims.exp.into());
    let key = jsonwebtoken::EncodingKey::from_secret(secret.as_bytes());
    jsonwebtoken::encode(&jsonwebtoken::Header::default(), &payload, &key)
}

/// What the payload of a token holds under the names of the five claims:
/// each member as a value of its kind, where it is there and of that kind.
#[derive(Debug, Clone, PartialEq, Eq)]
pub struct TokenMembers {
    pub id: Option<i64>,
    pub email: Option<String>,
    pub firstname: Option<String>,
    pub lastname: Option<String>,
    pub exp: Option<u64>,
}

/// The members of a payload, as contracts see them.
pub ghost struct TokenMembersView {
    pub id: Option<i64>,
    pub email: Option<Seq<char>>,
    pub firstname: Option<Seq<char>>,
    pub lastname: Option<Seq<char>>,
    pub exp: Option<u64>,
}

impl View for TokenMembers {
    type V = TokenMembersView;

    open spec fn view(&self) -> TokenMembersView {
        TokenMembersView {
            id: self.id,
            email: optional_text(self.email),
            firstname: optional_text(self.firstname),
            lastname: optional_text(self.lastname),
            exp: self.exp,
        }
    }
}

/// The five claims as members of a payload.
pub open spec fn members_of(claims: ClaimsView) -> TokenMembersView {
    TokenMembersView {
        id: Some(claims.id),
        email: Some(claims.email),
        firstname: Some(claims.firstname),
        lastname: Some(claims.lastname),
        exp: Some(claims.exp as u64),
    }
}

/// What `token` carries under `secret`: the members that its payload holds,
/// where its signature holds under `secret` and the token library accepts
/// it at some time. Whether a token is accepted at a given time depends on
/// the clock; what it carries does not.
pub uninterp spec fn carried_members(token: Seq<char>, secret: Seq<char>) -> Option<TokenMembersView>;

/// `jsonwebtoken::decode` with the default validation, on a JSON value
/// whose members are then read with `serde_json::Value::get` and `as_i64`,
/// `as_str`, `as_u64`. The signature is checked under `secret`, and the
/// expiry against the clock at the time of the call, so nothing is
/// promised of whether the token is accepted. Where it is, the members
/// are those that the token carries: they come from the signed payload
/// alone.
#[verifier::external_body]
fn decode_members(token: &str, secret: &str) -> (r: Result<TokenMembers, jsonwebtoken::errors::Error>)
    ensures
        r matches Ok(members) ==> carried_members(token@, secret@) == Some(members@),
{
    let key = jsonwebtoken::DecodingKey::from_secret(secret.as_bytes());
    let checks = jsonwebtoken::Validation::default();
    let payload = jsonwebtoken::decode::<Value>(token, &key, &checks)?.claims;
    Ok(TokenMembers {
        id: payload.get("id").and_then(Value::as_i64),
        email: payload.get("email").and_then(Value::as_str).map(str::to_owned),
        firstname: payload.get("firstname").and_then(Value::as_str).map(str::to_owned),
        lastname: payload.get("lastname").and_then(Value::as_str).map(str::to_owned),
        exp: payload.get("exp").and_then(Value::as_u64),
    })
}

/// The text of a `jsonwebtoken::errors::Error`, by its `Display`.
#[verifier::external_body]
fn token_error_text(error: &jsonwebtoken::errors::Error) -> (text: String) {
    error.to_string()
}

/// The secret under which tokens are signed: the configured one, or
/// [`DEFAULT_SECRET`] where none is configured.
pub open spec fn secret_of(configured: Option<Seq<char>>) -> Seq<char> {
    match configured {
        Some(secret) => secret,
        None => DEFAULT_SECRET@,
    }
}

/// The secret under which tokens are signed.
pub fn signing_secret(configured: Option<String>) -> (secret: String)
    ensures
        secret@ == secret_of(optional_text(configured)),
{
    match configured {
        Some(secret) => secret,
        None => DEFAULT_SECRET.to_owned(),
    }
}

/// The instant at which a token issued at `now` expires, where it can be
/// told in seconds since the epoch.
pub open spec fn expiry(now: i64) -> Option<usize> {
    if 0 <= now + TOKEN_LIFETIME <= usize::MAX && now + TOKEN_LIFETIME <= i64::MAX {
        Some((now + TOKEN_LIFETIME) as usize)
    } else {
        None
    }
}

/// The instant at which a token issued at `now` expires: one day later.
/// `None` where that instant lies before the epoch or beyond what the
/// machine counts.
pub fn expiry_after(now: i64) -> (exp: Option<usize>)
    ensures
        exp == expiry(now),
{
    if now > i64::MAX - TOKEN_LIFETIME {
        return None;
    }
    let end: i64 = now + TOKEN_LIFETIME;
    if end < 0 {
        return None;
    }
    let end: u64 = end as u64;
    if end > usize::MAX as u64 {
        return None;
    }
    Some(end as usize)
}

/// Issues the token that carries `claims`, signed under `secret`: a
/// reading of it under `secret` gives `claims` and no others.
pub fn issue_token(claims: &Claims, secret: &str) -> (token: Option<String>)
    ensures
        optional_text(token) == signed_token(claims@, secret@),
        token matches Some(issued) ==> carried_claims(issued@, secret@) == Some(claims@),
{
    match sign_claims(claims, secret) {
        Ok(token) => Some(token),
        Err(_) => None,
    }
}

/// The claims that five members of a payload make: all five must be there,
/// and the expiry must be one that the machine counts.
pub open spec fn claims_of(
    id: Option<i64>,
    email: Option<Seq<char>>,
    firstname: Option<Seq<char>>,
    lastname: Option<Seq<char>>,
    exp: Option<u64>,
) -> Option<ClaimsView> {
    if id is Some && email is Some && firstname is Some && lastname is Some && exp is Some && exp->0
        <= usize::MAX {
        Some(
            ClaimsView {
                id: id->0,
                email: email->0,
                firstname: firstname->0,
                lastname: lastname->0,
                exp: exp->0 as usize,
            },
        )
    } else {
        None
    }
}

/// Assembles claims from the members that were read out of a payload.
pub fn claims_from(
    id: Option<i64>,
    email: Option<String>,
    firstname: Option<String>,
    lastname: Option<String>,
    exp: Option<u64>,
) -> (claims: Option<Claims>)
    ensures
        match claims {
            Some(made) => Some(made@),
            None => None,
        } == claims_of(id, optional_text(email), optional_text(firstname), optional_text(lastname), exp),
{
    match (id, email, firstname, lastname, exp) {
        (Some(id), Some(email), Some(firstname), Some(lastname), Some(exp)) => {
            if exp > usize::MAX as u64 {
                None
            } else {
                Some(Claims { id, email, firstname, lastname, exp: exp as usize })
            }
        },
        _ => None,
    }
}

/// The claims that `token` carries under `secret`: the claims that the
/// members of its payload make, where its signature holds under `secret`.
pub open spec fn carried_claims(token: Seq<char>, secret: Seq<char>) -> Option<ClaimsView> {
    match carried_members(token, secret) {
        Some(members) => claims_of(members.id, members.email, members.firstname, members.lastname, members.exp),
        None => None,
    }
}

/// What reading a token gives, once the token library has answered: its
/// refusal as it stands; the claims that the members make; or, where the
/// members make none, the refusal of the payload.
pub open spec fn read_outcome(decoded: Result<TokenMembersView, Seq<char>>) -> Result<ClaimsView, Seq<char>> {
    match decoded {
        Err(refusal) => Err(refusal),
        Ok(members) => match claims_of(
            members.id,
            members.email,
            members.firstname,
            members.lastname,
            members.exp,
        ) {
            Some(claims) => Ok(claims),
            None => Err("JSON error: the payload does not hold the claims"@),
        },
    }
}

/// What reading a token gave, as contracts see it.
pub open spec fn reading_view(r: Result<Claims, String>) -> Result<ClaimsView, Seq<char>> {
    match r {
        Ok(claims) => Ok(claims@),
        Err(refusal) => Err(refusal@),
    }
}

/// What the token library answered, as contracts see it.
pub open spec fn decoded_view(decoded: Result<TokenMembers, String>) -> Result<TokenMembersView, Seq<char>> {
    match decoded {
        Ok(members) => Ok(members@),
        Err(refusal) => Err(refusal@),
    }
}

/// Decides the reading of a token from what the token library answered:
/// its refusal is handed on; members that make claims give the claims;
/// members that make none are refused.
pub fn claims_or_refusal(decoded: Result<TokenMembers, String>) -> (r: Result<Claims, String>)
    ensures
        reading_view(r) == read_outcome(decoded_view(decoded)),
{
    match decoded {
        Err(refusal) => Err(refusal),
        Ok(members) => {
            let TokenMembers { id, email, firstname, lastname, exp } = members;
            match claims_from(id, email, firstname, lastname, exp) {
                Some(claims) => Ok(claims),
                None => Err("JSON error: the payload does not hold the claims".to_owned()),
            }
        },
    }
}

/// Reads the claims out of `token`: its signature must hold under
/// `secret`, it must not have expired, and its payload must hold the five
/// claims. Otherwise the reason is returned as text. Whether a token has
/// expired depends on the clock, so it is not stated which tokens are
/// read. Claims that are read are the claims that the token carries under
/// `secret`; so a token that carries none is never read, and a token that
/// is read twice gives the same claims twice.
pub fn read_token(token: &str, secret: &str) -> (r: Result<Claims, String>)
    ensures
        r matches Ok(claims) ==> carried_claims(token@, secret@) == Some(claims@),
{
    let decoded = match decode_members(token, secret) {
        Ok(members) => Ok(members),
        Err(error) => Err(token_error_text(&error)),
    };
    claims_or_refusal(decoded)
}

} // verus!
