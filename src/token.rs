use vstd::prelude::*;
use crate::error::AuthError;
use crate::model::TokenClaims;

verus! {

/// Lifetime of a session, in seconds: the token's expiry and both store
/// entries use this same figure.
pub const SESSION_TTL: i64 = 3600;

#[verifier::external_type_specification]
#[verifier::external_body]
pub struct ExJwtError(jsonwebtoken::errors::Error);

/// What `jsonwebtoken::decode` finds in `token` under the HMAC `secret`, with
/// expiry checking switched off: `None` where the structure or the signature is
/// rejected, else the `sub` and `exp` claims, each `None` where it is absent or
/// not an integer.
pub uninterp spec fn jwt_claims(token: Seq<char>, secret: Seq<char>) -> Option<(Option<i64>, Option<i64>)>;

/// Relies on `jsonwebtoken::encode` with the default HS256 header: with an HMAC
/// key it always succeeds, giving three dot-joined parts, and
/// `jsonwebtoken::decode` under the same secret reads the claims `sub` and
/// `exp` back (an `exp` below zero is not read back as a timestamp).
#[verifier::external_body]
fn sign_claims(sub: i64, exp: i64, secret: &str) -> (r: Result<String, jsonwebtoken::errors::Error>)
    ensures
        r is Ok,
        r matches Ok(t) ==> t@.len() > 0,
        r matches Ok(t) ==> (exp >= 0 ==> jwt_claims(t@, secret@) == Some((Some(sub), Some(exp)))),
{
    let claims = std::collections::BTreeMap::from([("sub", sub), ("exp", exp)]);
    let key = jsonwebtoken::EncodingKey::from_secret(secret.as_bytes());
    jsonwebtoken::encode(&jsonwebtoken::Header::default(), &claims, &key)
}

/// Relies on `jsonwebtoken::decode` (HS256, `exp` required, expiry not checked),
/// whose outcome then depends on the token and the secret alone.
#[verifier::external_body]
fn read_claims(token: &str, secret: &str) -> (r: Result<(Option<i64>, Option<i64>), jsonwebtoken::errors::Error>)
    ensures
        match r {
            Ok(c) => jwt_claims(token@, secret@) == Some(c),
            Err(_) => jwt_claims(token@, secret@) is None,
        },
{
    let mut validation = jsonwebtoken::Validation::default();
    validation.validate_exp = false;
    let key = jsonwebtoken::DecodingKey::from_secret(secret.as_bytes());
    jsonwebtoken::decode::<serde_json::Value>(token, &key, &validation).map(
        |d| (d.claims.get("sub").and_then(|v| v.as_i64()), d.claims.get("exp").and_then(|v| v.as_i64())),
    )
}

/// The verdict on decoded claims at time `now`: a token without both claims is
/// invalid, and one whose expiry has passed, even by one second, is expired.
pub open spec fn claims_verdict(decoded: Option<(Option<i64>, Option<i64>)>, now: i64) -> Result<TokenClaims, AuthError> {
    match decoded {
        Some((Some(sub), Some(exp))) => if now > exp {
            Err(AuthError::Expired)
        } else {
            Ok(TokenClaims { sub, exp })
        },
        _ => Err(AuthError::InvalidToken),
    }
}

/// Judges what decoding a token produced, at time `now`.
pub fn check_claims(decoded: Option<(Option<i64>, Option<i64>)>, now: i64) -> (r: Result<TokenClaims, AuthError>)
    ensures
        r == claims_verdict(decoded, now),
{
    match decoded {
        Some((Some(sub), Some(exp))) => if now > exp {
            Err(AuthError::Expired)
        } else {
            Ok(TokenClaims { sub, exp })
        },
        _ => Err(AuthError::InvalidToken),
    }
}

/// Signs a token for subject `sub` issued at `now`, expiring `SESSION_TTL`
/// seconds later. Signing always succeeds, and decoding the token under the
/// same secret yields exactly those claims.
pub fn issue_token(sub: i64, now: i64, secret: &str) -> (r: Result<String, AuthError>)
    requires
        now <= i64::MAX - SESSION_TTL,
    ensures
        r is Ok,
        r matches Ok(t) ==> t@.len() > 0,
        r matches Ok(t) ==> (now >= 0 ==> jwt_claims(t@, secret@) == Some((Some(sub), Some((now + SESSION_TTL) as i64)))),
{
    match sign_claims(sub, now + SESSION_TTL, secret) {
        Ok(t) => Ok(t),
        Err(_) => Err(AuthError::TokenIssue),
    }
}

/// Checks the signature and expiry of `token` at time `now`.
pub fn verify_token(token: &str, secret: &str, now: i64) -> (r: Result<TokenClaims, AuthError>)
    ensures
        r == claims_verdict(jwt_claims(token@, secret@), now),
{
    let decoded = match read_claims(token, secret) {
        Ok(c) => Some(c),
        Err(_) => None,
    };
    check_claims(decoded, now)
}

} // verus!
