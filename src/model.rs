use vstd::prelude::*;
use vstd::string::StrSliceExecFns;

verus! {

/// A stored account row, as the user datastore returns it.
#[derive(Debug)]
pub struct User {
    pub id: i64,
    pub email: String,
    /// The bcrypt hash of the password; never handed out.
    pub password: String,
    pub name: String,
}

/// A registration request.
#[derive(Debug)]
pub struct NewUser {
    pub email: String,
    pub password: String,
    pub name: String,
}

/// The name for whether `validator`'s email check accepts `email`.
pub uninterp spec fn email_accepted(email: Seq<char>) -> bool;

/// Relies on `validator::ValidateEmail::validate_email`: its verdict depends on
/// the text alone, and an empty address is refused.
#[verifier::external_body]
fn email_is_valid(email: &str) -> (r: bool)
    ensures
        r == email_accepted(email@),
        email@.len() == 0 ==> !r,
{
    validator::ValidateEmail::validate_email(&email)
}

impl NewUser {
    /// Whether the registration is acceptable: a valid email address, a
    /// password of at least 8 characters and a name of at least 3.
    pub fn validate(&self) -> (r: bool)
        ensures
            r == (email_accepted(self.email@) && self.password@.len() >= 8 && self.name@.len() >= 3),
    {
        let email_ok = email_is_valid(self.email.as_str());
        let password_ok = self.password.as_str().unicode_len() >= 8;
        let name_ok = self.name.as_str().unicode_len() >= 3;
        email_ok && password_ok && name_ok
    }
}

/// A login request: an opaque credential pair.
#[derive(Debug)]
pub struct LoginUser {
    pub email: String,
    pub password: String,
}

/// The claim set signed into a bearer token.
#[derive(Debug, Clone, Copy, PartialEq, Eq, Structural)]
pub struct TokenClaims {
    /// Subject id: the user the token speaks for.
    pub sub: i64,
    /// Absolute expiry, in seconds since the Unix epoch.
    pub exp: i64,
}

/// The user projection handed out at login; it has no password hash.
#[derive(Debug)]
pub struct UserProfile {
    pub id: i64,
    pub email: String,
    pub name: String,
}

/// What a successful login returns.
#[derive(Debug)]
pub struct LoginResponse {
    pub session_id: u128,
    pub token: String,
    pub user: UserProfile,
}

} // verus!
