use vstd::prelude::*;

verus! {

/// Every way an authentication step can fail, as seen from outside the core.
#[derive(Debug, Clone, Copy, PartialEq, Eq, Structural)]
pub enum AuthError {
    /// Unknown email or wrong password; the two are not told apart.
    InvalidCredentials,
    /// The bearer token is malformed or its signature does not match.
    InvalidToken,
    /// The token's expiry claim lies in the past.
    Expired,
    /// No index entry names a current session for the token's subject.
    NoActiveSession,
    /// The index names a session whose record is gone.
    SessionNotFound,
    /// The current session holds a different token: the presented one was
    /// superseded by a later login.
    StaleSession,
    /// The session store failed while a request was being authenticated.
    StoreError,
    /// The session store could not be reached while logging in or out.
    StoreUnavailable,
    /// The session id drawn for a new session is already in use.
    SessionIdInUse,
    /// A token could not be signed.
    TokenIssue,
}

impl AuthError {
    /// Whether the error is one of the uniform authentication failures that a
    /// protected route reports as unauthorized.
    pub open spec fn is_unauthorized_spec(self) -> bool {
        match self {
            AuthError::InvalidToken | AuthError::Expired | AuthError::NoActiveSession
            | AuthError::SessionNotFound | AuthError::StaleSession | AuthError::StoreError => true,
            _ => false,
        }
    }

    pub fn is_unauthorized(&self) -> (r: bool)
        ensures
            r == self.is_unauthorized_spec(),
    {
        match self {
            AuthError::InvalidToken | AuthError::Expired | AuthError::NoActiveSession
            | AuthError::SessionNotFound | AuthError::StaleSession | AuthError::StoreError => true,
            _ => false,
        }
    }
}

} // verus!
