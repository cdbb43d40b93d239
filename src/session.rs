use vstd::prelude::*;
use std::collections::HashMap;
use crate::error::AuthError;
use crate::model::{LoginResponse, LoginUser, TokenClaims, User, UserProfile};
use crate::token::{SESSION_TTL, jwt_claims, claims_verdict, issue_token, verify_token};

verus! {

broadcast use vstd::std_specs::hash::group_hash_axioms;

/// The server-side record of one session, stored under `session:<id>`. Its
/// `token` is the exact string issued at login.
#[derive(Debug)]
pub struct SessionRecord {
    pub user_id: i64,
    pub email: String,
    pub name: String,
    pub token: String,
    pub created_at: i64,
    pub expires_at: i64,
}

/// The key-value cache behind the sessions: records keyed by session id, and
/// the user-to-session index keyed by subject id. Every entry carries the
/// instant from which it counts as expired and is no longer seen.
pub struct SessionStore {
    records: HashMap<u128, SessionRecord>,
    index: HashMap<i64, (u128, i64)>,
}

/// The session id that the index holds for `sub` at time `now`, if its entry
/// has not expired.
pub open spec fn live_session_id(index: Map<i64, (u128, i64)>, sub: i64, now: i64) -> Option<u128> {
    if index.contains_key(sub) && now < index[sub].1 {
        Some(index[sub].0)
    } else {
        None
    }
}

/// The record stored under `sid` at time `now`, if it has not expired.
pub open spec fn live_record(records: Map<u128, SessionRecord>, sid: u128, now: i64) -> Option<SessionRecord> {
    if records.contains_key(sid) && now < records[sid].expires_at {
        Some(records[sid])
    } else {
        None
    }
}

/// Whether a request presenting `token`, whose claims were judged `claims`, is
/// admitted at time `now`, and as which subject: the subject's current session
/// must exist and hold exactly that token.
pub open spec fn admission(
    records: Map<u128, SessionRecord>,
    index: Map<i64, (u128, i64)>,
    claims: Result<TokenClaims, AuthError>,
    token: Seq<char>,
    now: i64,
) -> Result<i64, AuthError> {
    match claims {
        Err(e) => Err(e),
        Ok(c) => match live_session_id(index, c.sub, now) {
            None => Err(AuthError::NoActiveSession),
            Some(sid) => match live_record(records, sid, now) {
                None => Err(AuthError::SessionNotFound),
                Some(rec) => if rec.token@ == token {
                    Ok(c.sub)
                } else {
                    Err(AuthError::StaleSession)
                },
            },
        },
    }
}

/// The outcome of validating bearer `token` under `secret` at time `now`.
pub open spec fn validation_outcome(
    records: Map<u128, SessionRecord>,
    index: Map<i64, (u128, i64)>,
    token: Seq<char>,
    secret: Seq<char>,
    now: i64,
) -> Result<i64, AuthError> {
    admission(records, index, claims_verdict(jwt_claims(token, secret), now), token, now)
}

/// The pairing of the two kinds of entry: every index entry names a stored
/// record of the same subject that expires at the same instant.
pub open spec fn paired(records: Map<u128, SessionRecord>, index: Map<i64, (u128, i64)>) -> bool {
    forall|sub: i64| #[trigger] index.contains_key(sub) ==> {
        &&& records.contains_key(index[sub].0)
        &&& records[index[sub].0].user_id == sub
        &&& records[index[sub].0].expires_at == index[sub].1
    }
}

/// The records left after logging `sub` out at time `now`.
pub open spec fn revoked_records(
    records: Map<u128, SessionRecord>,
    index: Map<i64, (u128, i64)>,
    sub: i64,
    now: i64,
) -> Map<u128, SessionRecord> {
    match live_session_id(index, sub, now) {
        Some(sid) => records.remove(sid),
        None => records,
    }
}

/// The index left after logging `sub` out at time `now`.
pub open spec fn revoked_index(index: Map<i64, (u128, i64)>, sub: i64, now: i64) -> Map<i64, (u128, i64)> {
    match live_session_id(index, sub, now) {
        Some(_) => index.remove(sub),
        None => index,
    }
}

/// The record a login at `now` writes for the user `(id, email, name)` with
/// the freshly signed `token`.
pub open spec fn issued_record(
    rec: SessionRecord,
    id: i64,
    email: Seq<char>,
    name: Seq<char>,
    token: Seq<char>,
    now: i64,
) -> bool {
    &&& rec.user_id == id
    &&& rec.email@ == email
    &&& rec.name@ == name
    &&& rec.token@ == token
    &&& rec.created_at == now
    &&& rec.expires_at == now + SESSION_TTL
}

/// What a completed login returned and did to the store: the response echoes
/// the user's projection and a non-empty token that decodes to the subject and
/// an expiry `SESSION_TTL` seconds away; the record is written under the
/// response's session id, which no record used before, and the index points the
/// subject at it with the same expiry.
pub open spec fn issued(
    pre_records: Map<u128, SessionRecord>,
    pre_index: Map<i64, (u128, i64)>,
    post_records: Map<u128, SessionRecord>,
    post_index: Map<i64, (u128, i64)>,
    resp: LoginResponse,
    id: i64,
    email: Seq<char>,
    name: Seq<char>,
    now: i64,
    secret: Seq<char>,
) -> bool {
    let sid = resp.session_id;
    &&& resp.user.id == id
    &&& resp.user.email@ == email
    &&& resp.user.name@ == name
    &&& resp.token@.len() > 0
    &&& !pre_records.contains_key(sid)
    &&& (now >= 0 ==> jwt_claims(resp.token@, secret) == Some((Some(id), Some((now + SESSION_TTL) as i64))))
    &&& post_records == pre_records.insert(sid, post_records[sid])
    &&& issued_record(post_records[sid], id, email, name, resp.token@, now)
    &&& post_index == pre_index.insert(id, (sid, (now + SESSION_TTL) as i64))
}

/// The name for whether `bcrypt::verify` accepts `password` against `hash`.
pub uninterp spec fn bcrypt_accepts(password: Seq<char>, hash: Seq<char>) -> bool;

/// Relies on `bcrypt::verify`, reading a malformed hash as a mismatch; its
/// verdict depends on the password and the hash alone.
#[verifier::external_body]
fn password_matches(password: &str, hash: &str) -> (r: bool)
    ensures
        r == bcrypt_accepts(password@, hash@),
{
    bcrypt::verify(password, hash).unwrap_or(false)
}

/// Relies on `uuid::Uuid::new_v4`: a random identifier, of which nothing is
/// promised.
#[verifier::external_body]
fn fresh_session_id() -> (r: u128) {
    uuid::Uuid::new_v4().as_u128()
}

/// Checks `credentials` against the account `found` by their email (`None`
/// when there is none): the account's projection when the password matches
/// its hash, else `InvalidCredentials`, whichever part was wrong.
pub fn check_login(credentials: &LoginUser, found: Option<&User>) -> (r: Result<UserProfile, AuthError>)
    ensures
        match found {
            Some(u) if bcrypt_accepts(credentials.password@, u.password@) => r matches Ok(p) && p.id == u.id
                && p.email@ == u.email@ && p.name@ == u.name@,
            _ => r == Err::<UserProfile, AuthError>(AuthError::InvalidCredentials),
        },
{
    let user = match found {
        Some(u) => u,
        None => return Err(AuthError::InvalidCredentials),
    };
    if !password_matches(credentials.password.as_str(), user.password.as_str()) {
        return Err(AuthError::InvalidCredentials);
    }
    Ok(UserProfile { id: user.id, email: user.email.clone(), name: user.name.clone() })
}

/// Builds session `session_id` for `user` at time `now`: the login response,
/// with a freshly signed token, and the record to store for it. The record and
/// the token expire together, `SESSION_TTL` seconds after `now`.
pub fn new_session(user: &UserProfile, session_id: u128, now: i64, secret: &str) -> (r: Result<(LoginResponse, SessionRecord), AuthError>)
    requires
        now <= i64::MAX - SESSION_TTL,
    ensures
        match r {
            Ok((resp, rec)) => {
                &&& resp.token@.len() > 0
                &&& resp.session_id == session_id
                &&& resp.user.id == user.id
                &&& resp.user.email@ == user.email@
                &&& resp.user.name@ == user.name@
                &&& (now >= 0 ==> jwt_claims(resp.token@, secret@) == Some((Some(user.id), Some((now + SESSION_TTL) as i64))))
                &&& issued_record(rec, user.id, user.email@, user.name@, resp.token@, now)
            },
            Err(_) => false,
        },
{
    let token = match issue_token(user.id, now, secret) {
        Ok(t) => t,
        Err(e) => return Err(e),
    };
    let record = SessionRecord {
        user_id: user.id,
        email: user.email.clone(),
        name: user.name.clone(),
        token: token.clone(),
        created_at: now,
        expires_at: now + SESSION_TTL,
    };
    let profile = UserProfile { id: user.id, email: user.email.clone(), name: user.name.clone() };
    Ok((LoginResponse { session_id, token, user: profile }, record))
}

impl SessionStore {
    /// The records, keyed by session id.
    pub closed spec fn records(&self) -> Map<u128, SessionRecord> {
        self.records@
    }

    /// The user-to-session index: subject id to session id and expiry.
    pub closed spec fn index(&self) -> Map<i64, (u128, i64)> {
        self.index@
    }

    /// An empty store.
    pub fn new() -> (s: Self)
        ensures
            paired(s.records(), s.index()),
            s.records() == Map::<u128, SessionRecord>::empty(),
            s.index() == Map::<i64, (u128, i64)>::empty(),
    {
        SessionStore { records: HashMap::new(), index: HashMap::new() }
    }

    /// Writes `record` under `sid`, replacing what was there.
    pub fn put_session(&mut self, sid: u128, record: SessionRecord)
        ensures
            final(self).records() == old(self).records().insert(sid, record),
            final(self).index() == old(self).index(),
    {
        self.records.insert(sid, record);
    }

    /// Points `sub` at session `sid` until `expires_at`.
    pub fn put_index(&mut self, sub: i64, sid: u128, expires_at: i64)
        ensures
            final(self).records() == old(self).records(),
            final(self).index() == old(self).index().insert(sub, (sid, expires_at)),
    {
        self.index.insert(sub, (sid, expires_at));
    }

    /// The current session id of `sub` at time `now`.
    pub fn get_index(&self, sub: i64, now: i64) -> (r: Option<u128>)
        ensures
            r == live_session_id(self.index(), sub, now),
    {
        match self.index.get(&sub) {
            Some(e) => if now < e.1 {
                Some(e.0)
            } else {
                None
            },
            None => None,
        }
    }

    /// The record of session `sid` at time `now`.
    pub fn get_session(&self, sid: u128, now: i64) -> (r: Option<&SessionRecord>)
        ensures
            match r {
                Some(rec) => live_record(self.records(), sid, now) == Some(*rec),
                None => live_record(self.records(), sid, now) is None,
            },
    {
        match self.records.get(&sid) {
            Some(rec) => if now < rec.expires_at {
                Some(rec)
            } else {
                None
            },
            None => None,
        }
    }

    /// Removes the record of session `sid`, if any.
    pub fn delete_session(&mut self, sid: u128)
        ensures
            final(self).records() == old(self).records().remove(sid),
            final(self).index() == old(self).index(),
    {
        self.records.remove(&sid);
    }

    /// Removes the index entry of `sub`, if any.
    pub fn delete_index(&mut self, sub: i64)
        ensures
            final(self).records() == old(self).records(),
            final(self).index() == old(self).index().remove(sub),
    {
        self.index.remove(&sub);
    }

    /// Decides on a request presenting `token`, once its claims have been
    /// judged: the subject's current session must hold exactly that token.
    pub fn check_session(&self, claims: Result<TokenClaims, AuthError>, token: &str, now: i64) -> (r: Result<i64, AuthError>)
        ensures
            r == admission(self.records(), self.index(), claims, token@, now),
    {
        let c = match claims {
            Ok(c) => c,
            Err(e) => return Err(e),
        };
        let sid = match self.get_index(c.sub, now) {
            Some(sid) => sid,
            None => return Err(AuthError::NoActiveSession),
        };
        let rec = match self.get_session(sid, now) {
            Some(rec) => rec,
            None => return Err(AuthError::SessionNotFound),
        };
        let presented = token.to_owned();
        if rec.token == presented {
            Ok(c.sub)
        } else {
            Err(AuthError::StaleSession)
        }
    }

    /// Validates bearer `token` under `secret` at time `now`: on success, the
    /// subject id the request acts for. Validation never changes the store.
    pub fn validate_request(&self, token: &str, secret: &str, now: i64) -> (r: Result<i64, AuthError>)
        ensures
            r == validation_outcome(self.records(), self.index(), token@, secret@, now),
    {
        let claims = verify_token(token, secret, now);
        self.check_session(claims, token, now)
    }

    /// Opens session `session_id` for `user` at time `now`: signs a token, then
    /// writes the session record and the user's index entry, both expiring
    /// with the token. A superseded session's record is left to expire. An id
    /// that a stored record already uses is refused and nothing is written.
    pub fn issue_session(&mut self, user: &UserProfile, session_id: u128, now: i64, secret: &str) -> (r: Result<LoginResponse, AuthError>)
        requires
            now <= i64::MAX - SESSION_TTL,
        ensures
            old(self).records().contains_key(session_id) ==> {
                &&& r == Err::<LoginResponse, AuthError>(AuthError::SessionIdInUse)
                &&& final(self).records() == old(self).records()
                &&& final(self).index() == old(self).index()
            },
            !old(self).records().contains_key(session_id) ==> (r matches Ok(resp) && resp.session_id == session_id
                && issued(old(self).records(), old(self).index(), final(self).records(), final(self).index(),
                resp, user.id, user.email@, user.name@, now, secret@)),
    {
        if self.records.contains_key(&session_id) {
            return Err(AuthError::SessionIdInUse);
        }
        let (resp, record) = match new_session(user, session_id, now, secret) {
            Ok(pair) => pair,
            Err(e) => return Err(e),
        };
        let expires_at = record.expires_at;
        self.put_session(session_id, record);
        self.put_index(user.id, session_id, expires_at);
        Ok(resp)
    }

    /// Logs in with `credentials`, given the account `found` by their email
    /// (`None` when there is none). A missing account and a wrong password
    /// both give `InvalidCredentials` and leave the store alone; otherwise a
    /// session with a fresh random id is opened as `issue_session` does; should
    /// the drawn id be in use already, `SessionIdInUse` is returned and nothing
    /// is written.
    pub fn login(&mut self, credentials: &LoginUser, found: Option<&User>, now: i64, secret: &str) -> (r: Result<LoginResponse, AuthError>)
        requires
            now <= i64::MAX - SESSION_TTL,
        ensures
            match found {
                Some(u) if bcrypt_accepts(credentials.password@, u.password@) => match r {
                    Ok(resp) => issued(old(self).records(), old(self).index(), final(self).records(),
                        final(self).index(), resp, u.id, u.email@, u.name@, now, secret@),
                    Err(e) => {
                        &&& e == AuthError::SessionIdInUse
                        &&& final(self).records() == old(self).records()
                        &&& final(self).index() == old(self).index()
                    },
                },
                _ => {
                    &&& r == Err::<LoginResponse, AuthError>(AuthError::InvalidCredentials)
                    &&& final(self).records() == old(self).records()
                    &&& final(self).index() == old(self).index()
                },
            },
    {
        let profile = match check_login(credentials, found) {
            Ok(p) => p,
            Err(e) => return Err(e),
        };
        let session_id = fresh_session_id();
        self.issue_session(&profile, session_id, now, secret)
    }

    /// Logs `sub` out at time `now`: deletes the current session's record,
    /// then the index entry. With no current session there is nothing to do,
    /// and that is a success too.
    pub fn revoke_session(&mut self, sub: i64, now: i64) -> (r: Result<(), AuthError>)
        ensures
            r is Ok,
            final(self).records() == revoked_records(old(self).records(), old(self).index(), sub, now),
            final(self).index() == revoked_index(old(self).index(), sub, now),
    {
        match self.get_index(sub, now) {
            Some(sid) => {
                self.delete_session(sid);
                self.delete_index(sub);
            },
            None => {},
        }
        Ok(())
    }
}

} // verus!
