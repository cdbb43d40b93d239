use vstd::prelude::*;
use vstd::string::StringExecFns;
use crate::error::AuthError;

verus! {

/// The decimal digits, indexed by their value.
pub open spec fn digit_chars() -> Seq<char> {
    seq!['0', '1', '2', '3', '4', '5', '6', '7', '8', '9']
}

/// The decimal digits of `n`, most significant first, without leading zeros.
pub open spec fn digits_of(n: nat) -> Seq<char>
    decreases n,
{
    if n < 10 {
        seq![digit_chars()[n as int]]
    } else {
        digits_of(n / 10).push(digit_chars()[(n % 10) as int])
    }
}

/// The decimal text of `v`, with a leading `-` when it is negative.
pub open spec fn decimal(v: int) -> Seq<char> {
    if v < 0 {
        seq!['-'] + digits_of((-v) as nat)
    } else {
        digits_of(v as nat)
    }
}

/// The store key of the index entry of subject `sub`.
pub open spec fn index_key_spec(sub: i64) -> Seq<char> {
    "user_session:"@ + decimal(sub as int)
}

/// The store key of the record of session `session_id`.
pub open spec fn session_key_spec(session_id: Seq<char>) -> Seq<char> {
    "session:"@ + session_id
}

fn digit_str(d: u64) -> (r: &'static str)
    requires
        d < 10,
    ensures
        r@ == seq![digit_chars()[d as int]],
{
    match d {
        0 => { proof { reveal_strlit("0"); } "0" },
        1 => { proof { reveal_strlit("1"); } "1" },
        2 => { proof { reveal_strlit("2"); } "2" },
        3 => { proof { reveal_strlit("3"); } "3" },
        4 => { proof { reveal_strlit("4"); } "4" },
        5 => { proof { reveal_strlit("5"); } "5" },
        6 => { proof { reveal_strlit("6"); } "6" },
        7 => { proof { reveal_strlit("7"); } "7" },
        8 => { proof { reveal_strlit("8"); } "8" },
        _ => { proof { reveal_strlit("9"); } "9" },
    }
}

fn append_digits(s: &mut String, n: u64)
    ensures
        final(s)@ == old(s)@ + digits_of(n as nat),
    decreases n,
{
    if n >= 10 {
        append_digits(s, n / 10);
    }
    s.append(digit_str(n % 10));
    proof {
        if n >= 10 {
            assert(digits_of(n as nat) == digits_of((n / 10) as nat).push(digit_chars()[(n % 10) as int]));
        } else {
            assert(digits_of(n as nat) == seq![digit_chars()[(n % 10) as int]]);
        }
        assert(final(s)@ == old(s)@ + digits_of(n as nat));
    }
}

/// The key `user_session:<sub>` under which the current session id of `sub`
/// is kept.
pub fn index_key(sub: i64) -> (r: String)
    ensures
        r@ == index_key_spec(sub),
{
    let mut s = String::from_str("user_session:");
    let magnitude: u64 = if sub < 0 {
        proof { reveal_strlit("-"); }
        s.append("-");
        (-(sub as i128)) as u64
    } else {
        sub as u64
    };
    append_digits(&mut s, magnitude);
    s
}

/// The key `session:<session_id>` under which a session record is kept.
pub fn session_key(session_id: &str) -> (r: String)
    ensures
        r@ == session_key_spec(session_id@),
{
    let mut s = String::from_str("session:");
    s.append(session_id);
    s
}

/// What a read of one store key returned.
#[derive(Debug)]
pub enum Lookup {
    Found(String),
    Missing,
    Failed,
}

/// What a read of a session record returned: the record's token, a record
/// with no readable token, no record, or a store failure.
#[derive(Debug)]
pub enum StoredToken {
    Token(String),
    Unreadable,
    Missing,
    Failed,
}

/// The record key to read next, given the read of a subject's index entry.
pub open spec fn index_step(found: Lookup) -> Result<Seq<char>, AuthError> {
    match found {
        Lookup::Found(sid) => Ok(session_key_spec(sid@)),
        Lookup::Missing => Err(AuthError::NoActiveSession),
        Lookup::Failed => Err(AuthError::StoreError),
    }
}

/// The verdict on a request for subject `sub` presenting `presented`, given the
/// read of its current session record.
pub open spec fn record_step(sub: i64, stored: StoredToken, presented: Seq<char>) -> Result<i64, AuthError> {
    match stored {
        StoredToken::Token(t) => if t@ == presented {
            Ok(sub)
        } else {
            Err(AuthError::StaleSession)
        },
        StoredToken::Unreadable => Err(AuthError::StaleSession),
        StoredToken::Missing => Err(AuthError::SessionNotFound),
        StoredToken::Failed => Err(AuthError::StoreError),
    }
}

/// During validation: from the read of the index entry, the key of the
/// session record to read, or the rejection.
pub fn after_index_lookup(found: Lookup) -> (r: Result<String, AuthError>)
    ensures
        match r {
            Ok(k) => index_step(found) == Ok::<Seq<char>, AuthError>(k@),
            Err(e) => index_step(found) == Err::<Seq<char>, AuthError>(e),
        },
{
    match found {
        Lookup::Found(sid) => Ok(session_key(sid.as_str())),
        Lookup::Missing => Err(AuthError::NoActiveSession),
        Lookup::Failed => Err(AuthError::StoreError),
    }
}

/// During validation: from the read of the session record, the subject the
/// request acts for, or the rejection. Tokens are compared exactly.
pub fn after_record_lookup(sub: i64, stored: StoredToken, presented: &str) -> (r: Result<i64, AuthError>)
    ensures
        r == record_step(sub, stored, presented@),
{
    match stored {
        StoredToken::Token(t) => {
            let p = presented.to_owned();
            if t == p {
                Ok(sub)
            } else {
                Err(AuthError::StaleSession)
            }
        },
        StoredToken::Unreadable => Err(AuthError::StaleSession),
        StoredToken::Missing => Err(AuthError::SessionNotFound),
        StoredToken::Failed => Err(AuthError::StoreError),
    }
}

/// During login: the keys to write, in this order, for session `session_id`
/// of subject `sub`: the session record first, then the index entry, so that a
/// failure between the two leaves only a record that expires by itself.
pub fn login_writes(session_id: &str, sub: i64) -> (r: Vec<String>)
    ensures
        r@.len() == 2,
        r@[0]@ == session_key_spec(session_id@),
        r@[1]@ == index_key_spec(sub),
{
    let mut keys: Vec<String> = Vec::new();
    keys.push(session_key(session_id));
    keys.push(index_key(sub));
    keys
}

/// During logout of `sub`: from the read of its index entry, the keys to
/// delete, in this order: the session record first, then the index entry, so
/// that a failure between the two leaves an index entry whose record is gone,
/// which validation rejects. None when the subject is already logged out.
pub fn revocation_plan(sub: i64, found: Lookup) -> (r: Result<Vec<String>, AuthError>)
    ensures
        match found {
            Lookup::Found(sid) => r matches Ok(keys) && keys@.len() == 2 && keys@[0]@ == session_key_spec(sid@)
                && keys@[1]@ == index_key_spec(sub),
            Lookup::Missing => r matches Ok(keys) && keys@.len() == 0,
            Lookup::Failed => r == Err::<Vec<String>, AuthError>(AuthError::StoreUnavailable),
        },
{
    match found {
        Lookup::Found(sid) => {
            let mut keys: Vec<String> = Vec::new();
            keys.push(session_key(sid.as_str()));
            keys.push(index_key(sub));
            Ok(keys)
        },
        Lookup::Missing => Ok(Vec::new()),
        Lookup::Failed => Err(AuthError::StoreUnavailable),
    }
}

/// The name for the string under `token` in the JSON object `data`, as
/// `serde_json` reads it; `None` when `data` is not JSON or has no such string.
pub uninterp spec fn json_token_field(data: Seq<char>) -> Option<Seq<char>>;

/// Relies on `serde_json::from_str` into a `serde_json::Value`, and on picking
/// its `token` string: the outcome depends on the text alone.
#[verifier::external_body]
fn token_field(data: &str) -> (r: Option<String>)
    ensures
        match r {
            Some(t) => json_token_field(data@) == Some(t@),
            None => json_token_field(data@) is None,
        },
{
    serde_json::from_str::<serde_json::Value>(data).ok().and_then(
        |v| v.get("token").and_then(|t| t.as_str()).map(|t| t.to_string()),
    )
}

/// During validation: what the read of a session record holds for the token
/// comparison: the `token` string of the record's JSON, or a record with no
/// readable token.
pub fn stored_token(read: Lookup) -> (r: StoredToken)
    ensures
        match read {
            Lookup::Found(data) => match json_token_field(data@) {
                Some(t) => r matches StoredToken::Token(x) && x@ == t,
                None => r matches StoredToken::Unreadable,
            },
            Lookup::Missing => r matches StoredToken::Missing,
            Lookup::Failed => r matches StoredToken::Failed,
        },
{
    match read {
        Lookup::Found(data) => match token_field(data.as_str()) {
            Some(t) => StoredToken::Token(t),
            None => StoredToken::Unreadable,
        },
        Lookup::Missing => StoredToken::Missing,
        Lookup::Failed => StoredToken::Failed,
    }
}

} // verus!
