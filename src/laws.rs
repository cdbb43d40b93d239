use vstd::prelude::*;
use crate::error::AuthError;
use crate::model::LoginResponse;
use crate::session::{
    SessionRecord, issued, paired, validation_outcome, live_session_id, revoked_records, revoked_index,
};
use crate::token::{SESSION_TTL, jwt_claims};

verus! {

/// A token issued at login is accepted from the moment of issuance until its
/// lifetime runs out, and the request acts for the subject it was issued to.
pub proof fn law_issued_token_accepted(
    pre_records: Map<u128, SessionRecord>,
    pre_index: Map<i64, (u128, i64)>,
    post_records: Map<u128, SessionRecord>,
    post_index: Map<i64, (u128, i64)>,
    resp: LoginResponse,
    id: i64,
    email: Seq<char>,
    name: Seq<char>,
    now: i64,
    secret: Seq<char>,
    at: i64,
)
    requires
        0 <= now <= i64::MAX - SESSION_TTL,
        issued(pre_records, pre_index, post_records, post_index, resp, id, email, name, now, secret),
        now <= at < now + SESSION_TTL,
    ensures
        validation_outcome(post_records, post_index, resp.token@, secret, at) == Ok::<i64, AuthError>(id),
{
}

/// A token whose expiry claim lies in the past is rejected as expired,
/// whatever the store holds.
pub proof fn law_expired_token_rejected(
    records: Map<u128, SessionRecord>,
    index: Map<i64, (u128, i64)>,
    token: Seq<char>,
    secret: Seq<char>,
    sub: i64,
    exp: i64,
    now: i64,
)
    requires
        jwt_claims(token, secret) == Some((Some(sub), Some(exp))),
        exp < now,
    ensures
        validation_outcome(records, index, token, secret, now) == Err::<i64, AuthError>(AuthError::Expired),
{
}

/// After two logins of the same user, issued in different seconds, the first
/// token is rejected as stale while it has not yet expired, and the second is
/// accepted.
pub proof fn law_second_login_supersedes_first(
    records0: Map<u128, SessionRecord>,
    index0: Map<i64, (u128, i64)>,
    records1: Map<u128, SessionRecord>,
    index1: Map<i64, (u128, i64)>,
    records2: Map<u128, SessionRecord>,
    index2: Map<i64, (u128, i64)>,
    first: LoginResponse,
    second: LoginResponse,
    id: i64,
    email: Seq<char>,
    name: Seq<char>,
    now1: i64,
    now2: i64,
    secret: Seq<char>,
    at: i64,
)
    requires
        0 <= now1 < now2 <= i64::MAX - SESSION_TTL,
        issued(records0, index0, records1, index1, first, id, email, name, now1, secret),
        issued(records1, index1, records2, index2, second, id, email, name, now2, secret),
        now2 <= at <= now1 + SESSION_TTL,
    ensures
        validation_outcome(records2, index2, first.token@, secret, at) == Err::<i64, AuthError>(
            AuthError::StaleSession,
        ),
        validation_outcome(records2, index2, second.token@, secret, at) == Ok::<i64, AuthError>(id),
{
    assert(first.token@ != second.token@);
}

/// Logging out leaves no current session for the subject, so logging out
/// again at once changes nothing.
pub proof fn law_logout_idempotent(
    records: Map<u128, SessionRecord>,
    index: Map<i64, (u128, i64)>,
    sub: i64,
    now: i64,
)
    ensures
        live_session_id(revoked_index(index, sub, now), sub, now) is None,
        revoked_records(revoked_records(records, index, sub, now), revoked_index(index, sub, now), sub, now)
            == revoked_records(records, index, sub, now),
        revoked_index(revoked_index(index, sub, now), sub, now) == revoked_index(index, sub, now),
{
}

/// Once a subject has logged out, no token that names it is accepted until
/// it logs in again.
pub proof fn law_logged_out_subject_rejected(
    records: Map<u128, SessionRecord>,
    index: Map<i64, (u128, i64)>,
    sub: i64,
    token: Seq<char>,
    secret: Seq<char>,
    exp: i64,
    now: i64,
)
    requires
        jwt_claims(token, secret) == Some((Some(sub), Some(exp))),
    ensures
        validation_outcome(
            revoked_records(records, index, sub, now),
            revoked_index(index, sub, now),
            token,
            secret,
            now,
        ) is Err,
{
}

/// Opening a session keeps every index entry paired with its record.
pub proof fn law_issue_keeps_pairing(
    pre_records: Map<u128, SessionRecord>,
    pre_index: Map<i64, (u128, i64)>,
    post_records: Map<u128, SessionRecord>,
    post_index: Map<i64, (u128, i64)>,
    resp: LoginResponse,
    id: i64,
    email: Seq<char>,
    name: Seq<char>,
    now: i64,
    secret: Seq<char>,
)
    requires
        now <= i64::MAX - SESSION_TTL,
        paired(pre_records, pre_index),
        issued(pre_records, pre_index, post_records, post_index, resp, id, email, name, now, secret),
    ensures
        paired(post_records, post_index),
{
    assert forall|sub: i64| #[trigger] post_index.contains_key(sub) implies {
        &&& post_records.contains_key(post_index[sub].0)
        &&& post_records[post_index[sub].0].user_id == sub
        &&& post_records[post_index[sub].0].expires_at == post_index[sub].1
    } by {
        if sub != id {
            assert(pre_index.contains_key(sub));
            assert(pre_records.contains_key(pre_index[sub].0));
        }
    }
}

/// Logging out keeps every remaining index entry paired with its record.
pub proof fn law_revoke_keeps_pairing(
    records: Map<u128, SessionRecord>,
    index: Map<i64, (u128, i64)>,
    sub: i64,
    now: i64,
)
    requires
        paired(records, index),
    ensures
        paired(revoked_records(records, index, sub, now), revoked_index(index, sub, now)),
{
    let post_records = revoked_records(records, index, sub, now);
    let post_index = revoked_index(index, sub, now);
    assert forall|other: i64| #[trigger] post_index.contains_key(other) implies {
        &&& post_records.contains_key(post_index[other].0)
        &&& post_records[post_index[other].0].user_id == other
        &&& post_records[post_index[other].0].expires_at == post_index[other].1
    } by {
        assert(index.contains_key(other));
        if live_session_id(index, sub, now) is Some {
            assert(other != sub);
            assert(index[other].0 != index[sub].0);
        }
    }
}

} // verus!
