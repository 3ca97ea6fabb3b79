//! The authentication guard in front of every protected route.

use crate::http::{unauthorized, unauthorized_reply, Reply};
use crate::session::{session_at, user_view, SessionRecord, SessionService, SessionUser};
use crate::store::kept_from;
use crate::text::{constant_shape_eq, text_view};
use vstd::prelude::*;

verus! {

/// What the guard reads of a request: the value of the session cookie and
/// the value of the anti-forgery header, each where the request has one.
#[derive(Debug, Clone, PartialEq, Eq)]
pub struct Credentials {
    pub session_id: Option<String>,
    pub csrf_token: Option<String>,
}

/// The session that passes with the given token: the one found, where its
/// anti-forgery token is the given one.
pub open spec fn admitted(token: Seq<char>, found: Option<SessionRecord>) -> Option<
    SessionRecord,
> {
    match found {
        Some(user) => if user.csrf_token == token {
            Some(user)
        } else {
            None
        },
        None => None,
    }
}

/// The identity that the guard attaches to a request, or `None` where it
/// turns the request away: cookie and header must both be there, the store
/// must hold a session under the cookie's value, and that session's token
/// must be the header's value.
pub open spec fn guard_admits(
    session_id: Option<Seq<char>>,
    csrf_token: Option<Seq<char>>,
    entries: Map<Seq<char>, Seq<char>>,
) -> Option<SessionRecord> {
    match (session_id, csrf_token) {
        (Some(id), Some(token)) => admitted(token, session_at(entries, id)),
        _ => None,
    }
}

/// Checks the token of a request against the session found for it.
pub fn authorize(token: &str, found: Option<SessionUser>) -> (user: Option<SessionUser>)
    ensures
        user_view(user) == admitted(token@, user_view(found)),
{
    match found {
        Some(user) => {
            if constant_shape_eq(user.csrf_token.as_str(), token) {
                Some(user)
            } else {
                None
            }
        },
        None => None,
    }
}

/// Looks up the session that the credentials name and checks their token.
/// The store gains nothing by it.
pub fn session_check(credentials: &Credentials, service: &mut SessionService) -> (user: Option<
    SessionUser,
>)
    ensures
        kept_from(final(service).store.entries(), old(service).store.entries()),
        final(service).store.same_limits(&old(service).store),
        user_view(user) == guard_admits(
            text_view(credentials.session_id),
            text_view(credentials.csrf_token),
            final(service).store.entries(),
        ),
{
    match (&credentials.session_id, &credentials.csrf_token) {
        (Some(session_id), Some(token)) => {
            let found = service.get(session_id.as_str());
            authorize(token.as_str(), found)
        },
        _ => None,
    }
}

/// The guard: the identity of the session where the request passes, and
/// where it does not, whatever the reason, the one unauthorized reply.
pub fn auth_check(credentials: &Credentials, service: &mut SessionService) -> (outcome: Result<
    SessionUser,
    Reply,
>)
    ensures
        kept_from(final(service).store.entries(), old(service).store.entries()),
        final(service).store.same_limits(&old(service).store),
        match outcome {
            Ok(user) => guard_admits(
                text_view(credentials.session_id),
                text_view(credentials.csrf_token),
                final(service).store.entries(),
            ) == Some(user@),
            Err(reply) => guard_admits(
                text_view(credentials.session_id),
                text_view(credentials.csrf_token),
                final(service).store.entries(),
            ) is None && reply@ == unauthorized_reply(),
        },
{
    match session_check(credentials, service) {
        Some(user) => Ok(user),
        None => Err(unauthorized()),
    }
}

/// The guard turns a request away where it has no session cookie, where it
/// has no anti-forgery header, where the store holds no session under the
/// cookie's value, and where the session's token is not the header's.
pub proof fn law_guard_rejects(
    session_id: Option<Seq<char>>,
    csrf_token: Option<Seq<char>>,
    entries: Map<Seq<char>, Seq<char>>,
)
    requires
        session_id is None || csrf_token is None || session_at(entries, session_id.unwrap())
            is None || session_at(entries, session_id.unwrap()).unwrap().csrf_token
            != csrf_token.unwrap(),
    ensures
        guard_admits(session_id, csrf_token, entries) is None,
{
}

} // verus!
