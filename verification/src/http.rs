//! The replies of the session and health endpoints, as plain values: a
//! status, headers, at most one cookie, and a body.

use crate::json::{
    json_object_new, json_object_put, json_object_text, json_object_write, no_members,
};
use crate::session::{deleted, is_uuid_v4_text, stored, SessionRecord, SessionService, SessionUser};
use crate::store::{kept_from, make_key, SessionStore};
use crate::text::pair_views;
use vstd::prelude::*;
use vstd::string::StringExecFns;

verus! {

/// A cookie that a reply sets or, with `removal`, asks the client to drop.
#[derive(Debug, Clone, PartialEq, Eq)]
pub struct SessionCookie {
    pub name: String,
    pub value: String,
    pub path: String,
    pub http_only: bool,
    pub removal: bool,
}

/// What a cookie holds, as plain values.
pub struct CookieView {
    pub name: Seq<char>,
    pub value: Seq<char>,
    pub path: Seq<char>,
    pub http_only: bool,
    pub removal: bool,
}

impl View for SessionCookie {
    type V = CookieView;

    open spec fn view(&self) -> CookieView {
        CookieView {
            name: self.name@,
            value: self.value@,
            path: self.path@,
            http_only: self.http_only,
            removal: self.removal,
        }
    }
}

/// A reply to a request.
#[derive(Debug, Clone, PartialEq, Eq)]
pub struct Reply {
    pub status: u16,
    pub headers: Vec<(String, String)>,
    pub cookie: Option<SessionCookie>,
    pub body: String,
}

/// What a reply holds, as plain values.
pub struct ReplyView {
    pub status: u16,
    pub headers: Seq<(Seq<char>, Seq<char>)>,
    pub cookie: Option<CookieView>,
    pub body: Seq<char>,
}

impl View for Reply {
    type V = ReplyView;

    open spec fn view(&self) -> ReplyView {
        ReplyView {
            status: self.status,
            headers: pair_views(self.headers@),
            cookie: match self.cookie {
                Some(c) => Some(c@),
                None => None,
            },
            body: self.body@,
        }
    }
}

/// The one reply to every request that the guard turns away: status 401 and
/// a fixed body that names no reason.
pub open spec fn unauthorized_reply() -> ReplyView {
    ReplyView {
        status: 401,
        headers: seq![("content-type"@, "text/plain; charset=utf-8"@)],
        cookie: None,
        body: "Unauthorized: invalid session"@,
    }
}

/// The cookie that carries a session identifier: readable by the server
/// only, for every path.
pub open spec fn session_cookie(session_id: Seq<char>) -> CookieView {
    CookieView {
        name: "Session-ID"@,
        value: session_id,
        path: "/"@,
        http_only: true,
        removal: false,
    }
}

/// The reply to a created session: the identifier goes out as a cookie, the
/// anti-forgery token as a header.
pub open spec fn created_reply(user: SessionRecord) -> ReplyView {
    ReplyView {
        status: 200,
        headers: seq![("Cache-Control"@, "no-cache"@), ("X-CSRF-Token"@, user.csrf_token)],
        cookie: Some(session_cookie(user.session_id)),
        body: "Session created successfully!"@,
    }
}

/// The session that a reply to a creation speaks of, for the given name.
pub open spec fn session_of_reply(reply: ReplyView, user_name: Seq<char>) -> SessionRecord {
    SessionRecord {
        session_id: reply.cookie.unwrap().value,
        csrf_token: reply.headers[1].1,
        user_name,
    }
}

/// The reply that describes the session's identity.
pub open spec fn greeting_reply(user: SessionRecord) -> ReplyView {
    ReplyView {
        status: 200,
        headers: Seq::empty(),
        cookie: None,
        body: "Hello, "@ + user.user_name,
    }
}

/// The reply to a deleted session: it clears the session cookie.
pub open spec fn deleted_reply() -> ReplyView {
    ReplyView {
        status: 200,
        headers: Seq::empty(),
        cookie: Some(
            CookieView {
                name: "Session-ID"@,
                value: Seq::empty(),
                path: "/"@,
                http_only: true,
                removal: true,
            },
        ),
        body: "Session deleted successfully!"@,
    }
}

/// A reply with a status and a body, and nothing else.
pub open spec fn plain_reply(status: u16, body: Seq<char>) -> ReplyView {
    ReplyView { status, headers: Seq::empty(), cookie: None, body }
}

fn plain(status: u16, body: String) -> (reply: Reply)
    ensures
        reply@ == plain_reply(status, body@),
{
    let reply = Reply { status, headers: Vec::new(), cookie: None, body };
    assert(reply@.headers =~= Seq::empty());
    reply
}

/// The reply that turns a request away.
pub fn unauthorized() -> (reply: Reply)
    ensures
        reply@ == unauthorized_reply(),
{
    let mut headers: Vec<(String, String)> = Vec::new();
    headers.push((String::from_str("content-type"), String::from_str("text/plain; charset=utf-8")));
    let reply = Reply {
        status: 401,
        headers,
        cookie: None,
        body: String::from_str("Unauthorized: invalid session"),
    };
    assert(reply@.headers =~= unauthorized_reply().headers);
    reply
}

/// The reply that hands a new session to the client.
pub fn session_created(user: &SessionUser) -> (reply: Reply)
    ensures
        reply@ == created_reply(user@),
{
    let mut headers: Vec<(String, String)> = Vec::new();
    headers.push((String::from_str("Cache-Control"), String::from_str("no-cache")));
    headers.push((String::from_str("X-CSRF-Token"), user.csrf_token.clone()));
    let cookie = SessionCookie {
        name: String::from_str("Session-ID"),
        value: user.session_id.clone(),
        path: String::from_str("/"),
        http_only: true,
        removal: false,
    };
    let reply = Reply {
        status: 200,
        headers,
        cookie: Some(cookie),
        body: String::from_str("Session created successfully!"),
    };
    assert(reply@.headers =~= created_reply(user@).headers);
    reply
}

/// Creates a session for `user_name` and replies with its identifier as a
/// cookie and its anti-forgery token as a header.
pub fn create_session_handler(user_name: String, service: &mut SessionService) -> (reply: Reply)
    ensures
        reply@ == created_reply(session_of_reply(reply@, user_name@)),
        is_uuid_v4_text(session_of_reply(reply@, user_name@).session_id),
        is_uuid_v4_text(session_of_reply(reply@, user_name@).csrf_token),
        stored(
            old(service).store.entries(),
            session_of_reply(reply@, user_name@).session_id,
            session_of_reply(reply@, user_name@),
            final(service).store.entries(),
        ),
        final(service).store.same_limits(&old(service).store),
{
    let user = service.create(user_name);
    let reply = session_created(&user);
    assert(session_of_reply(reply@, user_name@) == user@);
    reply
}

/// Replies with a greeting of the session's principal.
pub fn get_session_handler(user: &SessionUser) -> (reply: Reply)
    ensures
        reply@ == greeting_reply(user@),
{
    plain(200, String::from_str("Hello, ").concat(user.user_name.as_str()))
}

/// Deletes the session of `user` and replies with a cookie that clears the
/// client's.
pub fn delete_session_handler(user: &SessionUser, service: &mut SessionService) -> (reply: Reply)
    ensures
        reply@ == deleted_reply(),
        deleted(old(service).store.entries(), user.session_id@, final(service).store.entries()),
        final(service).store.same_limits(&old(service).store),
{
    service.delete(user.session_id.as_str());
    let cookie = SessionCookie {
        name: String::from_str("Session-ID"),
        value: String::new(),
        path: String::from_str("/"),
        http_only: true,
        removal: true,
    };
    let reply = Reply {
        status: 200,
        headers: Vec::new(),
        cookie: Some(cookie),
        body: String::from_str("Session deleted successfully!"),
    };
    assert(reply@.headers =~= Seq::empty());
    reply
}

/// The reply of a service that runs.
pub fn api_health_check() -> (reply: Reply)
    ensures
        reply@ == plain_reply(200, "Server is running!"@),
{
    plain(200, String::from_str("Server is running!"))
}

/// Puts a probe entry into the store and reads it back. The reply is 200
/// with the probe's value where the store still holds it, and 412 where it
/// does not.
pub fn cache_health_check(store: &mut SessionStore) -> (reply: Reply)
    ensures
        kept_from(
            final(store).entries(),
            old(store).entries().insert("health_check"@, "Cache is running!"@),
        ),
        final(store).same_limits(old(store)),
        reply@ == if final(store).entries().contains_key("health_check"@) {
            plain_reply(200, "Cache is running!"@)
        } else {
            plain_reply(412, "Cache health check failed!"@)
        },
{
    store.insert(make_key("health_check"), String::from_str("Cache is running!"));
    let found = store.get(make_key("health_check").as_str());
    match found {
        Some(value) => {
            let expected = String::from_str("Cache is running!");
            if value == expected {
                plain(200, value)
            } else {
                plain(412, String::from_str("Cache health check failed!"))
            }
        },
        None => plain(412, String::from_str("Cache health check failed!")),
    }
}

/// A failure of the backing store, with the text that describes it: the
/// pool could not hand out a connection, or a query failed.
#[derive(Debug, Clone, PartialEq, Eq)]
pub enum AppError {
    DbPool(String),
    Pg(String),
}

impl AppError {
    /// The status that the failure is answered with: 424 where the pool
    /// failed, 417 where a query did.
    pub open spec fn spec_status_code(&self) -> u16 {
        match self {
            AppError::DbPool(_) => 424,
            AppError::Pg(_) => 417,
        }
    }

    /// The text of the failure, after the name of its source.
    pub open spec fn spec_message(&self) -> Seq<char> {
        match self {
            AppError::DbPool(e) => "DB: "@ + e@,
            AppError::Pg(e) => "PostgreSQL: "@ + e@,
        }
    }

    pub fn status_code(&self) -> (code: u16)
        ensures
            code == self.spec_status_code(),
    {
        match self {
            AppError::DbPool(_) => 424,
            AppError::Pg(_) => 417,
        }
    }

    pub fn message(&self) -> (text: String)
        ensures
            text@ == self.spec_message(),
    {
        match self {
            AppError::DbPool(e) => String::from_str("DB: ").concat(e.as_str()),
            AppError::Pg(e) => String::from_str("PostgreSQL: ").concat(e.as_str()),
        }
    }

    /// The reply to a request that met the failure: its status, and a JSON
    /// object whose one member, `error`, is the message.
    pub fn error_response(&self) -> (reply: Reply)
        ensures
            reply@ == plain_reply(
                self.spec_status_code(),
                json_object_text(no_members().insert("error"@, self.spec_message())),
            ),
    {
        let mut object = json_object_new();
        json_object_put(&mut object, "error", self.message().as_str());
        plain(self.status_code(), json_object_write(&object))
    }
}

} // verus!
