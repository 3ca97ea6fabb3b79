//! Session records and the service that creates, fetches and deletes them.

use crate::json::{
    json_object_new, json_object_put, json_object_text, json_object_write, json_text_member,
    no_members, read_json_member,
};
use crate::store::{kept_from, make_key, SessionStore};
use crate::text::text_view;
use vstd::prelude::*;
use vstd::string::StringExecFns;

verus! {

/// A session record: the identifier that names it, the anti-forgery token
/// bound to it, and the name of the authenticated principal.
#[derive(Debug, Clone, PartialEq, Eq)]
pub struct SessionUser {
    pub session_id: String,
    pub csrf_token: String,
    pub user_name: String,
}

/// What a session record holds, as plain text.
pub struct SessionRecord {
    pub session_id: Seq<char>,
    pub csrf_token: Seq<char>,
    pub user_name: Seq<char>,
}

impl View for SessionUser {
    type V = SessionRecord;

    open spec fn view(&self) -> SessionRecord {
        SessionRecord {
            session_id: self.session_id@,
            csrf_token: self.csrf_token@,
            user_name: self.user_name@,
        }
    }
}

/// A digit or one of the letters `a` to `f`.
pub open spec fn is_lower_hex(c: char) -> bool {
    ('0' <= c && c <= '9') || ('a' <= c && c <= 'f')
}

/// The shape of a random (version 4) UUID in its hyphenated lower-case form:
/// 36 characters, hyphens after 8, 12, 16 and 20 hex digits, the version
/// digit `4`, and a variant digit among `8`, `9`, `a`, `b`.
pub open spec fn is_uuid_v4_text(s: Seq<char>) -> bool {
    &&& s.len() == 36
    &&& forall|i: int|
        0 <= i < 36 ==> if i == 8 || i == 13 || i == 18 || i == 23 {
            #[trigger] s[i] == '-'
        } else {
            is_lower_hex(s[i])
        }
    &&& s[14] == '4'
    &&& (s[19] == '8' || s[19] == '9' || s[19] == 'a' || s[19] == 'b')
}

/// `uuid::Uuid::new_v4`, written out by its `Display`: a fresh random
/// identifier. Only its shape is known; which one comes is up to the
/// system's random source, and the call panics where that source fails.
#[verifier::external_body]
fn new_uuid_text() -> (text: String)
    ensures
        is_uuid_v4_text(text@),
{
    uuid::Uuid::new_v4().to_string()
}

impl SessionUser {
    /// A new session record for `user_name`, with a fresh session identifier
    /// and a fresh anti-forgery token, drawn independently.
    pub fn create(user_name: String) -> (user: SessionUser)
        ensures
            user.user_name@ == user_name@,
            is_uuid_v4_text(user.session_id@),
            is_uuid_v4_text(user.csrf_token@),
    {
        let csrf_token = new_uuid_text();
        let session_id = new_uuid_text();
        SessionUser { session_id, csrf_token, user_name }
    }

    /// The line that describes the session.
    pub fn describe(&self) -> (line: String)
        ensures
            line@ == "Session's User Name: "@ + self.user_name@,
    {
        String::from_str("Session's User Name: ").concat(self.user_name.as_str())
    }
}

/// A session as a key-value store outside the process keeps it: the
/// identifier and the caller's data, which is JSON text itself.
#[derive(Debug, Clone, PartialEq, Eq)]
pub struct SessionInfo {
    pub session_id: String,
    pub user_data: String,
}

/// The members of the JSON object that stands for such a session.
pub open spec fn info_members(session_id: Seq<char>, user_data: Seq<char>) -> Map<
    Seq<char>,
    Seq<char>,
> {
    no_members().insert("session_id"@, session_id).insert("user_data"@, user_data)
}

impl SessionInfo {
    /// A new session for `user_data`, under a fresh identifier.
    pub fn create(user_data: String) -> (info: SessionInfo)
        ensures
            info.user_data@ == user_data@,
            is_uuid_v4_text(info.session_id@),
    {
        SessionInfo { session_id: new_uuid_text(), user_data }
    }

    /// The serialized form of the session, from which both members read
    /// back.
    pub fn encode(&self) -> (text: String)
        ensures
            text@ == json_object_text(info_members(self.session_id@, self.user_data@)),
            json_text_member(text@, "session_id"@) == Some(self.session_id@),
            json_text_member(text@, "user_data"@) == Some(self.user_data@),
    {
        let mut object = json_object_new();
        json_object_put(&mut object, "session_id", self.session_id.as_str());
        json_object_put(&mut object, "user_data", self.user_data.as_str());
        proof {
            reveal_strlit("session_id");
            reveal_strlit("user_data");
            assert("session_id"@.len() != "user_data"@.len());
        }
        json_object_write(&object)
    }
}

/// The members of the JSON object that stands for a record.
pub open spec fn record_members(record: SessionRecord) -> Map<Seq<char>, Seq<char>> {
    no_members().insert("session_id"@, record.session_id).insert(
        "csrf_token"@,
        record.csrf_token,
    ).insert("user_name"@, record.user_name)
}

/// The serialized form of a record.
pub open spec fn record_text(record: SessionRecord) -> Seq<char> {
    json_object_text(record_members(record))
}

/// The record made of three members, where all three are there.
pub open spec fn record_of_members(
    session_id: Option<Seq<char>>,
    csrf_token: Option<Seq<char>>,
    user_name: Option<Seq<char>>,
) -> Option<SessionRecord> {
    match (session_id, csrf_token, user_name) {
        (Some(session_id), Some(csrf_token), Some(user_name)) => Some(
            SessionRecord { session_id, csrf_token, user_name },
        ),
        _ => None,
    }
}

/// The record that a serialized form stands for, or `None` where the text is
/// not the serialized form of a record.
pub open spec fn record_of_text(text: Seq<char>) -> Option<SessionRecord> {
    record_of_members(
        json_text_member(text, "session_id"@),
        json_text_member(text, "csrf_token"@),
        json_text_member(text, "user_name"@),
    )
}

/// The view of a record that may be absent.
pub open spec fn user_view(user: Option<SessionUser>) -> Option<SessionRecord> {
    match user {
        Some(u) => Some(u@),
        None => None,
    }
}

/// The serialized form of `user`. Read back, it gives the same record.
pub fn encode_session(user: &SessionUser) -> (text: String)
    ensures
        text@ == record_text(user@),
        record_of_text(text@) == Some(user@),
{
    let mut object = json_object_new();
    json_object_put(&mut object, "session_id", user.session_id.as_str());
    json_object_put(&mut object, "csrf_token", user.csrf_token.as_str());
    json_object_put(&mut object, "user_name", user.user_name.as_str());
    proof {
        reveal_strlit("session_id");
        reveal_strlit("csrf_token");
        reveal_strlit("user_name");
        assert("session_id"@[0] != "csrf_token"@[0]);
        assert("session_id"@.len() != "user_name"@.len());
        assert("csrf_token"@.len() != "user_name"@.len());
    }
    json_object_write(&object)
}

/// The record with the three given members, where none is missing.
pub fn session_from_members(
    session_id: Option<String>,
    csrf_token: Option<String>,
    user_name: Option<String>,
) -> (user: Option<SessionUser>)
    ensures
        user_view(user) == record_of_members(
            text_view(session_id),
            text_view(csrf_token),
            text_view(user_name),
        ),
{
    match (session_id, csrf_token, user_name) {
        (Some(session_id), Some(csrf_token), Some(user_name)) => Some(
            SessionUser { session_id, csrf_token, user_name },
        ),
        _ => None,
    }
}

/// The record that `text` is the serialized form of. A text that is not one
/// gives `None`: a damaged entry never passes for a session.
pub fn decode_session(text: &str) -> (user: Option<SessionUser>)
    ensures
        user_view(user) == record_of_text(text@),
{
    let session_id = read_json_member(text, "session_id");
    let csrf_token = read_json_member(text, "csrf_token");
    let user_name = read_json_member(text, "user_name");
    session_from_members(session_id, csrf_token, user_name)
}

/// The session that a store's entries hold under `session_id`: the record
/// that the entry stands for, or `None` where there is no entry or it stands
/// for none.
pub open spec fn session_at(entries: Map<Seq<char>, Seq<char>>, session_id: Seq<char>) -> Option<
    SessionRecord,
> {
    if entries.contains_key(session_id) {
        record_of_text(entries[session_id])
    } else {
        None
    }
}

/// What `cache_data` and `SessionService::create` leave: the store has gained
/// at most the entry of `user` under `key`, in serialized form, and that form
/// reads back as `user`.
pub open spec fn stored(
    before: Map<Seq<char>, Seq<char>>,
    key: Seq<char>,
    user: SessionRecord,
    after: Map<Seq<char>, Seq<char>>,
) -> bool {
    &&& kept_from(after, before.insert(key, record_text(user)))
    &&& record_of_text(record_text(user)) == Some(user)
}

/// What `SessionService::get` leaves: the store has gained nothing, and
/// `found` is the session that it now holds under `session_id`.
pub open spec fn fetched(
    before: Map<Seq<char>, Seq<char>>,
    session_id: Seq<char>,
    after: Map<Seq<char>, Seq<char>>,
    found: Option<SessionRecord>,
) -> bool {
    &&& kept_from(after, before)
    &&& found == session_at(after, session_id)
}

/// What `SessionService::delete` leaves: the store has gained nothing and
/// holds nothing under `session_id`.
pub open spec fn deleted(
    before: Map<Seq<char>, Seq<char>>,
    session_id: Seq<char>,
    after: Map<Seq<char>, Seq<char>>,
) -> bool {
    &&& kept_from(after, before.remove(session_id))
    &&& !after.contains_key(session_id)
}

/// Serializes `value` and puts it into the store under `key`.
pub fn cache_data(key: &str, value: &SessionUser, store: &mut SessionStore)
    ensures
        stored(old(store).entries(), key@, value@, final(store).entries()),
        final(store).same_limits(old(store)),
{
    let text = encode_session(value);
    store.insert(make_key(key), text);
}

/// The one component that makes and destroys session records; it keeps them
/// in its store, each under its session identifier.
pub struct SessionService {
    pub store: SessionStore,
}

impl SessionService {
    /// The service that keeps its sessions in `store`.
    pub fn new(store: SessionStore) -> (service: SessionService)
        ensures
            service.store == store,
    {
        SessionService { store }
    }

    /// Creates a session for `user_name` and stores it. The record that comes
    /// back carries the two fresh identifiers.
    pub fn create(&mut self, user_name: String) -> (user: SessionUser)
        ensures
            user.user_name@ == user_name@,
            is_uuid_v4_text(user.session_id@),
            is_uuid_v4_text(user.csrf_token@),
            stored(
                old(self).store.entries(),
                user.session_id@,
                user@,
                final(self).store.entries(),
            ),
            final(self).store.same_limits(&old(self).store),
    {
        let user = SessionUser::create(user_name);
        cache_data(user.session_id.as_str(), &user, &mut self.store);
        user
    }

    /// The session under `session_id`, or `None` where the store holds none
    /// or holds an entry that is no record.
    pub fn get(&mut self, session_id: &str) -> (found: Option<SessionUser>)
        ensures
            fetched(
                old(self).store.entries(),
                session_id@,
                final(self).store.entries(),
                user_view(found),
            ),
            final(self).store.same_limits(&old(self).store),
    {
        let key = make_key(session_id);
        match self.store.get(key.as_str()) {
            Some(text) => decode_session(text.as_str()),
            None => None,
        }
    }

    /// Destroys the session under `session_id`. Where there is none, nothing
    /// happens.
    pub fn delete(&mut self, session_id: &str)
        ensures
            deleted(old(self).store.entries(), session_id@, final(self).store.entries()),
            final(self).store.same_limits(&old(self).store),
    {
        let key = make_key(session_id);
        self.store.remove(key.as_str());
    }
}

/// A session that was just created reads back as it was returned: a lookup
/// under its identifier finds either nothing (the store may have dropped the
/// entry) or the very record, and so the very anti-forgery token, that
/// `create` gave to the caller.
pub proof fn law_created_session_reads_back(
    before: Map<Seq<char>, Seq<char>>,
    user: SessionRecord,
    between: Map<Seq<char>, Seq<char>>,
    after: Map<Seq<char>, Seq<char>>,
    found: Option<SessionRecord>,
)
    requires
        stored(before, user.session_id, user, between),
        fetched(between, user.session_id, after, found),
    ensures
        found is None || found == Some(user),
        found matches Some(f) ==> f.csrf_token == user.csrf_token,
        after.contains_key(user.session_id) ==> found == Some(user),
{
}

/// After a session was deleted, a lookup under its identifier finds nothing,
/// and a second deletion leaves that so.
pub proof fn law_deleted_session_is_absent(
    before: Map<Seq<char>, Seq<char>>,
    session_id: Seq<char>,
    between: Map<Seq<char>, Seq<char>>,
    after: Map<Seq<char>, Seq<char>>,
    found: Option<SessionRecord>,
    again: Map<Seq<char>, Seq<char>>,
)
    requires
        deleted(before, session_id, between),
        fetched(between, session_id, after, found),
        deleted(after, session_id, again),
    ensures
        found is None,
        session_at(again, session_id) is None,
{
}

} // verus!
