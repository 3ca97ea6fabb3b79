use session_auth::session::{
    cache_data, decode_session, encode_session, session_from_members, SessionInfo, SessionService,
    SessionUser,
};
use session_auth::settings::MokaSettings;
use session_auth::store::{make_key, SessionStore, MAX_TIME_TO_LIVE_SECS};
use std::collections::HashSet;
use std::time::{Duration, Instant};

fn service(cache_size: u64, expiration_time: u64) -> SessionService {
    SessionService::new(SessionStore::new(&MokaSettings { cache_size, expiration_time }))
}

fn assert_uuid_v4(text: &str) {
    assert_eq!(text.len(), 36);
    for (i, c) in text.chars().enumerate() {
        if i == 8 || i == 13 || i == 18 || i == 23 {
            assert_eq!(c, '-');
        } else {
            assert!(c.is_ascii_digit() || ('a'..='f').contains(&c));
        }
    }
    let parsed = uuid::Uuid::parse_str(text).unwrap();
    assert_eq!(parsed.get_version_num(), 4);
    assert_eq!(parsed.to_string(), text);
}

#[test]
fn make_key_is_the_text() {
    assert_eq!(make_key("abc"), "abc".to_string());
    assert_eq!(make_key(""), "".to_string());
    assert_eq!(make_key("health_check"), make_key("health_check"));
    assert_ne!(make_key("a"), make_key("b"));
}

#[test]
fn store_insert_get_remove() {
    let mut store = SessionStore::new(&MokaSettings { cache_size: 10, expiration_time: 60 });
    assert_eq!(store.get("k"), None);
    store.insert("k".to_string(), "v1".to_string());
    assert_eq!(store.get("k"), Some("v1".to_string()));
    store.insert("k".to_string(), "v2".to_string());
    assert_eq!(store.get("k"), Some("v2".to_string()));
    assert_eq!(store.get("other"), None);
    store.remove("k");
    assert_eq!(store.get("k"), None);
    store.remove("k");
    store.remove("never");
    assert_eq!(store.get("k"), None);
}

#[test]
fn store_accepts_the_longest_time_to_live() {
    let mut store = SessionStore::new(
        &MokaSettings { cache_size: 10, expiration_time: MAX_TIME_TO_LIVE_SECS },
    );
    store.insert("k".to_string(), "v".to_string());
    assert_eq!(store.get("k"), Some("v".to_string()));
}

#[test]
fn store_without_room_keeps_nothing() {
    let mut store = SessionStore::new(&MokaSettings { cache_size: 0, expiration_time: 60 });
    store.insert("k".to_string(), "v".to_string());
    assert_eq!(store.get("k"), None);
}

#[test]
fn created_user_has_fresh_identifiers() {
    let user = SessionUser::create("alice".to_string());
    assert_eq!(user.user_name, "alice");
    assert_uuid_v4(&user.session_id);
    assert_uuid_v4(&user.csrf_token);
    assert_ne!(user.session_id, user.csrf_token);
    assert_eq!(user.describe(), "Session's User Name: alice");
}

#[test]
fn create_then_get_returns_the_same_token() {
    let mut service = service(100, 60);
    for name in ["alice", "", "bob \"the\" builder\n", "zoë ✓"] {
        let created = service.create(name.to_string());
        let found = service.get(&created.session_id).unwrap();
        assert_eq!(found.csrf_token, created.csrf_token);
        assert_eq!(found, created);
    }
}

#[test]
fn get_of_unknown_session_is_absent() {
    let mut service = service(100, 60);
    service.create("alice".to_string());
    assert_eq!(service.get("no-such-session"), None);
    assert_eq!(service.get(""), None);
}

#[test]
fn delete_then_get_is_absent_and_delete_is_idempotent() {
    let mut service = service(100, 60);
    let alice = service.create("alice".to_string());
    let bob = service.create("bob".to_string());
    service.delete(&alice.session_id);
    assert_eq!(service.get(&alice.session_id), None);
    service.delete(&alice.session_id);
    assert_eq!(service.get(&alice.session_id), None);
    assert_eq!(service.get(&bob.session_id), Some(bob));
    service.delete("never-created");
}

#[test]
fn session_expires_at_once_with_no_time_to_live() {
    let mut service = service(100, 0);
    let created = service.create("alice".to_string());
    assert_eq!(service.get(&created.session_id), None);
}

#[test]
fn session_expires_after_its_time_to_live() {
    let mut service = service(100, 1);
    let created = service.create("alice".to_string());
    assert_eq!(service.get(&created.session_id), Some(created.clone()));
    let start = Instant::now();
    while start.elapsed() < Duration::from_millis(1200) {
        std::hint::spin_loop();
    }
    assert_eq!(service.get(&created.session_id), None);
}

#[test]
fn many_creations_never_collide() {
    let mut service = service(100_000, 60);
    let mut seen: HashSet<String> = HashSet::new();
    for _ in 0..10_000 {
        let user = service.create("alice".to_string());
        assert!(seen.insert(user.session_id));
        assert!(seen.insert(user.csrf_token));
    }
    assert_eq!(seen.len(), 20_000);
}

#[test]
fn encoded_session_is_a_json_object_of_its_members() {
    let user = SessionUser {
        session_id: "id-1".to_string(),
        csrf_token: "token \"quoted\"".to_string(),
        user_name: "alice\n".to_string(),
    };
    let text = encode_session(&user);
    let value: serde_json::Value = serde_json::from_str(&text).unwrap();
    let object = value.as_object().unwrap();
    assert_eq!(object.len(), 3);
    assert_eq!(object["session_id"].as_str(), Some("id-1"));
    assert_eq!(object["csrf_token"].as_str(), Some("token \"quoted\""));
    assert_eq!(object["user_name"].as_str(), Some("alice\n"));
    assert_eq!(decode_session(&text), Some(user));
}

#[test]
fn decode_reads_the_usual_form() {
    let text = "{\"session_id\":\"s\",\"csrf_token\":\"c\",\"user_name\":\"alice\"}";
    let user = decode_session(text).unwrap();
    assert_eq!(user.session_id, "s");
    assert_eq!(user.csrf_token, "c");
    assert_eq!(user.user_name, "alice");
}

#[test]
fn damaged_entries_decode_to_nothing() {
    assert_eq!(decode_session(""), None);
    assert_eq!(decode_session("not json"), None);
    assert_eq!(decode_session("[]"), None);
    assert_eq!(decode_session("\"text\""), None);
    assert_eq!(decode_session("{\"session_id\":\"s\",\"csrf_token\":\"c\"}"), None);
    assert_eq!(
        decode_session("{\"session_id\":\"s\",\"csrf_token\":7,\"user_name\":\"a\"}"),
        None
    );
    assert_eq!(
        decode_session("{\"session_id\":\"s\",\"csrf_token\":\"c\",\"user_name\":\"a\""),
        None
    );
}

#[test]
fn damaged_entry_in_the_store_is_no_session() {
    let mut service = service(100, 60);
    service.store.insert(make_key("broken"), "{{{".to_string());
    assert_eq!(service.get("broken"), None);
}

#[test]
fn session_from_members_needs_all_three() {
    let some = |s: &str| Some(s.to_string());
    assert_eq!(
        session_from_members(some("s"), some("c"), some("u")),
        Some(SessionUser {
            session_id: "s".to_string(),
            csrf_token: "c".to_string(),
            user_name: "u".to_string(),
        })
    );
    assert_eq!(session_from_members(None, some("c"), some("u")), None);
    assert_eq!(session_from_members(some("s"), None, some("u")), None);
    assert_eq!(session_from_members(some("s"), some("c"), None), None);
}

#[test]
fn cache_data_stores_under_the_given_key() {
    let mut store = SessionStore::new(&MokaSettings { cache_size: 10, expiration_time: 60 });
    let user = SessionUser {
        session_id: "s".to_string(),
        csrf_token: "c".to_string(),
        user_name: "u".to_string(),
    };
    cache_data("some-key", &user, &mut store);
    let text = store.get("some-key").unwrap();
    assert_eq!(decode_session(&text), Some(user));
    assert_eq!(store.get("s"), None);
}

#[test]
fn session_info_encodes_both_members() {
    let info = SessionInfo::create("{\"name\":\"alice\"}".to_string());
    assert_uuid_v4(&info.session_id);
    assert_eq!(info.user_data, "{\"name\":\"alice\"}");
    let value: serde_json::Value = serde_json::from_str(&info.encode()).unwrap();
    let object = value.as_object().unwrap();
    assert_eq!(object.len(), 2);
    assert_eq!(object["session_id"].as_str(), Some(info.session_id.as_str()));
    assert_eq!(object["user_data"].as_str(), Some("{\"name\":\"alice\"}"));
}
