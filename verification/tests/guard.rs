use session_auth::guard::{auth_check, authorize, session_check, Credentials};
use session_auth::http::{
    api_health_check, cache_health_check, create_session_handler, delete_session_handler,
    get_session_handler, unauthorized, AppError, Reply, SessionCookie,
};
use session_auth::session::{SessionService, SessionUser};
use session_auth::settings::MokaSettings;
use session_auth::store::SessionStore;
use session_auth::text::constant_shape_eq;

fn new_service() -> SessionService {
    SessionService::new(SessionStore::new(&MokaSettings { cache_size: 100, expiration_time: 60 }))
}

fn credentials(session_id: Option<&str>, csrf_token: Option<&str>) -> Credentials {
    Credentials {
        session_id: session_id.map(|s| s.to_string()),
        csrf_token: csrf_token.map(|s| s.to_string()),
    }
}

fn header<'a>(reply: &'a Reply, name: &str) -> Option<&'a str> {
    reply.headers.iter().find(|(n, _)| n == name).map(|(_, v)| v.as_str())
}

fn expected_unauthorized() -> Reply {
    Reply {
        status: 401,
        headers: vec![("content-type".to_string(), "text/plain; charset=utf-8".to_string())],
        cookie: None,
        body: "Unauthorized: invalid session".to_string(),
    }
}

#[test]
fn constant_shape_eq_is_equality() {
    assert!(constant_shape_eq("", ""));
    assert!(constant_shape_eq("abc", "abc"));
    assert!(constant_shape_eq("zoë ✓", "zoë ✓"));
    assert!(!constant_shape_eq("abc", "abd"));
    assert!(!constant_shape_eq("abc", "xbc"));
    assert!(!constant_shape_eq("abc", "ab"));
    assert!(!constant_shape_eq("", "a"));
    assert!(!constant_shape_eq("é", "e"));
    assert!(!constant_shape_eq("ab", "ba"));
}

#[test]
fn authorize_needs_the_session_and_its_token() {
    let user = SessionUser {
        session_id: "s".to_string(),
        csrf_token: "token".to_string(),
        user_name: "alice".to_string(),
    };
    assert_eq!(authorize("token", Some(user.clone())), Some(user.clone()));
    assert_eq!(authorize("other", Some(user.clone())), None);
    assert_eq!(authorize("", Some(user)), None);
    assert_eq!(authorize("token", None), None);
}

#[test]
fn unauthorized_reply_is_fixed() {
    assert_eq!(unauthorized(), expected_unauthorized());
}

#[test]
fn guard_admits_a_valid_session() {
    let mut service = new_service();
    let user = service.create("alice".to_string());
    let request = credentials(Some(&user.session_id), Some(&user.csrf_token));
    assert_eq!(session_check(&request, &mut service), Some(user.clone()));
    assert_eq!(auth_check(&request, &mut service), Ok(user.clone()));
    assert_eq!(service.get(&user.session_id), Some(user));
}

#[test]
fn guard_rejections_are_all_alike() {
    let mut service = new_service();
    let user = service.create("alice".to_string());
    let other = service.create("bob".to_string());
    let no_cookie = credentials(None, Some(&user.csrf_token));
    let no_header = credentials(Some(&user.session_id), None);
    let neither = credentials(None, None);
    let wrong_token = credentials(Some(&user.session_id), Some("wrong"));
    let others_token = credentials(Some(&user.session_id), Some(&other.csrf_token));
    let unknown = credentials(Some("no-such-session"), Some(&user.csrf_token));
    for request in [no_cookie, no_header, neither, wrong_token, others_token, unknown] {
        assert_eq!(session_check(&request, &mut service), None);
        assert_eq!(auth_check(&request, &mut service), Err(expected_unauthorized()));
    }
    assert_eq!(service.get(&user.session_id), Some(user));
}

#[test]
fn guard_rejects_a_damaged_entry() {
    let mut service = new_service();
    service.store.insert("broken".to_string(), "not json".to_string());
    let request = credentials(Some("broken"), Some("token"));
    assert_eq!(auth_check(&request, &mut service), Err(expected_unauthorized()));
}

#[test]
fn session_lifecycle_end_to_end() {
    let mut service = new_service();

    let created = create_session_handler("alice".to_string(), &mut service);
    assert_eq!(created.status, 200);
    assert_eq!(created.body, "Session created successfully!");
    assert_eq!(header(&created, "Cache-Control"), Some("no-cache"));
    let token = header(&created, "X-CSRF-Token").unwrap().to_string();
    let cookie = created.cookie.clone().unwrap();
    assert_eq!(cookie.name, "Session-ID");
    assert_eq!(cookie.path, "/");
    assert!(cookie.http_only);
    assert!(!cookie.removal);
    assert_eq!(cookie.value.len(), 36);
    assert_eq!(token.len(), 36);
    assert_ne!(cookie.value, token);

    let request = credentials(Some(&cookie.value), Some(&token));
    let user = auth_check(&request, &mut service).unwrap();
    let fetched = get_session_handler(&user);
    assert_eq!(fetched.status, 200);
    assert!(fetched.body.contains("alice"));
    assert_eq!(fetched.body, "Hello, alice");
    assert_eq!(fetched.headers, vec![]);
    assert_eq!(fetched.cookie, None);

    let user = auth_check(&request, &mut service).unwrap();
    let deleted = delete_session_handler(&user, &mut service);
    assert_eq!(
        deleted,
        Reply {
            status: 200,
            headers: vec![],
            cookie: Some(SessionCookie {
                name: "Session-ID".to_string(),
                value: "".to_string(),
                path: "/".to_string(),
                http_only: true,
                removal: true,
            }),
            body: "Session deleted successfully!".to_string(),
        }
    );

    assert_eq!(auth_check(&request, &mut service), Err(expected_unauthorized()));
}

#[test]
fn health_replies() {
    assert_eq!(
        api_health_check(),
        Reply { status: 200, headers: vec![], cookie: None, body: "Server is running!".to_string() }
    );
    let mut store = SessionStore::new(&MokaSettings { cache_size: 10, expiration_time: 60 });
    assert_eq!(
        cache_health_check(&mut store),
        Reply { status: 200, headers: vec![], cookie: None, body: "Cache is running!".to_string() }
    );
    assert_eq!(store.get("health_check"), Some("Cache is running!".to_string()));
}

#[test]
fn cache_health_check_fails_without_room() {
    let mut store = SessionStore::new(&MokaSettings { cache_size: 0, expiration_time: 60 });
    assert_eq!(
        cache_health_check(&mut store),
        Reply {
            status: 412,
            headers: vec![],
            cookie: None,
            body: "Cache health check failed!".to_string(),
        }
    );
}

#[test]
fn app_errors_map_to_status_and_body() {
    let pool = AppError::DbPool("timed out".to_string());
    assert_eq!(pool.status_code(), 424);
    assert_eq!(pool.message(), "DB: timed out");
    let reply = pool.error_response();
    assert_eq!(reply.status, 424);
    assert_eq!(reply.body, "{\"error\":\"DB: timed out\"}");
    assert_eq!(reply.headers, vec![]);
    assert_eq!(reply.cookie, None);

    let pg = AppError::Pg("syntax \"error\"".to_string());
    assert_eq!(pg.status_code(), 417);
    assert_eq!(pg.message(), "PostgreSQL: syntax \"error\"");
    assert_eq!(pg.error_response().body, "{\"error\":\"PostgreSQL: syntax \\\"error\\\"\"}");
}
