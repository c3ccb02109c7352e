use rok_api::claims::Claims;
use rok_api::config::{AppConfig, AuthConfig, DatabaseConfig};
use rok_api::controllers::user_controller::{
    DestroyEvent, IndexEvent, ShowEvent, StoreEvent, UpdateEvent, UserController,
};
use rok_api::models::{Timestamp, User, UserLoggedIn, UserRegistered};
use rok_api::policies::UserPolicy;
use rok_api::requests::{CreateUserRequest, UpdateUserRequest};
use rok_api::response::{Action, Body, Response};
use rok_api::routes::{api_routes, auth_routes, Endpoint, Method};

fn user(id: i64, email: &str) -> User {
    User {
        id,
        email: email.to_string(),
        password_hash: "$argon2id$secret".to_string(),
        created_at: Timestamp { secs: id * 10, nanos: 0 },
    }
}

fn claims(sub: &str, roles: &[&str]) -> Claims {
    Claims {
        sub: sub.to_string(),
        roles: roles.iter().map(|r| r.to_string()).collect(),
        exp: 0,
        iat: 0,
        iss: None,
        email_verified: None,
    }
}

fn respond(a: Action) -> Response {
    match a {
        Action::Respond(r) => r,
        _ => panic!("expected an answer"),
    }
}

fn error_of(r: &Response) -> String {
    match &r.body {
        Body::Error(m) => m.clone(),
        _ => panic!("expected an error body"),
    }
}

fn message_of(r: &Response) -> String {
    match &r.body {
        Body::Message(m) => m.clone(),
        _ => panic!("expected a message body"),
    }
}

#[test]
fn index_is_for_admins() {
    let r = respond(UserController::index(None, IndexEvent::Begin));
    assert_eq!((r.status, error_of(&r)), (401, "Unauthorized".to_string()));
    let plain = claims("1", &["user"]);
    let r = respond(UserController::index(Some(&plain), IndexEvent::Begin));
    assert_eq!((r.status, error_of(&r)), (403, "Forbidden".to_string()));
    let c = claims("1", &["user", "admin"]);
    assert!(matches!(UserController::index(Some(&c), IndexEvent::Begin), Action::ListUsers));
    let r = respond(UserController::index(Some(&c), IndexEvent::Listed(Ok(vec![user(1, "a@b.cc"), user(2, "d@e.ff")]))));
    assert_eq!(r.status, 200);
    match r.body {
        Body::List(ps) => {
            assert_eq!(ps.len(), 2);
            assert_eq!((ps[0].id, ps[0].email.as_str()), (1, "a@b.cc"));
            assert_eq!((ps[1].id, ps[1].email.as_str(), ps[1].created_at.secs), (2, "d@e.ff", 20));
        }
        _ => panic!("expected a list"),
    }
    let r = respond(UserController::index(Some(&c), IndexEvent::Listed(Err("gone".to_string()))));
    assert_eq!((r.status, error_of(&r)), (500, "gone".to_string()));
}

#[test]
fn show_finds_one_user() {
    let c = claims("3", &[]);
    let r = respond(UserController::show(None, 3, ShowEvent::Begin));
    assert_eq!(r.status, 401);
    let r = respond(UserController::show(Some(&c), 3, ShowEvent::Begin));
    assert_eq!((r.status, error_of(&r)), (403, "Forbidden".to_string()));
    let stranger = claims("1", &["user"]);
    let r = respond(UserController::show(Some(&stranger), 3, ShowEvent::Begin));
    assert_eq!((r.status, error_of(&r)), (403, "Forbidden".to_string()));
    let admin = claims("1", &["admin"]);
    assert!(matches!(UserController::show(Some(&admin), 3, ShowEvent::Begin), Action::FindUserById(3)));
    let r = respond(UserController::show(Some(&c), 3, ShowEvent::Found(Ok(Some(user(3, "x@y.zz"))))));
    match r.body {
        Body::Profile(p) => assert_eq!((p.id, p.email.as_str()), (3, "x@y.zz")),
        _ => panic!("expected a profile"),
    }
    let r = respond(UserController::show(Some(&c), 3, ShowEvent::Found(Ok(None))));
    assert_eq!((r.status, error_of(&r)), (404, "User not found".to_string()));
}

#[test]
fn store_hashes_and_creates() {
    let body = CreateUserRequest { email: "new@user.io".to_string(), password: "longenough".to_string() };
    let r = respond(UserController::store(None, &body, StoreEvent::Begin));
    assert_eq!((r.status, error_of(&r)), (401, "Unauthorized".to_string()));
    let plain = claims("1", &["user"]);
    let r = respond(UserController::store(Some(&plain), &body, StoreEvent::Begin));
    assert_eq!((r.status, error_of(&r)), (403, "Forbidden".to_string()));
    let c = claims("1", &["user", "admin"]);
    match UserController::store(Some(&c), &body, StoreEvent::Begin) {
        Action::CreateUser { email, password_hash } => {
            assert_eq!(email, "new@user.io");
            assert!(rok_auth::password::verify("longenough", &password_hash).unwrap());
            assert_ne!(password_hash, "longenough");
        }
        _ => panic!("expected an insert"),
    }
    let r = respond(UserController::store(Some(&c), &body, StoreEvent::Created(Ok(user(8, "new@user.io")))));
    assert_eq!(r.status, 201);
    match r.body {
        Body::Created(s) => assert_eq!((s.id, s.email.as_str()), (8, "new@user.io")),
        _ => panic!("expected the created user"),
    }
    let r = respond(UserController::store(Some(&c), &body, StoreEvent::Created(Err("unique".to_string()))));
    assert_eq!((r.status, error_of(&r)), (500, "unique".to_string()));
}

#[test]
fn update_and_destroy_count_rows() {
    let admin = claims("1", &["admin"]);
    let body = UpdateUserRequest { email: Some("z@z.zz".to_string()) };
    match UserController::update(Some(&admin), 4, &body, UpdateEvent::Begin) {
        Action::UpdateUserById { id, email } => assert_eq!((id, email), (4, Some("z@z.zz".to_string()))),
        _ => panic!("expected an update"),
    }
    let r = respond(UserController::update(Some(&admin), 4, &body, UpdateEvent::Updated(Ok(1))));
    assert_eq!((r.status, message_of(&r)), (200, "User updated".to_string()));
    let r = respond(UserController::update(Some(&admin), 4, &body, UpdateEvent::Updated(Ok(0))));
    assert_eq!((r.status, error_of(&r)), (404, "User not found".to_string()));
    assert!(matches!(UserController::destroy(Some(&admin), 4, DestroyEvent::Begin), Action::DeleteUserById(4)));
    let r = respond(UserController::destroy(Some(&admin), 4, DestroyEvent::Deleted(Ok(2))));
    assert_eq!((r.status, message_of(&r)), (200, "User deleted".to_string()));
    let r = respond(UserController::destroy(Some(&admin), 4, DestroyEvent::Deleted(Ok(0))));
    assert_eq!(r.status, 404);
    let r = respond(UserController::destroy(Some(&admin), 4, DestroyEvent::Deleted(Err("locked".to_string()))));
    assert_eq!((r.status, error_of(&r)), (500, "locked".to_string()));
}

#[test]
fn writes_need_an_admin() {
    let body = UpdateUserRequest { email: Some("z@z.zz".to_string()) };
    let r = respond(UserController::update(None, 4, &body, UpdateEvent::Begin));
    assert_eq!((r.status, error_of(&r)), (401, "Unauthorized".to_string()));
    let owner = claims("4", &["user"]);
    let r = respond(UserController::update(Some(&owner), 4, &body, UpdateEvent::Begin));
    assert_eq!((r.status, error_of(&r)), (403, "Forbidden".to_string()));
    let other = claims("5", &["user"]);
    let r = respond(UserController::update(Some(&other), 4, &body, UpdateEvent::Begin));
    assert_eq!((r.status, error_of(&r)), (403, "Forbidden".to_string()));
    let r = respond(UserController::destroy(None, 4, DestroyEvent::Begin));
    assert_eq!((r.status, error_of(&r)), (401, "Unauthorized".to_string()));
    let r = respond(UserController::destroy(Some(&owner), 4, DestroyEvent::Begin));
    assert_eq!((r.status, error_of(&r)), (403, "Forbidden".to_string()));
}

#[test]
fn policies() {
    let admin = claims("1", &["user", "admin"]);
    let owner = claims("7", &["user"]);
    let other = claims("8", &["user"]);
    assert!(UserPolicy::can_view_all(&admin));
    assert!(!UserPolicy::can_view_all(&owner));
    assert!(UserPolicy::can_delete(&admin));
    assert!(!UserPolicy::can_delete(&owner));
    assert!(UserPolicy::can_view(&admin, 7));
    assert!(UserPolicy::can_view(&owner, 7));
    assert!(!UserPolicy::can_view(&other, 7));
    assert!(UserPolicy::can_update(&owner, 7));
    assert!(!UserPolicy::can_update(&other, 7));
    let negative = claims("-3", &[]);
    assert!(UserPolicy::can_view(&negative, -3));
    let padded = claims("07", &[]);
    assert!(!UserPolicy::can_view(&padded, 7));
    assert!(!UserPolicy::can_view_all(&claims("1", &["Admin"])));
}

#[test]
fn settings_defaults() {
    let app = AppConfig::from_values("svc".to_string(), None);
    assert_eq!((app.name.as_str(), app.listen_addr.as_str()), ("svc", "0.0.0.0:3000"));
    let app = AppConfig::from_values("svc".to_string(), Some("127.0.0.1:8080".to_string()));
    assert_eq!((app.name.as_str(), app.listen_addr.as_str()), ("svc", "127.0.0.1:8080"));
    let db = DatabaseConfig::from_values("postgres://x".to_string(), None);
    assert_eq!((db.url.as_str(), db.max_connections), ("postgres://x", 10));
    let db = DatabaseConfig::from_values("postgres://x".to_string(), Some("25".to_string()));
    assert_eq!(db.max_connections, 25);
    let db = DatabaseConfig::from_values("postgres://x".to_string(), Some("lots".to_string()));
    assert_eq!(db.max_connections, 10);
    let auth = AuthConfig::from_values("s3cret".to_string());
    assert_eq!(auth.jwt_secret, "s3cret");
}

#[test]
fn route_tables() {
    let a = auth_routes();
    assert_eq!(a.len(), 8);
    assert_eq!((a[0].method, a[0].path.as_str(), a[0].endpoint), (Method::Post, "/auth/register", Endpoint::Register));
    assert_eq!((a[3].method, a[3].path.as_str(), a[3].endpoint), (Method::Get, "/auth/me", Endpoint::Me));
    let b = api_routes();
    assert_eq!(b.len(), 5);
    assert_eq!((b[4].method, b[4].path.as_str(), b[4].endpoint), (Method::Delete, "/api/v1/users/{id}", Endpoint::DestroyUser));
    let mut all: Vec<(Method, String)> = a.iter().chain(b.iter()).map(|r| (r.method, r.path.clone())).collect();
    let n = all.len();
    all.sort_by(|x, y| x.1.cmp(&y.1).then((x.0 as u8).cmp(&(y.0 as u8))));
    all.dedup();
    assert_eq!(all.len(), n);
}

#[test]
fn events_hold_their_fields() {
    let r = UserRegistered { user_id: 1, email: "e@f.gh".to_string(), at: Timestamp { secs: 5, nanos: 6 } };
    let l = UserLoggedIn { user_id: 1, at: r.at };
    assert_eq!((r.user_id, l.user_id, l.at), (1, 1, Timestamp { secs: 5, nanos: 6 }));
}
