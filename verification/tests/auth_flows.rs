use rok_api::auth::{hash_password, new_auth, verify_password, AuthFailure, AuthHandle};
use rok_api::claims::Claims;
use rok_api::controllers::auth_controller::{
    AuthController, ForgotPasswordEvent, LoginEvent, LogoutEvent, MagicLinkCallbackEvent,
    MeEvent, RegisterEvent, ResetPasswordEvent,
};
use rok_api::models::{Timestamp, User};
use rok_api::requests::{
    ForgotPasswordRequest, LoginRequest, MagicLinkRequest, RegisterRequest, ResetPasswordRequest,
};
use rok_api::response::{Action, Body, Response};
use rok_api::services::AuthService;

fn auth() -> AuthHandle {
    new_auth("test-secret-key-1234".to_string()).ok().unwrap()
}

fn respond(a: Action) -> Response {
    match a {
        Action::Respond(r) => r,
        _ => panic!("expected an answer"),
    }
}

fn error_of(r: &Response) -> String {
    match &r.body {
        Body::Error(m) => m.clone(),
        _ => panic!("expected an error body"),
    }
}

fn message_of(r: &Response) -> String {
    match &r.body {
        Body::Message(m) => m.clone(),
        _ => panic!("expected a message body"),
    }
}

fn stored(id: i64, email: &str, hash: String) -> User {
    User {
        id,
        email: email.to_string(),
        password_hash: hash,
        created_at: Timestamp { secs: 1_700_000_000, nanos: 5 },
    }
}

fn register_step(a: &AuthHandle, body: &RegisterRequest, db: &mut Vec<User>) -> Response {
    let mut ev = RegisterEvent::Begin;
    loop {
        match AuthController::register(a, body, ev) {
            Action::FindUserByEmail(e) => {
                let found = db.iter().find(|u| u.email == e).map(|u| stored(u.id, &u.email, u.password_hash.clone()));
                ev = RegisterEvent::LookedUp(Ok(found));
            }
            Action::CreateUser { email, password_hash } => {
                let u = stored(db.len() as i64 + 1, &email, password_hash);
                db.push(stored(u.id, &u.email, u.password_hash.clone()));
                ev = RegisterEvent::Created(Ok(u));
            }
            Action::Respond(r) => return r,
            _ => panic!("unexpected step"),
        }
    }
}

fn login_step(a: &AuthHandle, body: &LoginRequest, db: &Vec<User>) -> Response {
    match AuthController::login(a, body, LoginEvent::Begin) {
        Action::FindUserByEmail(e) => {
            let found = db.iter().find(|u| u.email == e).map(|u| stored(u.id, &u.email, u.password_hash.clone()));
            respond(AuthController::login(a, body, LoginEvent::LookedUp(Ok(found))))
        }
        _ => panic!("login starts with a lookup"),
    }
}

#[test]
fn register_and_login() {
    let a = auth();
    let mut db: Vec<User> = Vec::new();
    let reg = RegisterRequest {
        email: "alice@example.com".to_string(),
        password: "secret123".to_string(),
        password_confirmation: "secret123".to_string(),
    };
    let r = register_step(&a, &reg, &mut db);
    assert_eq!(r.status, 201);
    match &r.body {
        Body::Session { token, user } => {
            assert_eq!(user.id, 1);
            assert_eq!(user.email, "alice@example.com");
            let claims = a.jwt().verify(token).unwrap();
            assert_eq!(claims.sub, "1");
            assert_eq!(claims.roles, vec!["user".to_string()]);
        }
        _ => panic!("expected a session"),
    }
    assert_ne!(db[0].password_hash, "secret123");
    assert!(db[0].password_hash.starts_with("$argon2id$"));

    let again = register_step(&a, &reg, &mut db);
    assert_eq!(again.status, 409);
    assert_eq!(error_of(&again), "Email already registered");

    let ok = login_step(&a, &LoginRequest { email: reg.email.clone(), password: "secret123".to_string() }, &db);
    assert_eq!(ok.status, 200);
    match &ok.body {
        Body::Session { token, user } => {
            assert_eq!(user.id, 1);
            let c = a.jwt().verify(token).unwrap();
            assert_eq!(c.sub, "1");
            let claims = Claims {
                sub: c.sub.clone(),
                roles: c.roles.clone(),
                exp: c.exp,
                iat: c.iat,
                iss: c.iss.clone(),
                email_verified: c.email_verified,
            };
            match AuthController::me(Some(&claims), MeEvent::Begin) {
                Action::FindUserById(id) => assert_eq!(id, 1),
                _ => panic!("the token subject names the user"),
            }
        }
        _ => panic!("expected a session"),
    }

    let wrong = login_step(&a, &LoginRequest { email: reg.email.clone(), password: "secret124".to_string() }, &db);
    let unknown = login_step(&a, &LoginRequest { email: "bob@example.com".to_string(), password: "secret123".to_string() }, &db);
    assert_eq!(wrong.status, 401);
    assert_eq!(unknown.status, 401);
    assert_eq!(error_of(&wrong), "Invalid credentials");
    assert_eq!(error_of(&unknown), error_of(&wrong));
}

#[test]
fn register_reports_lookup_and_insert_failures() {
    let a = auth();
    let body = RegisterRequest {
        email: "a@b.co".to_string(),
        password: "password1".to_string(),
        password_confirmation: "password1".to_string(),
    };
    let r = respond(AuthController::register(&a, &body, RegisterEvent::LookedUp(Err("db down".to_string()))));
    assert_eq!((r.status, error_of(&r)), (500, "db down".to_string()));
    let r = respond(AuthController::register(&a, &body, RegisterEvent::Created(Err("dup key".to_string()))));
    assert_eq!((r.status, error_of(&r)), (500, "dup key".to_string()));
}

#[test]
fn login_with_unreadable_hash_is_an_internal_error() {
    let a = auth();
    let u = stored(3, "c@d.ef", "not-a-phc-string".to_string());
    let body = LoginRequest { email: "c@d.ef".to_string(), password: "whatever1".to_string() };
    let r = respond(AuthController::login(&a, &body, LoginEvent::LookedUp(Ok(Some(u)))));
    assert_eq!(r.status, 500);
    assert!(error_of(&r).starts_with("password hashing failed: "));
    let direct = rok_auth::password::verify("whatever1", "not-a-phc-string").err().unwrap();
    assert_eq!(error_of(&r), direct.to_string());
}

#[test]
fn me_reads_the_token_subject() {
    let mut claims = Claims {
        sub: "42".to_string(),
        roles: vec!["user".to_string()],
        exp: 0,
        iat: 0,
        iss: None,
        email_verified: None,
    };
    match AuthController::me(Some(&claims), MeEvent::Begin) {
        Action::FindUserById(id) => assert_eq!(id, 42),
        _ => panic!("expected a lookup"),
    }
    let r = respond(AuthController::me(None, MeEvent::Begin));
    assert_eq!((r.status, error_of(&r)), (401, "Unauthorized".to_string()));
    claims.sub = "forty-two".to_string();
    let r = respond(AuthController::me(Some(&claims), MeEvent::Begin));
    assert_eq!((r.status, error_of(&r)), (400, "Invalid token subject".to_string()));

    let r = respond(AuthController::me(None, MeEvent::Found(Ok(Some(stored(42, "m@n.op", "h".to_string()))))));
    assert_eq!(r.status, 200);
    match r.body {
        Body::Profile(p) => {
            assert_eq!(p.id, 42);
            assert_eq!(p.email, "m@n.op");
            assert_eq!(p.created_at, Timestamp { secs: 1_700_000_000, nanos: 5 });
        }
        _ => panic!("expected a profile"),
    }
    let r = respond(AuthController::me(None, MeEvent::Found(Ok(None))));
    assert_eq!((r.status, error_of(&r)), (404, "User not found".to_string()));
    let r = respond(AuthController::me(None, MeEvent::Found(Err("boom".to_string()))));
    assert_eq!((r.status, error_of(&r)), (500, "boom".to_string()));
}

fn caller(sub: &str, exp: i64) -> Claims {
    Claims {
        sub: sub.to_string(),
        roles: vec!["user".to_string()],
        exp,
        iat: exp - 3600,
        iss: None,
        email_verified: None,
    }
}

#[test]
fn logout_confirms() {
    let c = caller("4", 1_800_000_000);
    let token = "eyJ.bearer.token".to_string();
    match AuthController::logout(Some(&c), Some(&token), LogoutEvent::Begin) {
        Action::RevokeToken { token: t, expires_at } => {
            assert_eq!(t, "eyJ.bearer.token");
            assert_eq!(expires_at, 1_800_000_000);
        }
        _ => panic!("expected the token to be revoked"),
    }
    let r = respond(AuthController::logout(Some(&c), Some(&token), LogoutEvent::Revoked(Ok(()))));
    assert_eq!((r.status, message_of(&r)), (200, "Logged out".to_string()));
    let r = respond(AuthController::logout(Some(&c), Some(&token), LogoutEvent::Revoked(Err("db".to_string()))));
    assert_eq!((r.status, error_of(&r)), (500, "db".to_string()));
}

#[test]
fn logout_requires_a_signed_in_caller() {
    let token = "eyJ.bearer.token".to_string();
    let r = respond(AuthController::logout(None, Some(&token), LogoutEvent::Begin));
    assert_eq!((r.status, error_of(&r)), (401, "Unauthorized".to_string()));
    let r = respond(AuthController::logout(None, None, LogoutEvent::Begin));
    assert_eq!(r.status, 401);
    let c = caller("4", 1_800_000_000);
    let r = respond(AuthController::logout(Some(&c), None, LogoutEvent::Begin));
    assert_eq!((r.status, message_of(&r)), (200, "Logged out".to_string()));
}

#[test]
fn forgot_password_answers_alike() {
    let body = ForgotPasswordRequest { email: "x@y.zz".to_string() };
    match AuthController::forgot_password(&body, ForgotPasswordEvent::Begin) {
        Action::FindUserByEmail(e) => assert_eq!(e, "x@y.zz"),
        _ => panic!("expected a lookup"),
    }
    match AuthController::forgot_password(&body, ForgotPasswordEvent::LookedUp(Ok(Some(stored(1, "x@y.zz", "h".to_string()))))) {
        Action::IssuePasswordReset(e) => assert_eq!(e, "x@y.zz"),
        _ => panic!("expected a reset"),
    }
    let issued = respond(AuthController::forgot_password(&body, ForgotPasswordEvent::ResetIssued));
    let missing = respond(AuthController::forgot_password(&body, ForgotPasswordEvent::LookedUp(Ok(None))));
    let failed = respond(AuthController::forgot_password(&body, ForgotPasswordEvent::LookedUp(Err("e".to_string()))));
    for r in [&issued, &missing, &failed] {
        assert_eq!(r.status, 200);
        assert_eq!(message_of(r), "If the email exists, a reset link has been sent");
    }
}

#[test]
fn reset_password_stores_a_hash_that_logs_in() {
    let a = auth();
    let body = ResetPasswordRequest {
        token: "reset-token".to_string(),
        password: "brand-new-pw".to_string(),
        password_confirmation: "brand-new-pw".to_string(),
    };
    match AuthController::reset_password(&body, ResetPasswordEvent::Begin) {
        Action::VerifyResetToken(t) => assert_eq!(t, "reset-token"),
        _ => panic!("expected a token check"),
    }
    let r = respond(AuthController::reset_password(&body, ResetPasswordEvent::Verified(Ok(None))));
    assert_eq!((r.status, error_of(&r)), (400, "Invalid or expired reset token".to_string()));
    let hash = match AuthController::reset_password(&body, ResetPasswordEvent::Verified(Ok(Some("r@s.tu".to_string())))) {
        Action::SetPasswordByEmail { email, password_hash } => {
            assert_eq!(email, "r@s.tu");
            password_hash
        }
        _ => panic!("expected a new hash"),
    };
    let user = stored(9, "r@s.tu", hash);
    let ok = respond(AuthController::login(&a, &LoginRequest { email: "r@s.tu".to_string(), password: "brand-new-pw".to_string() }, LoginEvent::LookedUp(Ok(Some(user)))));
    assert_eq!(ok.status, 200);
    let r = respond(AuthController::reset_password(&body, ResetPasswordEvent::Updated(Ok(0))));
    assert_eq!((r.status, message_of(&r)), (200, "Password updated".to_string()));
    let r = respond(AuthController::reset_password(&body, ResetPasswordEvent::Updated(Err("x".to_string()))));
    assert_eq!((r.status, error_of(&r)), (500, "x".to_string()));
}

#[test]
fn magic_link_token_carries_the_email() {
    let a = auth();
    let r = AuthController::magic_link(&a, &MagicLinkRequest { email: "m@l.ink".to_string() });
    assert_eq!(r.status, 200);
    let token = match r.body {
        Body::Token(t) => t,
        _ => panic!("expected a token"),
    };
    let enc = rok_core::crypto::encrypt::Encrypter::from_config(
        rok_core::crypto::encrypt::EncryptConfig::new("test-secret-key-1234"),
    );
    assert_eq!(enc.open_for("magic-link", &token).unwrap(), "m@l.ink");
    assert!(!token.is_empty());
    assert!(token.chars().all(|c| c.is_ascii_alphanumeric() || c == '-' || c == '_'));
    let other = rok_core::crypto::encrypt::Encrypter::from_config(
        rok_core::crypto::encrypt::EncryptConfig::new("another-secret"),
    );
    assert!(other.open_for("magic-link", &token).is_err());
    match AuthController::magic_link_callback(&a, Some(&token), MagicLinkCallbackEvent::Begin) {
        Action::VerifyMagicLink(t) => assert_eq!(t, token),
        _ => panic!("expected the token to be checked"),
    }
    match AuthController::magic_link_callback(&a, Some(&token), MagicLinkCallbackEvent::Verified(Ok("m@l.ink".to_string()))) {
        Action::FindUserByEmail(e) => assert_eq!(e, "m@l.ink"),
        _ => panic!("expected a lookup"),
    }
}

#[test]
fn magic_link_callback_steps() {
    let a = auth();
    let r = respond(AuthController::magic_link_callback(&a, None, MagicLinkCallbackEvent::Begin));
    assert_eq!((r.status, error_of(&r)), (400, "Missing token query param".to_string()));
    let t = "tok".to_string();
    match AuthController::magic_link_callback(&a, Some(&t), MagicLinkCallbackEvent::Begin) {
        Action::VerifyMagicLink(x) => assert_eq!(x, "tok"),
        _ => panic!("expected a token check"),
    }
    let cases = [
        (AuthFailure::TokenExpired, "Magic link expired"),
        (AuthFailure::InvalidToken, "Invalid magic link"),
        (AuthFailure::Internal("db".to_string()), "Verification failed"),
    ];
    for (f, msg) in cases {
        let r = respond(AuthController::magic_link_callback(&a, None, MagicLinkCallbackEvent::Verified(Err(f))));
        assert_eq!((r.status, error_of(&r)), (400, msg.to_string()));
    }
    match AuthController::magic_link_callback(&a, None, MagicLinkCallbackEvent::Verified(Ok("n@e.w".to_string()))) {
        Action::FindUserByEmail(e) => assert_eq!(e, "n@e.w"),
        _ => panic!("expected a lookup"),
    }
    match AuthController::magic_link_callback(&a, None, MagicLinkCallbackEvent::LookedUp { email: "n@e.w".to_string(), found: Ok(None) }) {
        Action::CreateUser { email, password_hash } => {
            assert_eq!(email, "n@e.w");
            assert!(password_hash.starts_with("$argon2id$"));
        }
        _ => panic!("expected a new user"),
    }
    let r = respond(AuthController::magic_link_callback(&a, None, MagicLinkCallbackEvent::Created(Ok(stored(5, "n@e.w", "h".to_string())))));
    assert_eq!(r.status, 200);
    match r.body {
        Body::Session { token, user } => {
            assert_eq!(user.id, 5);
            assert_eq!(a.jwt().verify(&token).unwrap().sub, "5");
        }
        _ => panic!("expected a session"),
    }
}

#[test]
fn attempt_issues_a_token_pair() {
    let a = auth();
    let hash = hash_password("pa55word!").ok().unwrap();
    let u = stored(11, "t@p.qq", hash.clone());
    let pair = AuthService::attempt(&a, "pa55word!", Ok(Some(u))).ok().unwrap();
    let access = a.jwt().verify(&pair.access_token).unwrap();
    assert_eq!(access.sub, "11");
    assert_eq!(access.roles, vec!["user".to_string()]);
    assert!(pair.access_token.starts_with("eyJ0eXAiOiJKV1QiLCJhbGciOiJIUzI1NiJ9."));
    assert!(pair.refresh_token.starts_with("eyJ0eXAiOiJKV1QiLCJhbGciOiJIUzI1NiJ9."));
    assert_eq!(a.jwt().verify_refresh(&pair.refresh_token).unwrap().sub, "11");
    let wrong = AuthService::attempt(&a, "pa55word?", Ok(Some(stored(11, "t@p.qq", hash))));
    assert_eq!(wrong.err(), Some(AuthFailure::InvalidCredentials));
    let unknown = AuthService::attempt(&a, "pa55word!", Ok(None));
    assert_eq!(unknown.err(), Some(AuthFailure::InvalidCredentials));
    let failed = AuthService::attempt(&a, "pa55word!", Err("pool closed".to_string()));
    assert_eq!(failed.err(), Some(AuthFailure::Internal("pool closed".to_string())));
    let bad_hash = AuthService::attempt(&a, "pa55word!", Ok(Some(stored(1, "x@y.zz", "nope".to_string()))));
    match bad_hash.err() {
        Some(AuthFailure::HashError(m)) => {
            let direct = rok_auth::password::verify("pa55word!", "nope").err().unwrap();
            assert_eq!(m, direct.to_string());
            assert!(m.starts_with("password hashing failed: "));
        }
        _ => panic!("expected a hash error"),
    }
}

#[test]
fn hashes_verify_and_differ() {
    let h1 = hash_password("same-password").ok().unwrap();
    let h2 = hash_password("same-password").ok().unwrap();
    assert_ne!(h1, h2);
    assert_eq!(verify_password("same-password", &h1).ok(), Some(true));
    assert_eq!(verify_password("other-password", &h1).ok(), Some(false));
    assert!(verify_password("same-password", "garbage").is_err());
    let long = "é".repeat(5000);
    let h = hash_password(&long).ok().unwrap();
    assert_eq!(verify_password(&long, &h).ok(), Some(true));
    assert!(hash_password("").is_ok());
}

#[test]
fn empty_secret_is_refused() {
    assert!(new_auth(String::new()).is_err());
    let h = new_auth("s".to_string()).ok().unwrap();
    assert_eq!(h.secret_text(), "s");
    assert_eq!((h.token_ttl_secs(), h.refresh_ttl_secs()), (3600, 604800));
    assert!(h.issuer_text().is_none());
    let config = h.jwt().config();
    assert_eq!(config.secret, "s");
    assert_eq!(config.token_ttl, std::time::Duration::from_secs(3600));
    assert_eq!(config.refresh_ttl, std::time::Duration::from_secs(604800));
    assert!(config.issuer.is_none());
}

#[test]
fn failure_text_matches_display() {
    let pairs = vec![
        (AuthFailure::InvalidToken, rok_auth::AuthError::InvalidToken),
        (AuthFailure::TokenExpired, rok_auth::AuthError::TokenExpired),
        (AuthFailure::Forbidden("admin".to_string()), rok_auth::AuthError::Forbidden("admin".to_string())),
        (AuthFailure::InvalidCredentials, rok_auth::AuthError::InvalidCredentials),
        (AuthFailure::HashError("bad".to_string()), rok_auth::AuthError::HashError("bad".to_string())),
        (AuthFailure::Internal("oops".to_string()), rok_auth::AuthError::Internal("oops".to_string())),
        (AuthFailure::SudoRequired, rok_auth::AuthError::SudoRequired),
    ];
    for (f, e) in pairs {
        assert_eq!(f.message(), e.to_string());
    }
    assert_eq!(AuthFailure::TotpRequired("p".to_string()).message(), "TOTP verification required");
}
