//! What a handler answers, and what it asks the application to do next.

use vstd::prelude::*;
use crate::auth::{AuthFailure, failure_text};
use crate::models::{Timestamp, User, UserView};

verus! {

pub const OK: u16 = 200;
pub const CREATED: u16 = 201;
pub const BAD_REQUEST: u16 = 400;
pub const UNAUTHORIZED: u16 = 401;
pub const NOT_FOUND: u16 = 404;
pub const FORBIDDEN: u16 = 403;
pub const CONFLICT: u16 = 409;
pub const INTERNAL_SERVER_ERROR: u16 = 500;

/// `{ "id", "email" }` of a user.
pub struct UserSummary {
    pub id: i64,
    pub email: String,
}

/// `{ "id", "email", "created_at" }` of a user.
pub struct UserProfile {
    pub id: i64,
    pub email: String,
    pub created_at: Timestamp,
}

/// The JSON body of a response.
pub enum Body {
    /// `{ "error": .. }`
    Error(String),
    /// `{ "message": .. }`
    Message(String),
    /// `{ "token": .. }`
    Token(String),
    /// `{ "token": .., "user": { "id", "email" } }`
    Session { token: String, user: UserSummary },
    /// `{ "user": { "id", "email", "created_at" } }`
    Profile(UserProfile),
    /// `{ "user": { "id", "email" } }`
    Created(UserSummary),
    /// `{ "data": [ { "id", "email", "created_at" }, .. ] }`
    List(Vec<UserProfile>),
}

pub struct Response {
    pub status: u16,
    pub body: Body,
}

pub enum BodyView {
    Error(Seq<char>),
    Message(Seq<char>),
    Token(Seq<char>),
    Session { token: Seq<char>, user: (i64, Seq<char>) },
    Profile((i64, Seq<char>, Timestamp)),
    Created((i64, Seq<char>)),
    List(Seq<(i64, Seq<char>, Timestamp)>),
}

pub struct ResponseView {
    pub status: u16,
    pub body: BodyView,
}

impl View for UserSummary {
    type V = (i64, Seq<char>);

    open spec fn view(&self) -> (i64, Seq<char>) {
        (self.id, self.email@)
    }
}

impl View for UserProfile {
    type V = (i64, Seq<char>, Timestamp);

    open spec fn view(&self) -> (i64, Seq<char>, Timestamp) {
        (self.id, self.email@, self.created_at)
    }
}

impl View for Body {
    type V = BodyView;

    open spec fn view(&self) -> BodyView {
        match self {
            Body::Error(m) => BodyView::Error(m@),
            Body::Message(m) => BodyView::Message(m@),
            Body::Token(t) => BodyView::Token(t@),
            Body::Session { token, user } => BodyView::Session { token: token@, user: user@ },
            Body::Profile(p) => BodyView::Profile(p@),
            Body::Created(s) => BodyView::Created(s@),
            Body::List(v) => BodyView::List(v@.map_values(|p: UserProfile| p@)),
        }
    }
}

impl View for Response {
    type V = ResponseView;

    open spec fn view(&self) -> ResponseView {
        ResponseView { status: self.status, body: self.body@ }
    }
}

/// The next thing the application does for a request.
#[allow(inconsistent_fields)]
pub enum Action {
    /// Look up the user with this email.
    FindUserByEmail(String),
    /// Look up the user with this id.
    FindUserById(i64),
    /// Read all users.
    ListUsers,
    /// Insert a user.
    CreateUser { email: String, password_hash: String },
    /// Set the email of the user with this id (no column when `None`).
    UpdateUserById { id: i64, email: Option<String> },
    /// Delete the user with this id.
    DeleteUserById(i64),
    /// Issue a password-reset token for this email.
    IssuePasswordReset(String),
    /// Check a password-reset token.
    VerifyResetToken(String),
    /// Store a new password hash for the user with this email.
    SetPasswordByEmail { email: String, password_hash: String },
    /// Check (and use up) a magic-link token.
    VerifyMagicLink(String),
    /// Revoke a bearer token until `expires_at` (Unix seconds).
    RevokeToken { token: String, expires_at: i64 },
    /// Answer the request.
    Respond(Response),
}

#[allow(inconsistent_fields)]
pub enum ActionView {
    FindUserByEmail(Seq<char>),
    FindUserById(i64),
    ListUsers,
    CreateUser { email: Seq<char>, password_hash: Seq<char> },
    UpdateUserById { id: i64, email: Option<Seq<char>> },
    DeleteUserById(i64),
    IssuePasswordReset(Seq<char>),
    VerifyResetToken(Seq<char>),
    SetPasswordByEmail { email: Seq<char>, password_hash: Seq<char> },
    VerifyMagicLink(Seq<char>),
    RevokeToken { token: Seq<char>, expires_at: i64 },
    Respond(ResponseView),
}

impl View for Action {
    type V = ActionView;

    open spec fn view(&self) -> ActionView {
        match self {
            Action::FindUserByEmail(e) => ActionView::FindUserByEmail(e@),
            Action::FindUserById(id) => ActionView::FindUserById(*id),
            Action::ListUsers => ActionView::ListUsers,
            Action::CreateUser { email, password_hash } => ActionView::CreateUser {
                email: email@,
                password_hash: password_hash@,
            },
            Action::UpdateUserById { id, email } => ActionView::UpdateUserById {
                id: *id,
                email: match email {
                    Some(e) => Some(e@),
                    None => None,
                },
            },
            Action::DeleteUserById(id) => ActionView::DeleteUserById(*id),
            Action::IssuePasswordReset(e) => ActionView::IssuePasswordReset(e@),
            Action::VerifyResetToken(t) => ActionView::VerifyResetToken(t@),
            Action::SetPasswordByEmail { email, password_hash } => ActionView::SetPasswordByEmail {
                email: email@,
                password_hash: password_hash@,
            },
            Action::VerifyMagicLink(t) => ActionView::VerifyMagicLink(t@),
            Action::RevokeToken { token, expires_at } => ActionView::RevokeToken {
                token: token@,
                expires_at: *expires_at,
            },
            Action::Respond(r) => ActionView::Respond(r@),
        }
    }
}

// ── what the answers are ─────────────────────────────────────────────────────

pub open spec fn error_view(status: u16, msg: Seq<char>) -> ResponseView {
    ResponseView { status, body: BodyView::Error(msg) }
}

pub open spec fn message_view(status: u16, msg: Seq<char>) -> ResponseView {
    ResponseView { status, body: BodyView::Message(msg) }
}

pub open spec fn summary_of(u: UserView) -> (i64, Seq<char>) {
    (u.id, u.email)
}

pub open spec fn profile_of(u: UserView) -> (i64, Seq<char>, Timestamp) {
    (u.id, u.email, u.created_at)
}

/// The view of an outside result that carries text.
pub open spec fn text_result(r: Result<String, AuthFailure>) -> Result<Seq<char>, AuthFailure> {
    match r {
        Ok(t) => Ok(t@),
        Err(f) => Err(f),
    }
}

/// The answer once a token was (or was not) signed for `user`.
pub open spec fn session_view(status: u16, user: UserView, token: Result<Seq<char>, AuthFailure>) -> ResponseView {
    match token {
        Ok(t) => ResponseView { status, body: BodyView::Session { token: t, user: summary_of(user) } },
        Err(f) => error_view(INTERNAL_SERVER_ERROR, failure_text(f)),
    }
}

/// The next step once a password was (or was not) hashed for a new user.
pub open spec fn store_user_view(email: Seq<char>, hashed: Result<Seq<char>, AuthFailure>) -> ActionView {
    match hashed {
        Ok(h) => ActionView::CreateUser { email, password_hash: h },
        Err(f) => ActionView::Respond(error_view(INTERNAL_SERVER_ERROR, failure_text(f))),
    }
}

pub open spec fn respond(r: ResponseView) -> ActionView {
    ActionView::Respond(r)
}

// ── building the answers ─────────────────────────────────────────────────────

pub fn error_response(status: u16, msg: &str) -> (r: Response)
    ensures
        r@ == error_view(status, msg@),
{
    Response { status, body: Body::Error(String::from_str(msg)) }
}

pub fn error_response_owned(status: u16, msg: String) -> (r: Response)
    ensures
        r@ == error_view(status, msg@),
{
    Response { status, body: Body::Error(msg) }
}

pub fn message_response(status: u16, msg: &str) -> (r: Response)
    ensures
        r@ == message_view(status, msg@),
{
    Response { status, body: Body::Message(String::from_str(msg)) }
}

pub fn summary(u: &User) -> (r: UserSummary)
    ensures
        r@ == summary_of(u@),
{
    UserSummary { id: u.id, email: u.email.clone() }
}

pub fn profile(u: &User) -> (r: UserProfile)
    ensures
        r@ == profile_of(u@),
{
    UserProfile { id: u.id, email: u.email.clone(), created_at: u.created_at }
}

/// The answer for `user` given the outcome of signing their token.
pub fn session_response(status: u16, user: &User, token: Result<String, AuthFailure>) -> (r: Response)
    ensures
        r@ == session_view(status, user@, text_result(token)),
{
    match token {
        Ok(t) => Response { status, body: Body::Session { token: t, user: summary(user) } },
        Err(f) => error_response_owned(INTERNAL_SERVER_ERROR, f.message()),
    }
}

/// The next step for a new user given the outcome of hashing their password.
pub fn store_user(email: &String, hashed: Result<String, AuthFailure>) -> (r: Action)
    ensures
        r@ == store_user_view(email@, text_result(hashed)),
{
    match hashed {
        Ok(h) => Action::CreateUser { email: email.clone(), password_hash: h },
        Err(f) => Action::Respond(error_response_owned(INTERNAL_SERVER_ERROR, f.message())),
    }
}

} // verus!
