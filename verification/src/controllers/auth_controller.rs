//! `/auth/*`: registration, login, the current user, password reset and
//! magic links.
//!
//! Each handler is a step function: the application calls it with
//! `Begin`, performs the action it returns, and calls it again with the
//! outcome, until the action is `Respond`.

use vstd::prelude::*;
use crate::auth::{
    AuthFailure, AuthHandle, failure_text, password_check, hash_password, verify_password,
    sign_user_token, issue_magic_link, random_uuid_text, max_password_bytes, is_user_token,
    is_url_safe_token, magic_link_email, is_argon2id_phc,
};
use crate::claims::Claims;
use crate::decimal::{parse_i64, spec_parse_i64};
use crate::models::{User, UserView};
use crate::requests::{
    RegisterRequest, LoginRequest, ForgotPasswordRequest, ResetPasswordRequest, MagicLinkRequest,
};
use crate::response::{
    Action, ActionView, Body, BodyView, Response, ResponseView, error_view, message_view,
    respond, profile_of, text_result, session_view, store_user_view, error_response,
    error_response_owned, message_response, profile, session_response, store_user, OK, CREATED,
    BAD_REQUEST, UNAUTHORIZED, NOT_FOUND, CONFLICT, INTERNAL_SERVER_ERROR,
};

verus! {

pub struct AuthController;

/// What a hash handed back for `password` is known to satisfy.
pub open spec fn hash_outcome(password: Seq<char>, hashed: Result<Seq<char>, AuthFailure>) -> bool {
    &&& (hashed is Ok <==> vstd::utf8::encode_utf8(password).len() <= max_password_bytes())
    &&& hashed matches Ok(h) ==> password_check(password, h) == Some(true)
    &&& hashed matches Ok(h) ==> is_argon2id_phc(h)
}

/// A session answer for `u` with an access token that names `u`.
pub open spec fn token_session(status: u16, u: UserView, r: ResponseView) -> bool {
    exists|t: Seq<char>| #[trigger] is_user_token(t, u.id) && r == session_view(status, u, Ok(t))
}

/// Signs an access token for `u` and answers with it.
fn signed_session(auth: &AuthHandle, status: u16, u: &User) -> (r: Response)
    ensures
        token_session(status, u@, r@),
{
    let token = sign_user_token(auth, u.id);
    let ghost tv = text_result(token);
    let r = session_response(status, u, token);
    assert(is_user_token(tv->Ok_0, u.id));
    r
}

pub enum RegisterEvent {
    Begin,
    /// The outcome of looking up the email.
    LookedUp(Result<Option<User>, String>),
    /// The outcome of inserting the user.
    Created(Result<User, String>),
}

pub enum LoginEvent {
    Begin,
    LookedUp(Result<Option<User>, String>),
}

pub enum MeEvent {
    Begin,
    Found(Result<Option<User>, String>),
}

pub enum LogoutEvent {
    Begin,
    /// The outcome of revoking the bearer token.
    Revoked(Result<(), String>),
}

pub enum ForgotPasswordEvent {
    Begin,
    LookedUp(Result<Option<User>, String>),
    /// A reset token was issued (whatever its outcome).
    ResetIssued,
}

pub enum ResetPasswordEvent {
    Begin,
    /// The email that the reset token belongs to, if it is valid.
    Verified(Result<Option<String>, String>),
    /// The outcome of storing the new hash.
    Updated(Result<u64, String>),
}

pub enum MagicLinkCallbackEvent {
    Begin,
    /// The email in the magic-link token, or why it was refused.
    Verified(Result<String, AuthFailure>),
    /// The outcome of looking up `email`.
    LookedUp { email: String, found: Result<Option<User>, String> },
    Created(Result<User, String>),
}

pub open spec fn forgot_password_reply() -> ResponseView {
    message_view(OK, "If the email exists, a reset link has been sent"@)
}

/// The next step once a password was (or was not) hashed for a reset.
pub open spec fn set_password_view(email: Seq<char>, hashed: Result<Seq<char>, AuthFailure>) -> ActionView {
    match hashed {
        Ok(h) => ActionView::SetPasswordByEmail { email, password_hash: h },
        Err(f) => respond(error_view(INTERNAL_SERVER_ERROR, failure_text(f))),
    }
}

/// The refusal, if any, once a password was checked against the stored hash.
pub open spec fn credentials_rejection_view(checked: Result<bool, AuthFailure>) -> Option<ResponseView> {
    match checked {
        Ok(true) => None,
        Ok(false) => Some(error_view(UNAUTHORIZED, "Invalid credentials"@)),
        Err(f) => Some(error_view(INTERNAL_SERVER_ERROR, failure_text(f))),
    }
}

pub open spec fn invalid_credentials_reply() -> ResponseView {
    error_view(UNAUTHORIZED, "Invalid credentials"@)
}

/// What `login` answers for `password` once the email lookup gave `found`.
pub open spec fn login_answer(password: Seq<char>, found: Result<Option<User>, String>, r: ActionView) -> bool {
    match found {
        Err(m) => r == respond(error_view(INTERNAL_SERVER_ERROR, m@)),
        Ok(None) => r == respond(invalid_credentials_reply()),
        Ok(Some(u)) => match password_check(password, u.password_hash@) {
            Some(false) => r == respond(invalid_credentials_reply()),
            Some(true) => r is Respond && token_session(OK, u@, r->Respond_0),
            None => exists|f: AuthFailure|
                f is HashError && r == respond(
                    error_view(INTERNAL_SERVER_ERROR, #[trigger] failure_text(f)),
                ),
        },
    }
}

/// What `me` asks for first, given the claims of the request (if any).
pub open spec fn me_first_step(user: Option<Claims>) -> ActionView {
    match user {
        None => respond(error_view(UNAUTHORIZED, "Unauthorized"@)),
        Some(c) => match spec_parse_i64(c.sub@) {
            None => respond(error_view(BAD_REQUEST, "Invalid token subject"@)),
            Some(id) => ActionView::FindUserById(id),
        },
    }
}

/// What `logout` does first, given the caller's claims and bearer token.
pub open spec fn logout_first_step(user: Option<Claims>, token: Option<Seq<char>>) -> ActionView {
    match user {
        None => respond(error_view(UNAUTHORIZED, "Unauthorized"@)),
        Some(c) => match token {
            Some(t) => ActionView::RevokeToken { token: t, expires_at: c.exp },
            None => respond(message_view(OK, "Logged out"@)),
        },
    }
}

/// What `forgot_password` does for `event`.
pub open spec fn forgot_password_step(email: Seq<char>, event: ForgotPasswordEvent) -> ActionView {
    match event {
        ForgotPasswordEvent::Begin => ActionView::FindUserByEmail(email),
        ForgotPasswordEvent::LookedUp(Ok(Some(_))) => ActionView::IssuePasswordReset(email),
        ForgotPasswordEvent::LookedUp(_) => respond(forgot_password_reply()),
        ForgotPasswordEvent::ResetIssued => respond(forgot_password_reply()),
    }
}

/// The answer when a magic-link token is refused.
pub open spec fn magic_link_refusal_view(f: AuthFailure) -> ResponseView {
    match f {
        AuthFailure::TokenExpired => error_view(BAD_REQUEST, "Magic link expired"@),
        AuthFailure::InvalidToken => error_view(BAD_REQUEST, "Invalid magic link"@),
        _ => error_view(BAD_REQUEST, "Verification failed"@),
    }
}

/// What the magic-link callback does for `event`, given the `token` query
/// parameter (if any).
pub open spec fn magic_link_callback_answer(
    token: Option<Seq<char>>,
    event: MagicLinkCallbackEvent,
    r: ActionView,
) -> bool {
    match event {
        MagicLinkCallbackEvent::Begin => match token {
            None => r == respond(error_view(BAD_REQUEST, "Missing token query param"@)),
            Some(t) => r == ActionView::VerifyMagicLink(t),
        },
        MagicLinkCallbackEvent::Verified(Err(f)) => r == respond(magic_link_refusal_view(f)),
        MagicLinkCallbackEvent::Verified(Ok(email)) => r == ActionView::FindUserByEmail(email@),
        MagicLinkCallbackEvent::LookedUp { email, found: Ok(None) } => exists|
            password: Seq<char>,
            h: Seq<char>,
        |
            password.len() == 36 && #[trigger] password_check(password, h) == Some(true)
                && is_argon2id_phc(h) && r == ActionView::CreateUser {
                email: email@,
                password_hash: h,
            },
        MagicLinkCallbackEvent::LookedUp { email: _, found: Ok(Some(u)) } => r is Respond
            && token_session(OK, u@, r->Respond_0),
        MagicLinkCallbackEvent::LookedUp { email: _, found: Err(m) } => r == respond(
            error_view(INTERNAL_SERVER_ERROR, m@),
        ),
        MagicLinkCallbackEvent::Created(Ok(u)) => r is Respond && token_session(
            OK,
            u@,
            r->Respond_0,
        ),
        MagicLinkCallbackEvent::Created(Err(m)) => r == respond(
            error_view(INTERNAL_SERVER_ERROR, m@),
        ),
    }
}

/// The answer to a magic-link request for `email`: a URL-safe token that
/// opens, under `secret`, to that email.
pub open spec fn magic_link_reply(secret: Seq<char>, email: Seq<char>, r: ResponseView) -> bool {
    &&& r.status == OK
    &&& r.body matches BodyView::Token(t) && is_url_safe_token(t) && magic_link_email(secret, t)
        == Some(email)
}

impl AuthController {
    /// The next step for a new user's password reset, given the outcome of
    /// hashing the new password.
    pub fn set_password(email: &String, hashed: Result<String, AuthFailure>) -> (r: Action)
        ensures
            r@ == set_password_view(email@, text_result(hashed)),
    {
        match hashed {
            Ok(h) => Action::SetPasswordByEmail { email: email.clone(), password_hash: h },
            Err(f) => Action::Respond(error_response_owned(INTERNAL_SERVER_ERROR, f.message())),
        }
    }

    /// The refusal, if any, given the outcome of checking a password.
    pub fn credentials_rejection(checked: Result<bool, AuthFailure>) -> (r: Option<Response>)
        ensures
            match r {
                Some(resp) => credentials_rejection_view(checked) == Some(resp@),
                None => credentials_rejection_view(checked) is None,
            },
    {
        match checked {
            Ok(true) => None,
            Ok(false) => Some(error_response(UNAUTHORIZED, "Invalid credentials")),
            Err(f) => Some(error_response_owned(INTERNAL_SERVER_ERROR, f.message())),
        }
    }

    /// The answer when a magic-link token is refused for `f`.
    pub fn magic_link_refusal(f: &AuthFailure) -> (r: Response)
        ensures
            r@ == magic_link_refusal_view(*f),
    {
        match f {
            AuthFailure::TokenExpired => error_response(BAD_REQUEST, "Magic link expired"),
            AuthFailure::InvalidToken => error_response(BAD_REQUEST, "Invalid magic link"),
            _ => error_response(BAD_REQUEST, "Verification failed"),
        }
    }

    /// `POST /auth/register`: refuses a taken email, stores the user with a
    /// hash of the password, and answers with an access token.
    pub fn register(auth: &AuthHandle, body: &RegisterRequest, event: RegisterEvent) -> (r: Action)
        ensures
            match event {
                RegisterEvent::Begin => r@ == ActionView::FindUserByEmail(body.email@),
                RegisterEvent::LookedUp(Ok(Some(_))) => r@ == respond(
                    error_view(CONFLICT, "Email already registered"@),
                ),
                RegisterEvent::LookedUp(Err(m)) => r@ == respond(
                    error_view(INTERNAL_SERVER_ERROR, m@),
                ),
                RegisterEvent::LookedUp(Ok(None)) => exists|h: Result<Seq<char>, AuthFailure>|
                    hash_outcome(body.password@, h) && r@ == #[trigger] store_user_view(
                        body.email@,
                        h,
                    ),
                RegisterEvent::Created(Err(m)) => r@ == respond(
                    error_view(INTERNAL_SERVER_ERROR, m@),
                ),
                RegisterEvent::Created(Ok(u)) => r@ is Respond && token_session(
                    CREATED,
                    u@,
                    r@->Respond_0,
                ),
            },
    {
        match event {
            RegisterEvent::Begin => Action::FindUserByEmail(body.email.clone()),
            RegisterEvent::LookedUp(Ok(Some(_))) => Action::Respond(
                error_response(CONFLICT, "Email already registered"),
            ),
            RegisterEvent::LookedUp(Err(m)) => Action::Respond(
                error_response_owned(INTERNAL_SERVER_ERROR, m),
            ),
            RegisterEvent::LookedUp(Ok(None)) => {
                let hashed = hash_password(body.password.as_str());
                let ghost h = text_result(hashed);
                let a = store_user(&body.email, hashed);
                assert(hash_outcome(body.password@, h));
                a
            },
            RegisterEvent::Created(Err(m)) => Action::Respond(
                error_response_owned(INTERNAL_SERVER_ERROR, m),
            ),
            RegisterEvent::Created(Ok(u)) => Action::Respond(signed_session(auth, CREATED, &u)),
        }
    }

    /// `POST /auth/login`: answers with an access token when the email is
    /// known and the password matches its stored hash.
    pub fn login(auth: &AuthHandle, body: &LoginRequest, event: LoginEvent) -> (r: Action)
        ensures
            match event {
                LoginEvent::Begin => r@ == ActionView::FindUserByEmail(body.email@),
                LoginEvent::LookedUp(found) => login_answer(body.password@, found, r@),
            },
    {
        match event {
            LoginEvent::Begin => Action::FindUserByEmail(body.email.clone()),
            LoginEvent::LookedUp(Err(m)) => Action::Respond(
                error_response_owned(INTERNAL_SERVER_ERROR, m),
            ),
            LoginEvent::LookedUp(Ok(None)) => Action::Respond(
                error_response(UNAUTHORIZED, "Invalid credentials"),
            ),
            LoginEvent::LookedUp(Ok(Some(u))) => {
                let checked = verify_password(body.password.as_str(), u.password_hash.as_str());
                match Self::credentials_rejection(checked) {
                    Some(resp) => Action::Respond(resp),
                    None => Action::Respond(signed_session(auth, OK, &u)),
                }
            },
        }
    }

    /// `GET /auth/me`: the profile of the user that the access token names.
    pub fn me(user: Option<&Claims>, event: MeEvent) -> (r: Action)
        ensures
            match event {
                MeEvent::Begin => r@ == me_first_step(
                    match user {
                        Some(c) => Some(*c),
                        None => None,
                    },
                ),
                MeEvent::Found(Ok(Some(u))) => r@ == respond(
                    ResponseView { status: OK, body: BodyView::Profile(profile_of(u@)) },
                ),
                MeEvent::Found(Ok(None)) => r@ == respond(error_view(NOT_FOUND, "User not found"@)),
                MeEvent::Found(Err(m)) => r@ == respond(error_view(INTERNAL_SERVER_ERROR, m@)),
            },
    {
        match event {
            MeEvent::Begin => match user {
                None => Action::Respond(error_response(UNAUTHORIZED, "Unauthorized")),
                Some(c) => match parse_i64(c.sub.as_str()) {
                    None => Action::Respond(error_response(BAD_REQUEST, "Invalid token subject")),
                    Some(id) => Action::FindUserById(id),
                },
            },
            MeEvent::Found(Ok(Some(u))) => Action::Respond(
                Response { status: OK, body: Body::Profile(profile(&u)) },
            ),
            MeEvent::Found(Ok(None)) => Action::Respond(error_response(NOT_FOUND, "User not found")),
            MeEvent::Found(Err(m)) => Action::Respond(
                error_response_owned(INTERNAL_SERVER_ERROR, m),
            ),
        }
    }

    /// `POST /auth/logout`: for a signed-in caller, revokes the bearer token
    /// that signed them in (until it would have expired anyway), so that
    /// later requests with it are no longer authenticated.
    pub fn logout(user: Option<&Claims>, token: Option<&String>, event: LogoutEvent) -> (r: Action)
        ensures
            match event {
                LogoutEvent::Begin => r@ == logout_first_step(
                    match user {
                        Some(c) => Some(*c),
                        None => None,
                    },
                    match token {
                        Some(t) => Some(t@),
                        None => None,
                    },
                ),
                LogoutEvent::Revoked(Ok(())) => r@ == respond(message_view(OK, "Logged out"@)),
                LogoutEvent::Revoked(Err(m)) => r@ == respond(error_view(INTERNAL_SERVER_ERROR, m@)),
            },
    {
        match event {
            LogoutEvent::Begin => match user {
                None => Action::Respond(error_response(UNAUTHORIZED, "Unauthorized")),
                Some(c) => match token {
                    Some(t) => Action::RevokeToken { token: t.clone(), expires_at: c.exp },
                    None => Action::Respond(message_response(OK, "Logged out")),
                },
            },
            LogoutEvent::Revoked(Ok(())) => Action::Respond(message_response(OK, "Logged out")),
            LogoutEvent::Revoked(Err(m)) => Action::Respond(
                error_response_owned(INTERNAL_SERVER_ERROR, m),
            ),
        }
    }

    /// `POST /auth/forgot-password`: issues a reset token when the email is
    /// known, and gives the same answer whether or not it is.
    pub fn forgot_password(body: &ForgotPasswordRequest, event: ForgotPasswordEvent) -> (r: Action)
        ensures
            r@ == forgot_password_step(body.email@, event),
    {
        match event {
            ForgotPasswordEvent::Begin => Action::FindUserByEmail(body.email.clone()),
            ForgotPasswordEvent::LookedUp(Ok(Some(_))) => Action::IssuePasswordReset(
                body.email.clone(),
            ),
            _ => Action::Respond(
                message_response(OK, "If the email exists, a reset link has been sent"),
            ),
        }
    }

    /// `POST /auth/reset-password`: stores a hash of the new password for
    /// the email that a valid reset token names.
    pub fn reset_password(body: &ResetPasswordRequest, event: ResetPasswordEvent) -> (r: Action)
        ensures
            match event {
                ResetPasswordEvent::Begin => r@ == ActionView::VerifyResetToken(body.token@),
                ResetPasswordEvent::Verified(Ok(None)) => r@ == respond(
                    error_view(BAD_REQUEST, "Invalid or expired reset token"@),
                ),
                ResetPasswordEvent::Verified(Err(m)) => r@ == respond(
                    error_view(INTERNAL_SERVER_ERROR, m@),
                ),
                ResetPasswordEvent::Verified(Ok(Some(email))) => exists|
                    h: Result<Seq<char>, AuthFailure>,
                | hash_outcome(body.password@, h) && r@ == #[trigger] set_password_view(email@, h),
                ResetPasswordEvent::Updated(Ok(_)) => r@ == respond(
                    message_view(OK, "Password updated"@),
                ),
                ResetPasswordEvent::Updated(Err(m)) => r@ == respond(
                    error_view(INTERNAL_SERVER_ERROR, m@),
                ),
            },
    {
        match event {
            ResetPasswordEvent::Begin => Action::VerifyResetToken(body.token.clone()),
            ResetPasswordEvent::Verified(Ok(None)) => Action::Respond(
                error_response(BAD_REQUEST, "Invalid or expired reset token"),
            ),
            ResetPasswordEvent::Verified(Err(m)) => Action::Respond(
                error_response_owned(INTERNAL_SERVER_ERROR, m),
            ),
            ResetPasswordEvent::Verified(Ok(Some(email))) => {
                let hashed = hash_password(body.password.as_str());
                let ghost h = text_result(hashed);
                let a = Self::set_password(&email, hashed);
                assert(hash_outcome(body.password@, h));
                a
            },
            ResetPasswordEvent::Updated(Ok(_)) => Action::Respond(
                message_response(OK, "Password updated"),
            ),
            ResetPasswordEvent::Updated(Err(m)) => Action::Respond(
                error_response_owned(INTERNAL_SERVER_ERROR, m),
            ),
        }
    }

    /// `POST /auth/magic-link`: a sealed, expiring token for the email,
    /// under the handle's secret.
    pub fn magic_link(auth: &AuthHandle, body: &MagicLinkRequest) -> (r: Response)
        ensures
            magic_link_reply(auth.secret(), body.email@, r@),
    {
        let token = issue_magic_link(auth.secret_text().as_str(), body.email.as_str());
        Response { status: OK, body: Body::Token(token) }
    }

    /// `GET /auth/magic-link/callback?token=..`: checks the token, finds or
    /// creates the user with its email, and answers with an access token.
    pub fn magic_link_callback(
        auth: &AuthHandle,
        token: Option<&String>,
        event: MagicLinkCallbackEvent,
    ) -> (r: Action)
        ensures
            magic_link_callback_answer(
                match token {
                    Some(t) => Some(t@),
                    None => None,
                },
                event,
                r@,
            ),
    {
        match event {
            MagicLinkCallbackEvent::Begin => match token {
                None => Action::Respond(error_response(BAD_REQUEST, "Missing token query param")),
                Some(t) => Action::VerifyMagicLink(t.clone()),
            },
            MagicLinkCallbackEvent::Verified(Err(f)) => Action::Respond(Self::magic_link_refusal(&f)),
            MagicLinkCallbackEvent::Verified(Ok(email)) => Action::FindUserByEmail(email),
            MagicLinkCallbackEvent::LookedUp { email, found: Ok(None) } => {
                let password = random_uuid_text();
                proof {
                    vstd::utf8::is_ascii_chars_encode_utf8(password@);
                }
                let hashed = hash_password(password.as_str());
                let ghost h = text_result(hashed);
                let a = store_user(&email, hashed);
                assert(password_check(password@, h->Ok_0) == Some(true));
                assert(is_argon2id_phc(h->Ok_0));
                a
            },
            MagicLinkCallbackEvent::LookedUp { email: _, found: Ok(Some(u)) } => Action::Respond(
                signed_session(auth, OK, &u),
            ),
            MagicLinkCallbackEvent::LookedUp { email: _, found: Err(m) } => Action::Respond(
                error_response_owned(INTERNAL_SERVER_ERROR, m),
            ),
            MagicLinkCallbackEvent::Created(Ok(u)) => Action::Respond(signed_session(auth, OK, &u)),
            MagicLinkCallbackEvent::Created(Err(m)) => Action::Respond(
                error_response_owned(INTERNAL_SERVER_ERROR, m),
            ),
        }
    }
}

} // verus!
