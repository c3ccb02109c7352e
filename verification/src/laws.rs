//! Properties that hold across the handlers.

use vstd::prelude::*;
use crate::auth::{
    failure_text, AuthFailure, password_check, is_user_token, jwt_subject_roles, is_argon2id_phc, magic_link_email,
};
use crate::claims::{Claims, roles_contain};
use crate::controllers::auth_controller::{
    ForgotPasswordEvent, hash_outcome, login_answer, me_first_step, forgot_password_step,
    forgot_password_reply, invalid_credentials_reply, set_password_view, logout_first_step,
    MagicLinkCallbackEvent, magic_link_callback_answer, magic_link_reply, token_session,
    magic_link_refusal_view,
};
use crate::requests::{
    RegisterRequest, LoginRequest, ResetPasswordRequest, CreateUserRequest,
};
use crate::validation::is_blank;
use crate::controllers::user_controller::{
    index_first_step, show_first_step, update_first_step, destroy_first_step, unauthorized_reply,
    forbidden_reply, admin_refusal, rows_reply, profiles_of,
};
use crate::policies::is_admin;
use crate::decimal::{spec_i64_text, spec_parse_i64, law_i64_text_round_trip};
use crate::models::{User, UserView};
use crate::response::{ActionView, BodyView, ResponseView, respond, session_view, store_user_view, OK};
use crate::services::{TokenPair, attempt_outcome};

verus! {

/// A password set at registration logs the user in: when `register` stores
/// a user with the hash it got for the password, `login` with the same
/// password against that stored user answers with an access token for them
/// whose token names them: status 200, never "Invalid credentials".
pub proof fn law_registered_password_logs_in(
    password: Seq<char>,
    email: Seq<char>,
    hashed: Result<Seq<char>, AuthFailure>,
    stored: User,
    answer: ActionView,
)
    requires
        hash_outcome(password, hashed),
        store_user_view(email, hashed) == (ActionView::CreateUser {
            email: stored.email@,
            password_hash: stored.password_hash@,
        }),
        login_answer(password, Ok(Some(stored)), answer),
    ensures
        exists|t: Seq<char>|
            #[trigger] is_user_token(t, stored.id) && answer == respond(session_view(OK, stored@, Ok(t))),
        answer != respond(invalid_credentials_reply()),
{
    assert(hashed is Ok);
    assert(password_check(password, stored.password_hash@) == Some(true));
}

/// A password set by a reset logs the user in, as at registration: status
/// 200 with a token that names them.
pub proof fn law_reset_password_logs_in(
    password: Seq<char>,
    email: Seq<char>,
    hashed: Result<Seq<char>, AuthFailure>,
    stored: User,
    answer: ActionView,
)
    requires
        hash_outcome(password, hashed),
        set_password_view(email, hashed) == (ActionView::SetPasswordByEmail {
            email: stored.email@,
            password_hash: stored.password_hash@,
        }),
        login_answer(password, Ok(Some(stored)), answer),
    ensures
        exists|t: Seq<char>|
            #[trigger] is_user_token(t, stored.id) && answer == respond(session_view(OK, stored@, Ok(t))),
{
    assert(hashed is Ok);
    assert(password_check(password, stored.password_hash@) == Some(true));
}

/// What is stored for a password is never the password itself: the hash
/// that registration, user creation or a reset stores is an Argon2id PHC
/// string, so it differs from every password that does not itself begin
/// with `$argon2id$`.
pub proof fn law_stored_hash_is_not_the_password(
    password: Seq<char>,
    email: Seq<char>,
    hashed: Result<Seq<char>, AuthFailure>,
)
    requires
        hash_outcome(password, hashed),
        !is_argon2id_phc(password),
    ensures
        store_user_view(email, hashed) matches ActionView::CreateUser { password_hash, .. }
            ==> password_hash != password,
        set_password_view(email, hashed) matches ActionView::SetPasswordByEmail {
            password_hash,
            ..
        } ==> password_hash != password,
{
}

/// A magic link logs its addressee in: the token that `magic_link` hands
/// out for `email` opens to that email; given to the callback, it is the
/// token the callback asks to verify; once verified to that email, the
/// callback looks that email up, creates the user with it when it is
/// unknown, and answers with an access token that names the user found or
/// created.
pub proof fn law_magic_link_round_trip(
    secret: Seq<char>,
    email: String,
    reply: ResponseView,
    token: Seq<char>,
    begin: ActionView,
    verified: ActionView,
    user: User,
    signed_in: ActionView,
    created: ActionView,
    created_user: User,
    signed_up: ActionView,
)
    requires
        magic_link_reply(secret, email@, reply),
        reply.body == BodyView::Token(token),
        magic_link_callback_answer(Some(token), MagicLinkCallbackEvent::Begin, begin),
        magic_link_callback_answer(
            Some(token),
            MagicLinkCallbackEvent::Verified(Ok(email)),
            verified,
        ),
        magic_link_callback_answer(
            Some(token),
            MagicLinkCallbackEvent::LookedUp { email, found: Ok(Some(user)) },
            signed_in,
        ),
        magic_link_callback_answer(
            Some(token),
            MagicLinkCallbackEvent::LookedUp { email, found: Ok(None) },
            created,
        ),
        magic_link_callback_answer(
            Some(token),
            MagicLinkCallbackEvent::Created(Ok(created_user)),
            signed_up,
        ),
    ensures
        magic_link_email(secret, token) == Some(email@),
        begin == ActionView::VerifyMagicLink(token),
        verified == ActionView::FindUserByEmail(email@),
        signed_in is Respond && token_session(OK, user@, signed_in->Respond_0),
        created matches ActionView::CreateUser { email: e, .. } && e == email@,
        signed_up is Respond && token_session(OK, created_user@, signed_up->Respond_0),
{
}

/// `login` does not tell an unknown email from a wrong password: both get
/// the same answer.
pub proof fn law_login_hides_unknown_email(
    password: Seq<char>,
    user: User,
    unknown: ActionView,
    wrong: ActionView,
)
    requires
        password_check(password, user.password_hash@) == Some(false),
        login_answer(password, Ok(None), unknown),
        login_answer(password, Ok(Some(user)), wrong),
    ensures
        unknown == wrong,
        wrong == respond(invalid_credentials_reply()),
{
}

/// `AuthService::attempt` does not tell an unknown email from a wrong
/// password: both fail with `InvalidCredentials`.
pub proof fn law_attempt_hides_unknown_email(
    password: Seq<char>,
    user: User,
    unknown: Result<TokenPair, AuthFailure>,
    wrong: Result<TokenPair, AuthFailure>,
)
    requires
        password_check(password, user.password_hash@) == Some(false),
        attempt_outcome(password, Ok(None), unknown),
        attempt_outcome(password, Ok(Some(user)), wrong),
    ensures
        unknown == wrong,
        wrong == Err::<TokenPair, AuthFailure>(AuthFailure::InvalidCredentials),
{
}

/// `forgot_password` answers every request alike: whatever the lookup
/// gives, its only answer is the same message, so it does not reveal which
/// emails are registered.
pub proof fn law_forgot_password_answers_alike(email: Seq<char>, event: ForgotPasswordEvent)
    ensures
        forgot_password_step(email, event) matches ActionView::Respond(r) ==> r
            == forgot_password_reply(),
{
}

/// The subject of an access token issued for user `id` leads `me` to look
/// up that same user.
pub proof fn law_token_subject_names_user(token: Seq<char>, claims: Claims, id: i64)
    requires
        is_user_token(token, id),
        jwt_subject_roles(token) matches Some((sub, _)) && sub == claims.sub@,
    ensures
        me_first_step(Some(claims)) == ActionView::FindUserById(id),
{
    law_i64_text_round_trip(id);
}

/// Logging out revokes the caller's own bearer token.  A request with a
/// revoked token carries no claims (the request extractor drops them), and
/// every endpoint that needs a signed-in caller refuses a request without
/// claims with 401.
pub proof fn law_logout_ends_the_session(claims: Claims, token: Seq<char>, id: i64, email: Option<Seq<char>>)
    ensures
        logout_first_step(Some(claims), Some(token)) == (ActionView::RevokeToken {
            token,
            expires_at: claims.exp,
        }),
        me_first_step(None) == respond(unauthorized_reply()),
        logout_first_step(None, Some(token)) == respond(unauthorized_reply()),
        index_first_step(None) == respond(unauthorized_reply()),
        show_first_step(None, id) == respond(unauthorized_reply()),
        update_first_step(None, id, email) == respond(unauthorized_reply()),
        destroy_first_step(None, id) == respond(unauthorized_reply()),
        admin_refusal(None) == Some(unauthorized_reply()),
{
}

/// The user endpoints are for admins alone: a signed-in caller without the
/// `admin` role is refused with 403 by every one of them, whatever the
/// record, their own included, and an admin is let through.
pub proof fn law_user_endpoints_are_for_admins(
    claims: Claims,
    id: i64,
    email: Option<Seq<char>>,
)
    ensures
        !is_admin(claims) ==> {
            &&& admin_refusal(Some(claims)) == Some(forbidden_reply())
            &&& index_first_step(Some(claims)) == respond(forbidden_reply())
            &&& show_first_step(Some(claims), id) == respond(forbidden_reply())
            &&& update_first_step(Some(claims), id, email) == respond(forbidden_reply())
            &&& destroy_first_step(Some(claims), id) == respond(forbidden_reply())
        },
        is_admin(claims) ==> {
            &&& admin_refusal(Some(claims)) is None
            &&& index_first_step(Some(claims)) == ActionView::ListUsers
            &&& show_first_step(Some(claims), id) == ActionView::FindUserById(id)
            &&& update_first_step(Some(claims), id, email) == (ActionView::UpdateUserById {
                id,
                email,
            })
            &&& destroy_first_step(Some(claims), id) == ActionView::DeleteUserById(id)
        },
{
}

/// An update or a delete that changed at least one row answers 200 with
/// its confirmation; 404 "User not found" comes only when no row changed.
pub proof fn law_changed_rows_confirm(count: u64, done: Seq<char>)
    ensures
        count > 0 ==> rows_reply(Ok::<u64, String>(count), done) == (ResponseView {
            status: 200u16,
            body: BodyView::Message(done),
        }),
        count == 0 ==> rows_reply(Ok::<u64, String>(count), done) == (ResponseView {
            status: 404u16,
            body: BodyView::Error("User not found"@),
        }),
        rows_reply(Ok::<u64, String>(count), done).status == 404u16 ==> count == 0,
{
}

/// A role counts wherever it stands among the claims' roles, and only a
/// role that is there counts.
pub proof fn law_role_held_anywhere_counts(roles: Seq<String>, role: Seq<char>, i: int)
    ensures
        0 <= i < roles.len() && roles[i]@ == role ==> roles_contain(roles, role),
        (forall|j: int| 0 <= j < roles.len() ==> roles[j]@ != role) ==> !roles_contain(roles, role),
{
}

/// A caller holding `admin` at any position among their roles is an
/// admin: the user endpoints let them through.
pub proof fn law_admin_role_anywhere_admits(claims: Claims, i: int, id: i64)
    requires
        0 <= i < claims.roles@.len(),
        claims.roles@[i]@ == "admin"@,
    ensures
        is_admin(claims),
        admin_refusal(Some(claims)) is None,
        index_first_step(Some(claims)) == ActionView::ListUsers,
        destroy_first_step(Some(claims), id) == ActionView::DeleteUserById(id),
{
}

/// A session answer carries the token and the signed-in user's own id and
/// email, whatever its status.
pub proof fn law_session_names_the_user(status: u16, u: UserView, token: Seq<char>)
    ensures
        session_view(status, u, Ok(token)) == (ResponseView {
            status,
            body: BodyView::Session { token, user: (u.id, u.email) },
        }),
        token_session(status, u, session_view(status, u, Ok(token))) <== is_user_token(token, u.id),
{
}

/// A session answer from `token_session` names the user it was made for.
pub proof fn law_token_session_names_the_user(status: u16, u: UserView, r: ResponseView)
    requires
        token_session(status, u, r),
    ensures
        r.status == status,
        r.body matches BodyView::Session { token, user } && user == (u.id, u.email) && is_user_token(
            token,
            u.id,
        ),
{
}

/// The user list holds one profile per stored user, in the stored order:
/// each user's id, email and creation time.
pub proof fn law_profiles_list_every_user(users: Seq<User>)
    ensures
        profiles_of(users).len() == users.len(),
        forall|i: int|
            0 <= i < users.len() ==> #[trigger] profiles_of(users)[i] == (
                users[i].id,
                users[i].email@,
                users[i].created_at,
            ),
{
}

/// The refusals: 401 "Unauthorized" for a request without a signed-in
/// caller, 403 "Forbidden" for one whose caller may not, and 401 "Invalid
/// credentials" for a failed login.
pub proof fn law_refusal_answers()
    ensures
        unauthorized_reply() == (ResponseView {
            status: 401u16,
            body: BodyView::Error("Unauthorized"@),
        }),
        forbidden_reply() == (ResponseView { status: 403u16, body: BodyView::Error("Forbidden"@) }),
        invalid_credentials_reply() == (ResponseView {
            status: 401u16,
            body: BodyView::Error("Invalid credentials"@),
        }),
        me_first_step(None) == respond(
            ResponseView { status: 401u16, body: BodyView::Error("Unauthorized"@) },
        ),
{
}

/// What `login` answers for each lookup outcome: the lookup's own error
/// with 500; 401 "Invalid credentials" for an unknown email or a wrong
/// password; 200 with a token naming the user for the right password; and
/// 500 with the checker's text when the stored hash cannot be read.
pub proof fn law_login_answers(password: Seq<char>, m: String, user: User, r: ActionView)
    ensures
        login_answer(password, Err(m), r) ==> r == respond(
            ResponseView { status: 500u16, body: BodyView::Error(m@) },
        ),
        login_answer(password, Ok(None), r) ==> r == respond(
            ResponseView { status: 401u16, body: BodyView::Error("Invalid credentials"@) },
        ),
        login_answer(password, Ok(Some(user)), r) && password_check(password, user.password_hash@)
            == Some(false) ==> r == respond(
            ResponseView { status: 401u16, body: BodyView::Error("Invalid credentials"@) },
        ),
        login_answer(password, Ok(Some(user)), r) && password_check(password, user.password_hash@)
            == Some(true) ==> r is Respond && r->Respond_0.status == 200u16
            && (r->Respond_0.body matches BodyView::Session { token, user: who } && who == (
            user.id,
            user.email@,
        ) && is_user_token(token, user.id)),
        login_answer(password, Ok(Some(user)), r) && password_check(password, user.password_hash@)
            is None ==> r is Respond && r->Respond_0.status == 500u16 && exists|f: AuthFailure|
            f is HashError && r->Respond_0.body == BodyView::Error(#[trigger] failure_text(f)),
{
}

/// What `AuthService::attempt` gives for each lookup outcome: `Internal`
/// with the lookup's error, `InvalidCredentials` for an unknown email or a
/// wrong password, and for the right password an access token (role
/// `user`) and a refresh token, both for the user's id.
pub proof fn law_attempt_outcomes(
    password: Seq<char>,
    m: String,
    user: User,
    r: Result<TokenPair, AuthFailure>,
)
    ensures
        attempt_outcome(password, Err(m), r) ==> r == Err::<TokenPair, AuthFailure>(
            AuthFailure::Internal(m),
        ),
        attempt_outcome(password, Ok(None), r) ==> r == Err::<TokenPair, AuthFailure>(
            AuthFailure::InvalidCredentials,
        ),
        attempt_outcome(password, Ok(Some(user)), r) && password_check(
            password,
            user.password_hash@,
        ) == Some(false) ==> r == Err::<TokenPair, AuthFailure>(AuthFailure::InvalidCredentials),
        attempt_outcome(password, Ok(Some(user)), r) && password_check(
            password,
            user.password_hash@,
        ) == Some(true) ==> (r matches Ok(p) && jwt_subject_roles(p.access_token@) == Some(
            (spec_i64_text(user.id as int), seq!["user"@]),
        ) && jwt_subject_roles(p.refresh_token@) == Some(
            (spec_i64_text(user.id as int), Seq::<Seq<char>>::empty()),
        )),
{
}

/// A new user is stored under the requested email with the hash it got;
/// a reset stores the hash for the email the token named; a failed hash is
/// answered with 500 and its text.
pub proof fn law_hash_is_stored_for_the_email(
    email: Seq<char>,
    hash: Seq<char>,
    f: AuthFailure,
)
    ensures
        store_user_view(email, Ok(hash)) == (ActionView::CreateUser { email, password_hash: hash }),
        set_password_view(email, Ok(hash)) == (ActionView::SetPasswordByEmail {
            email,
            password_hash: hash,
        }),
        store_user_view(email, Err(f)) == respond(
            ResponseView { status: 500u16, body: BodyView::Error(failure_text(f)) },
        ),
        set_password_view(email, Err(f)) == respond(
            ResponseView { status: 500u16, body: BodyView::Error(failure_text(f)) },
        ),
{
}

/// A change that failed answers 500 with the database's error.
pub proof fn law_failed_change_reports_the_error(m: String, done: Seq<char>)
    ensures
        rows_reply(Err(m), done) == (ResponseView { status: 500u16, body: BodyView::Error(m@) }),
{
}

/// `forgot_password` looks the email up, issues a reset only for a known
/// email, and always answers 200 with the same message.
pub proof fn law_forgot_password_steps(email: Seq<char>, user: User, m: String)
    ensures
        forgot_password_step(email, ForgotPasswordEvent::Begin) == ActionView::FindUserByEmail(email),
        forgot_password_step(email, ForgotPasswordEvent::LookedUp(Ok(Some(user))))
            == ActionView::IssuePasswordReset(email),
        forgot_password_reply() == (ResponseView {
            status: 200u16,
            body: BodyView::Message("If the email exists, a reset link has been sent"@),
        }),
        forgot_password_step(email, ForgotPasswordEvent::LookedUp(Ok(None))) == respond(
            forgot_password_reply(),
        ),
        forgot_password_step(email, ForgotPasswordEvent::LookedUp(Err(m))) == respond(
            forgot_password_reply(),
        ),
        forgot_password_step(email, ForgotPasswordEvent::ResetIssued) == respond(
            forgot_password_reply(),
        ),
{
}

/// A refused magic link is answered with 400: "Magic link expired" for an
/// expired one, "Invalid magic link" for a bad one, "Verification failed"
/// otherwise.
pub proof fn law_magic_link_refusals(f: AuthFailure)
    ensures
        magic_link_refusal_view(f).status == 400u16,
        f is TokenExpired ==> magic_link_refusal_view(f).body == BodyView::Error(
            "Magic link expired"@,
        ),
        f is InvalidToken ==> magic_link_refusal_view(f).body == BodyView::Error(
            "Invalid magic link"@,
        ),
        !(f is TokenExpired) && !(f is InvalidToken) ==> magic_link_refusal_view(f).body
            == BodyView::Error("Verification failed"@),
{
}

/// The password rules are the same wherever a password is set (register,
/// reset, user creation): present, 8 to 128 characters, and, where it is
/// asked for, confirmed exactly.  Login asks for at least 8 characters.
pub proof fn law_password_rules(
    email: String,
    password: String,
    confirmation: String,
    token: String,
)
    ensures
        (RegisterRequest { email, password, password_confirmation: confirmation }).is_valid() <==> (
        CreateUserRequest { email, password }).is_valid() && confirmation@ == password@,
        (ResetPasswordRequest { token, password, password_confirmation: confirmation }).is_valid()
            <==> !is_blank(token@) && !is_blank(password@) && 8 <= password@.len() <= 128
            && confirmation@ == password@,
        (CreateUserRequest { email, password }).is_valid() ==> 8 <= password@.len() <= 128,
        (LoginRequest { email, password }).is_valid() ==> 8 <= password@.len(),
        (CreateUserRequest { email, password }).is_valid() ==> (LoginRequest {
            email,
            password,
        }).is_valid(),
        password@.len() < 8 ==> !(LoginRequest { email, password }).is_valid(),
        password@.len() > 128 ==> !(ResetPasswordRequest {
            token,
            password,
            password_confirmation: confirmation,
        }).is_valid(),
{
}

/// `me` looks up the user whose id the token's subject spells in decimal,
/// and answers 400 "Invalid token subject" when the subject is no id.
pub proof fn law_me_reads_the_subject(claims: Claims, id: i64)
    ensures
        claims.sub@ == spec_i64_text(id as int) ==> me_first_step(Some(claims))
            == ActionView::FindUserById(id),
        spec_parse_i64(claims.sub@) is None ==> me_first_step(Some(claims)) == respond(
            ResponseView { status: 400u16, body: BodyView::Error("Invalid token subject"@) },
        ),
{
    law_i64_text_round_trip(id);
}

} // verus!
