//! `/api/v1/users`: listing, reading, creating, updating and deleting users.

use vstd::prelude::*;
use crate::auth::{AuthFailure, hash_password};
use crate::claims::Claims;
use crate::policies::is_admin;
use crate::controllers::auth_controller::hash_outcome;
use crate::models::User;
use crate::requests::{CreateUserRequest, UpdateUserRequest};
use crate::response::{
    Action, ActionView, Body, BodyView, Response, ResponseView, UserProfile, error_view,
    message_view, respond, profile_of, summary_of, text_result, store_user_view, error_response,
    error_response_owned, message_response, profile, summary, store_user, OK, CREATED,
    UNAUTHORIZED, FORBIDDEN, NOT_FOUND, INTERNAL_SERVER_ERROR,
};

verus! {

pub struct UserController;

pub enum IndexEvent {
    Begin,
    Listed(Result<Vec<User>, String>),
}

pub enum ShowEvent {
    Begin,
    Found(Result<Option<User>, String>),
}

pub enum StoreEvent {
    Begin,
    Created(Result<User, String>),
}

pub enum UpdateEvent {
    Begin,
    /// The number of rows changed, or why the update failed.
    Updated(Result<u64, String>),
}

pub enum DestroyEvent {
    Begin,
    /// The number of rows removed, or why the delete failed.
    Deleted(Result<u64, String>),
}

pub open spec fn unauthorized_reply() -> ResponseView {
    error_view(UNAUTHORIZED, "Unauthorized"@)
}

pub open spec fn forbidden_reply() -> ResponseView {
    error_view(FORBIDDEN, "Forbidden"@)
}

/// The one rule for every `/api/v1/users` endpoint: they are admin
/// endpoints.  A request without a signed-in caller is refused with 401,
/// one whose caller lacks the `admin` role with 403; `None` lets it through.
pub open spec fn admin_refusal(user: Option<Claims>) -> Option<ResponseView> {
    match user {
        None => Some(unauthorized_reply()),
        Some(c) => if is_admin(c) {
            None
        } else {
            Some(forbidden_reply())
        },
    }
}

/// The first step for the caller: the refusal, if any, else `next`.
pub open spec fn guarded_step(user: Option<Claims>, next: ActionView) -> ActionView {
    match admin_refusal(user) {
        Some(refusal) => respond(refusal),
        None => next,
    }
}

pub open spec fn claims_of(user: Option<&Claims>) -> Option<Claims> {
    match user {
        Some(c) => Some(*c),
        None => None,
    }
}

pub open spec fn index_first_step(user: Option<Claims>) -> ActionView {
    guarded_step(user, ActionView::ListUsers)
}

pub open spec fn show_first_step(user: Option<Claims>, id: i64) -> ActionView {
    guarded_step(user, ActionView::FindUserById(id))
}

pub open spec fn update_first_step(user: Option<Claims>, id: i64, email: Option<Seq<char>>) -> ActionView {
    guarded_step(user, ActionView::UpdateUserById { id, email })
}

pub open spec fn destroy_first_step(user: Option<Claims>, id: i64) -> ActionView {
    guarded_step(user, ActionView::DeleteUserById(id))
}

/// Checks the caller against `admin_refusal`.
fn refusal(user: Option<&Claims>) -> (r: Option<Action>)
    ensures
        match admin_refusal(claims_of(user)) {
            Some(x) => r matches Some(a) && a@ == respond(x),
            None => r is None,
        },
{
    match user {
        None => Some(unauthorized()),
        Some(c) => if c.has_role("admin") {
            None
        } else {
            Some(forbidden())
        },
    }
}

fn forbidden() -> (r: Action)
    ensures
        r@ == respond(forbidden_reply()),
{
    Action::Respond(error_response(FORBIDDEN, "Forbidden"))
}

fn unauthorized() -> (r: Action)
    ensures
        r@ == respond(unauthorized_reply()),
{
    Action::Respond(error_response(UNAUTHORIZED, "Unauthorized"))
}

pub open spec fn profiles_of(users: Seq<User>) -> Seq<(i64, Seq<char>, crate::models::Timestamp)> {
    users.map_values(|u: User| profile_of(u@))
}

/// The answer to a change of `count` rows.
pub open spec fn rows_reply(count: Result<u64, String>, done: Seq<char>) -> ResponseView {
    match count {
        Ok(n) => if n > 0 {
            message_view(OK, done)
        } else {
            error_view(NOT_FOUND, "User not found"@)
        },
        Err(m) => error_view(INTERNAL_SERVER_ERROR, m@),
    }
}

fn rows_response(count: Result<u64, String>, done: &str) -> (r: Response)
    ensures
        r@ == rows_reply(count, done@),
{
    match count {
        Ok(n) => if n > 0 {
            message_response(OK, done)
        } else {
            error_response(NOT_FOUND, "User not found")
        },
        Err(m) => error_response_owned(INTERNAL_SERVER_ERROR, m),
    }
}

impl UserController {
    /// The public profiles of `users`, in order.
    pub fn profiles(users: &Vec<User>) -> (r: Vec<UserProfile>)
        ensures
            r@.map_values(|p: UserProfile| p@) == profiles_of(users@),
    {
        let mut out: Vec<UserProfile> = Vec::new();
        let mut i: usize = 0;
        while i < users.len()
            invariant
                i <= users.len(),
                out@.len() == i,
                forall|j: int| 0 <= j < i ==> (#[trigger] out@[j])@ == profile_of(users@[j]@),
            decreases users.len() - i,
        {
            out.push(profile(&users[i]));
            i = i + 1;
        }
        assert(out@.map_values(|p: UserProfile| p@) =~= profiles_of(users@));
        out
    }

    /// `GET /api/v1/users`: every user's public profile (admins only).
    pub fn index(user: Option<&Claims>, event: IndexEvent) -> (r: Action)
        ensures
            match event {
                IndexEvent::Begin => r@ == index_first_step(claims_of(user)),
                IndexEvent::Listed(Ok(users)) => r@ == respond(
                    ResponseView { status: OK, body: BodyView::List(profiles_of(users@)) },
                ),
                IndexEvent::Listed(Err(m)) => r@ == respond(error_view(INTERNAL_SERVER_ERROR, m@)),
            },
    {
        match event {
            IndexEvent::Begin => match refusal(user) {
                Some(a) => a,
                None => Action::ListUsers,
            },
            IndexEvent::Listed(Ok(users)) => Action::Respond(
                Response { status: OK, body: Body::List(Self::profiles(&users)) },
            ),
            IndexEvent::Listed(Err(m)) => Action::Respond(
                error_response_owned(INTERNAL_SERVER_ERROR, m),
            ),
        }
    }

    /// `GET /api/v1/users/{id}`: one user's public profile (admins only).
    pub fn show(user: Option<&Claims>, id: i64, event: ShowEvent) -> (r: Action)
        ensures
            match event {
                ShowEvent::Begin => r@ == show_first_step(claims_of(user), id),
                ShowEvent::Found(Ok(Some(u))) => r@ == respond(
                    ResponseView { status: OK, body: BodyView::Profile(profile_of(u@)) },
                ),
                ShowEvent::Found(Ok(None)) => r@ == respond(error_view(NOT_FOUND, "User not found"@)),
                ShowEvent::Found(Err(m)) => r@ == respond(error_view(INTERNAL_SERVER_ERROR, m@)),
            },
    {
        match event {
            ShowEvent::Begin => match refusal(user) {
                Some(a) => a,
                None => Action::FindUserById(id),
            },
            ShowEvent::Found(Ok(Some(u))) => Action::Respond(
                Response { status: OK, body: Body::Profile(profile(&u)) },
            ),
            ShowEvent::Found(Ok(None)) => Action::Respond(error_response(NOT_FOUND, "User not found")),
            ShowEvent::Found(Err(m)) => Action::Respond(
                error_response_owned(INTERNAL_SERVER_ERROR, m),
            ),
        }
    }

    /// `POST /api/v1/users`: stores a user with a hash of the password
    /// (admins only).
    pub fn store(user: Option<&Claims>, body: &CreateUserRequest, event: StoreEvent) -> (r: Action)
        ensures
            match event {
                StoreEvent::Begin => match admin_refusal(claims_of(user)) {
                    Some(x) => r@ == respond(x),
                    None => exists|h: Result<Seq<char>, AuthFailure>|
                        hash_outcome(body.password@, h) && r@ == #[trigger] store_user_view(
                            body.email@,
                            h,
                        ),
                },
                StoreEvent::Created(Ok(u)) => r@ == respond(
                    ResponseView { status: CREATED, body: BodyView::Created(summary_of(u@)) },
                ),
                StoreEvent::Created(Err(m)) => r@ == respond(error_view(INTERNAL_SERVER_ERROR, m@)),
            },
    {
        match event {
            StoreEvent::Begin => {
                if let Some(a) = refusal(user) {
                    return a;
                }
                let hashed = hash_password(body.password.as_str());
                let ghost h = text_result(hashed);
                let a = store_user(&body.email, hashed);
                assert(hash_outcome(body.password@, h));
                a
            },
            StoreEvent::Created(Ok(u)) => Action::Respond(
                Response { status: CREATED, body: Body::Created(summary(&u)) },
            ),
            StoreEvent::Created(Err(m)) => Action::Respond(
                error_response_owned(INTERNAL_SERVER_ERROR, m),
            ),
        }
    }

    /// `PUT /api/v1/users/{id}`: sets the email, when one is given (admins
    /// only).
    pub fn update(user: Option<&Claims>, id: i64, body: &UpdateUserRequest, event: UpdateEvent) -> (r: Action)
        ensures
            match event {
                UpdateEvent::Begin => r@ == update_first_step(
                    claims_of(user),
                    id,
                    match body.email {
                        Some(e) => Some(e@),
                        None => None,
                    },
                ),
                UpdateEvent::Updated(count) => r@ == respond(rows_reply(count, "User updated"@)),
            },
    {
        match event {
            UpdateEvent::Begin => match refusal(user) {
                Some(a) => a,
                None => Action::UpdateUserById { id, email: body.email.clone() },
            },
            UpdateEvent::Updated(count) => Action::Respond(rows_response(count, "User updated")),
        }
    }

    /// `DELETE /api/v1/users/{id}`: removes the user (admins only).
    pub fn destroy(user: Option<&Claims>, id: i64, event: DestroyEvent) -> (r: Action)
        ensures
            match event {
                DestroyEvent::Begin => r@ == destroy_first_step(claims_of(user), id),
                DestroyEvent::Deleted(count) => r@ == respond(rows_reply(count, "User deleted"@)),
            },
    {
        match event {
            DestroyEvent::Begin => match refusal(user) {
                Some(a) => a,
                None => Action::DeleteUserById(id),
            },
            DestroyEvent::Deleted(count) => Action::Respond(rows_response(count, "User deleted")),
        }
    }
}

} // verus!
