//! Credential checks shared by the handlers.

use vstd::prelude::*;
use crate::auth::{
    AuthFailure, AuthHandle, failure_text, password_check, verify_password, sign_user_token,
    sign_refresh, is_user_token, is_refresh_token,
};
use crate::decimal::i64_to_text;
use crate::models::User;

verus! {

/// An access token and the refresh token issued with it.
pub struct TokenPair {
    pub access_token: String,
    pub refresh_token: String,
}

pub struct AuthService;

/// What `attempt` gives for `password` once the email lookup gave `found`.
pub open spec fn attempt_outcome(
    password: Seq<char>,
    found: Result<Option<User>, String>,
    r: Result<TokenPair, AuthFailure>,
) -> bool {
    match found {
        Err(m) => r == Err::<TokenPair, AuthFailure>(AuthFailure::Internal(m)),
        Ok(None) => r == Err::<TokenPair, AuthFailure>(AuthFailure::InvalidCredentials),
        Ok(Some(u)) => match password_check(password, u.password_hash@) {
            None => exists|f: AuthFailure|
                f is HashError && (r matches Err(AuthFailure::HashError(m)) && m@
                    == #[trigger] failure_text(f)),
            Some(false) => r == Err::<TokenPair, AuthFailure>(AuthFailure::InvalidCredentials),
            Some(true) => r matches Ok(p) && is_user_token(p.access_token@, u.id) && is_refresh_token(
                p.refresh_token@,
                u.id,
            ),
        },
    }
}

impl AuthService {
    /// Checks `password` against the user that the email lookup `found`
    /// gave, and issues an access and a refresh token for that user.
    ///
    /// A missing user and a wrong password give the same error.
    pub fn attempt(
        auth: &AuthHandle,
        password: &str,
        found: Result<Option<User>, String>,
    ) -> (r: Result<TokenPair, AuthFailure>)
        ensures
            attempt_outcome(password@, found, r),
    {
        let user = match found {
            Err(m) => return Err(AuthFailure::Internal(m)),
            Ok(None) => return Err(AuthFailure::InvalidCredentials),
            Ok(Some(u)) => u,
        };
        let valid = match verify_password(password, user.password_hash.as_str()) {
            Ok(b) => b,
            Err(f) => return Err(AuthFailure::HashError(f.message())),
        };
        if !valid {
            return Err(AuthFailure::InvalidCredentials);
        }
        let access = sign_user_token(auth, user.id);
        let refresh = sign_refresh(auth, i64_to_text(user.id).as_str());
        match (access, refresh) {
            (Ok(access_token), Ok(refresh_token)) => Ok(TokenPair { access_token, refresh_token }),
            (Err(f), _) => Err(f),
            (_, Err(f)) => Err(f),
        }
    }
}

} // verus!
