//! Request bodies and the rules they are held to.

use vstd::prelude::*;
use crate::validation::{
    validation_messages, is_blank, is_email, rule_required, rule_email, rule_min_len,
    rule_max_len, rule_same, new_errors, errors_empty, check_required, check_email, check_min_len,
    check_max_len, check_same, lemma_add_message_non_empty, Messages, no_messages,
};

verus! {

broadcast use lemma_add_message_non_empty;

/// `Ok` exactly when no rule recorded a message.
fn finish(errors: rok_validate::ValidationErrors) -> (r: Result<(), rok_validate::ValidationErrors>)
    ensures
        r is Ok <==> validation_messages(errors) == no_messages(),
        r matches Err(e) ==> e == errors,
{
    if errors_empty(&errors) {
        Ok(())
    } else {
        Err(errors)
    }
}

/// `POST /auth/register`
pub struct RegisterRequest {
    pub email: String,
    pub password: String,
    pub password_confirmation: String,
}

impl RegisterRequest {
    /// The messages the rules record, field by field in declaration order.
    pub open spec fn rule_messages(&self) -> Messages {
        let m = rule_required(no_messages(), "email"@, self.email@);
        let m = rule_email(m, "email"@, self.email@);
        let m = rule_required(m, "password"@, self.password@);
        let m = rule_min_len(m, "password"@, self.password@, 8);
        let m = rule_max_len(m, "password"@, self.password@, 128);
        let m = rule_required(m, "password_confirmation"@, self.password_confirmation@);
        rule_same(m, "password_confirmation"@, self.password_confirmation@, self.password@)
    }

    pub open spec fn is_valid(&self) -> bool {
        &&& !is_blank(self.email@)
        &&& is_email(self.email@)
        &&& !is_blank(self.password@)
        &&& 8 <= self.password@.len() <= 128
        &&& !is_blank(self.password_confirmation@)
        &&& self.password_confirmation@ == self.password@
    }

    /// `email`: required, an email; `password`: required, 8 to 128
    /// characters; `password_confirmation`: required, the same as `password`.
    pub fn validate(&self) -> (r: Result<(), rok_validate::ValidationErrors>)
        ensures
            r is Ok <==> self.is_valid(),
            r matches Err(e) ==> validation_messages(e) == self.rule_messages(),
    {
        let mut e = new_errors();
        check_required(self.email.as_str(), "email", &mut e);
        check_email(self.email.as_str(), "email", &mut e);
        check_required(self.password.as_str(), "password", &mut e);
        check_min_len(self.password.as_str(), 8, "password", &mut e);
        check_max_len(self.password.as_str(), 128, "password", &mut e);
        check_required(self.password_confirmation.as_str(), "password_confirmation", &mut e);
        check_same(
            self.password_confirmation.as_str(),
            self.password.as_str(),
            "password_confirmation",
            &mut e,
        );
        finish(e)
    }
}

/// `POST /auth/login`
pub struct LoginRequest {
    pub email: String,
    pub password: String,
}

impl LoginRequest {
    pub open spec fn rule_messages(&self) -> Messages {
        let m = rule_required(no_messages(), "email"@, self.email@);
        let m = rule_email(m, "email"@, self.email@);
        let m = rule_required(m, "password"@, self.password@);
        rule_min_len(m, "password"@, self.password@, 8)
    }

    pub open spec fn is_valid(&self) -> bool {
        &&& !is_blank(self.email@)
        &&& is_email(self.email@)
        &&& !is_blank(self.password@)
        &&& 8 <= self.password@.len()
    }

    /// `email`: required, an email; `password`: required, at least 8
    /// characters.
    pub fn validate(&self) -> (r: Result<(), rok_validate::ValidationErrors>)
        ensures
            r is Ok <==> self.is_valid(),
            r matches Err(e) ==> validation_messages(e) == self.rule_messages(),
    {
        let mut e = new_errors();
        check_required(self.email.as_str(), "email", &mut e);
        check_email(self.email.as_str(), "email", &mut e);
        check_required(self.password.as_str(), "password", &mut e);
        check_min_len(self.password.as_str(), 8, "password", &mut e);
        finish(e)
    }
}

/// `POST /auth/forgot-password`
pub struct ForgotPasswordRequest {
    pub email: String,
}

impl ForgotPasswordRequest {
    pub open spec fn rule_messages(&self) -> Messages {
        let m = rule_required(no_messages(), "email"@, self.email@);
        rule_email(m, "email"@, self.email@)
    }

    pub open spec fn is_valid(&self) -> bool {
        !is_blank(self.email@) && is_email(self.email@)
    }

    /// `email`: required, an email.
    pub fn validate(&self) -> (r: Result<(), rok_validate::ValidationErrors>)
        ensures
            r is Ok <==> self.is_valid(),
            r matches Err(e) ==> validation_messages(e) == self.rule_messages(),
    {
        let mut e = new_errors();
        check_required(self.email.as_str(), "email", &mut e);
        check_email(self.email.as_str(), "email", &mut e);
        finish(e)
    }
}

/// `POST /auth/reset-password`
pub struct ResetPasswordRequest {
    pub token: String,
    pub password: String,
    pub password_confirmation: String,
}

impl ResetPasswordRequest {
    pub open spec fn rule_messages(&self) -> Messages {
        let m = rule_required(no_messages(), "token"@, self.token@);
        let m = rule_required(m, "password"@, self.password@);
        let m = rule_min_len(m, "password"@, self.password@, 8);
        let m = rule_max_len(m, "password"@, self.password@, 128);
        let m = rule_required(m, "password_confirmation"@, self.password_confirmation@);
        rule_same(m, "password_confirmation"@, self.password_confirmation@, self.password@)
    }

    pub open spec fn is_valid(&self) -> bool {
        &&& !is_blank(self.token@)
        &&& !is_blank(self.password@)
        &&& 8 <= self.password@.len() <= 128
        &&& !is_blank(self.password_confirmation@)
        &&& self.password_confirmation@ == self.password@
    }

    /// `token`: required; `password`: required, 8 to 128 characters;
    /// `password_confirmation`: required, the same as `password`.
    pub fn validate(&self) -> (r: Result<(), rok_validate::ValidationErrors>)
        ensures
            r is Ok <==> self.is_valid(),
            r matches Err(e) ==> validation_messages(e) == self.rule_messages(),
    {
        let mut e = new_errors();
        check_required(self.token.as_str(), "token", &mut e);
        check_required(self.password.as_str(), "password", &mut e);
        check_min_len(self.password.as_str(), 8, "password", &mut e);
        check_max_len(self.password.as_str(), 128, "password", &mut e);
        check_required(self.password_confirmation.as_str(), "password_confirmation", &mut e);
        check_same(
            self.password_confirmation.as_str(),
            self.password.as_str(),
            "password_confirmation",
            &mut e,
        );
        finish(e)
    }
}

/// `POST /auth/magic-link`
pub struct MagicLinkRequest {
    pub email: String,
}

impl MagicLinkRequest {
    pub open spec fn rule_messages(&self) -> Messages {
        let m = rule_required(no_messages(), "email"@, self.email@);
        rule_email(m, "email"@, self.email@)
    }

    pub open spec fn is_valid(&self) -> bool {
        !is_blank(self.email@) && is_email(self.email@)
    }

    /// `email`: required, an email.
    pub fn validate(&self) -> (r: Result<(), rok_validate::ValidationErrors>)
        ensures
            r is Ok <==> self.is_valid(),
            r matches Err(e) ==> validation_messages(e) == self.rule_messages(),
    {
        let mut e = new_errors();
        check_required(self.email.as_str(), "email", &mut e);
        check_email(self.email.as_str(), "email", &mut e);
        finish(e)
    }
}

/// `POST /api/v1/users`
pub struct CreateUserRequest {
    pub email: String,
    pub password: String,
}

impl CreateUserRequest {
    pub open spec fn rule_messages(&self) -> Messages {
        let m = rule_required(no_messages(), "email"@, self.email@);
        let m = rule_email(m, "email"@, self.email@);
        let m = rule_required(m, "password"@, self.password@);
        let m = rule_min_len(m, "password"@, self.password@, 8);
        rule_max_len(m, "password"@, self.password@, 128)
    }

    pub open spec fn is_valid(&self) -> bool {
        &&& !is_blank(self.email@)
        &&& is_email(self.email@)
        &&& !is_blank(self.password@)
        &&& 8 <= self.password@.len() <= 128
    }

    /// `email`: required, an email; `password`: required, 8 to 128
    /// characters.
    pub fn validate(&self) -> (r: Result<(), rok_validate::ValidationErrors>)
        ensures
            r is Ok <==> self.is_valid(),
            r matches Err(e) ==> validation_messages(e) == self.rule_messages(),
    {
        let mut e = new_errors();
        check_required(self.email.as_str(), "email", &mut e);
        check_email(self.email.as_str(), "email", &mut e);
        check_required(self.password.as_str(), "password", &mut e);
        check_min_len(self.password.as_str(), 8, "password", &mut e);
        check_max_len(self.password.as_str(), 128, "password", &mut e);
        finish(e)
    }
}

/// `PUT /api/v1/users/{id}`
pub struct UpdateUserRequest {
    pub email: Option<String>,
}

impl UpdateUserRequest {
    pub open spec fn rule_messages(&self) -> Messages {
        match self.email {
            Some(v) => rule_email(no_messages(), "email"@, v@),
            None => no_messages(),
        }
    }

    pub open spec fn is_valid(&self) -> bool {
        self.email matches Some(v) ==> is_email(v@)
    }

    /// `email`, when given: an email.
    pub fn validate(&self) -> (r: Result<(), rok_validate::ValidationErrors>)
        ensures
            r is Ok <==> self.is_valid(),
            r matches Err(e) ==> validation_messages(e) == self.rule_messages(),
    {
        let mut e = new_errors();
        if let Some(v) = &self.email {
            check_email(v.as_str(), "email", &mut e);
        }
        finish(e)
    }
}

} // verus!
