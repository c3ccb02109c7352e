//! The authentication primitives of `rok_auth` as the library uses them:
//! password hashing, JWT signing, magic-link tokens, and the errors they
//! report.

use vstd::prelude::*;
use crate::claims::Claims;
use crate::decimal::{i64_to_text, spec_i64_text};

verus! {

#[verifier::external_type_specification]
#[verifier::external_body]
pub struct ExAuth(rok_auth::Auth);

#[verifier::external_type_specification]
#[verifier::external_body]
pub struct ExAuthError(rok_auth::AuthError);

/// The failures that authentication reports, held as plain values.
#[derive(Debug, PartialEq, Eq)]
pub enum AuthFailure {
    InvalidToken,
    TokenExpired,
    Forbidden(String),
    InvalidCredentials,
    HashError(String),
    Internal(String),
    /// A TOTP code is needed; carries the pending token to present with it.
    TotpRequired(String),
    SudoRequired,
    /// A failure kind that this library does not know of, with its text.
    Unrecognized(String),
}

/// The text that `Display` writes for each failure.
pub open spec fn failure_text(f: AuthFailure) -> Seq<char> {
    match f {
        AuthFailure::InvalidToken => "invalid or expired token"@,
        AuthFailure::TokenExpired => "token has expired"@,
        AuthFailure::Forbidden(role) => "insufficient permissions: required role `"@ + role@ + "`"@,
        AuthFailure::InvalidCredentials => "invalid credentials"@,
        AuthFailure::HashError(m) => "password hashing failed: "@ + m@,
        AuthFailure::Internal(m) => "internal auth error: "@ + m@,
        AuthFailure::TotpRequired(_) => "TOTP verification required"@,
        AuthFailure::SudoRequired => "sudo confirmation required for this operation"@,
        AuthFailure::Unrecognized(m) => m@,
    }
}

fn prefixed(prefix: &str, rest: &String) -> (r: String)
    ensures
        r@ == prefix@ + rest@,
{
    let mut r = String::new();
    r.append(prefix);
    r.append(rest.as_str());
    r
}

fn concat(prefix: &str, middle: &String, suffix: &str) -> (r: String)
    ensures
        r@ == prefix@ + middle@ + suffix@,
{
    let mut r = String::new();
    r.append(prefix);
    r.append(middle.as_str());
    r.append(suffix);
    r
}

impl AuthFailure {
    /// The failure as text (`e.to_string()` of the error it stands for).
    pub fn message(&self) -> (r: String)
        ensures
            r@ == failure_text(*self),
    {
        let r = match self {
            AuthFailure::InvalidToken => String::from_str("invalid or expired token"),
            AuthFailure::TokenExpired => String::from_str("token has expired"),
            AuthFailure::Forbidden(role) => concat(
                "insufficient permissions: required role `",
                role,
                "`",
            ),
            AuthFailure::InvalidCredentials => String::from_str("invalid credentials"),
            AuthFailure::HashError(m) => prefixed("password hashing failed: ", m),
            AuthFailure::Internal(m) => prefixed("internal auth error: ", m),
            AuthFailure::TotpRequired(_) => String::from_str("TOTP verification required"),
            AuthFailure::SudoRequired => String::from_str(
                "sudo confirmation required for this operation",
            ),
            AuthFailure::Unrecognized(m) => m.clone(),
        };
        r
    }
}

/// Tells apart the variants of `rok_auth::AuthError`, keeping the text they
/// carry.  Nothing is stated of the result: the error is opaque here.
#[verifier::external_body]
fn classify(e: rok_auth::AuthError) -> AuthFailure {
    match e {
        rok_auth::AuthError::InvalidToken => AuthFailure::InvalidToken,
        rok_auth::AuthError::TokenExpired => AuthFailure::TokenExpired,
        rok_auth::AuthError::Forbidden(r) => AuthFailure::Forbidden(r),
        rok_auth::AuthError::InvalidCredentials => AuthFailure::InvalidCredentials,
        rok_auth::AuthError::HashError(m) => AuthFailure::HashError(m),
        rok_auth::AuthError::Internal(m) => AuthFailure::Internal(m),
        rok_auth::AuthError::TotpRequired(c) => AuthFailure::TotpRequired(c.pending_token),
        rok_auth::AuthError::SudoRequired => AuthFailure::SudoRequired,
        other => AuthFailure::Unrecognized(other.to_string()),
    }
}

/// Whether `password` matches the PHC-encoded `hash`: `Some(b)` when the
/// hash parses, `None` when `rok_auth::password::verify` rejects it.
pub uninterp spec fn password_check(password: Seq<char>, hash: Seq<char>) -> Option<bool>;

/// The longest password, in UTF-8 bytes, that Argon2 accepts (`MAX_PWD_LEN`).
pub open spec fn max_password_bytes() -> int {
    0xFFFF_FFFF
}

/// The start of every PHC string for an Argon2id hash.
pub open spec fn argon2id_prefix() -> Seq<char> {
    "$argon2id$"@
}

/// Text that begins as a PHC-encoded Argon2id hash does.
pub open spec fn is_argon2id_phc(t: Seq<char>) -> bool {
    t.len() >= argon2id_prefix().len() && t.subrange(0, argon2id_prefix().len() as int)
        == argon2id_prefix()
}

/// `rok_auth::password::hash`: Argon2id with default parameters and a fresh
/// 16-byte salt.  The only error Argon2's hasher returns for these settings
/// is `PwdTooLong`, for a password of more than `MAX_PWD_LEN` bytes, so the
/// call succeeds on every other password.  A hash that it returns is the
/// PHC string of an Argon2id hash (it starts with `$argon2id$`) and verifies
/// against the same password; the rest of it depends on the salt and is
/// left free.
#[verifier::external_body]
fn hash_raw(password: &str) -> (r: Result<String, rok_auth::AuthError>)
    ensures
        r is Ok <==> vstd::utf8::encode_utf8(password@).len() <= max_password_bytes(),
        r matches Ok(h) ==> password_check(password@, h@) == Some(true),
        r matches Ok(h) ==> is_argon2id_phc(h@),
{
    rok_auth::password::hash(password)
}

/// `rok_auth::password::verify`: a function of the password and the stored
/// hash alone.
#[verifier::external_body]
fn verify_raw(password: &str, hash: &str) -> (r: Result<bool, rok_auth::AuthError>)
    ensures
        r is Ok <==> password_check(password@, hash@) is Some,
        r matches Ok(b) ==> password_check(password@, hash@) == Some(b),
{
    rok_auth::password::verify(password, hash)
}

/// Hashes `password` for storage: succeeds on every password of at most
/// `max_password_bytes()` UTF-8 bytes, with an Argon2id PHC string that
/// verifies it.
pub fn hash_password(password: &str) -> (r: Result<String, AuthFailure>)
    ensures
        r is Ok <==> vstd::utf8::encode_utf8(password@).len() <= max_password_bytes(),
        r matches Ok(h) ==> password_check(password@, h@) == Some(true),
        r matches Ok(h) ==> is_argon2id_phc(h@),
{
    match hash_raw(password) {
        Ok(h) => Ok(h),
        Err(e) => Err(classify(e)),
    }
}

/// The text that a failure to check a password carries: that of a
/// `HashError` as it is, that of any other failure as it displays.
pub open spec fn hash_error_text(f: AuthFailure) -> Seq<char> {
    match f {
        AuthFailure::HashError(m) => m@,
        _ => failure_text(f),
    }
}

/// The failure as a `HashError`, the kind every failure to check a
/// password has.
fn as_hash_error(f: AuthFailure) -> (r: AuthFailure)
    ensures
        r matches AuthFailure::HashError(m) && m@ == hash_error_text(f),
{
    match f {
        AuthFailure::HashError(m) => AuthFailure::HashError(m),
        other => AuthFailure::HashError(other.message()),
    }
}

/// Checks `password` against a stored hash.  A hash that does not parse is
/// reported as a `HashError` (`rok_auth::password::verify` reports every
/// failure so).
pub fn verify_password(password: &str, hash: &str) -> (r: Result<bool, AuthFailure>)
    ensures
        r is Ok <==> password_check(password@, hash@) is Some,
        r matches Ok(b) ==> password_check(password@, hash@) == Some(b),
        r matches Err(f) ==> f is HashError,
{
    match verify_raw(password, hash) {
        Ok(b) => Ok(b),
        Err(e) => Err(as_hash_error(classify(e))),
    }
}

/// How long an access token is valid, in seconds: one hour.
pub const DEFAULT_TOKEN_TTL_SECS: u64 = 3600;

/// How long a refresh token is valid, in seconds: seven days.
pub const DEFAULT_REFRESH_TTL_SECS: u64 = 604800;

/// `rok_auth::Auth::new` on a configuration with the given secret, token
/// lifetimes (in seconds) and issuer, and the other settings at their
/// defaults.  It refuses an empty secret and accepts any other.
#[verifier::external_body]
fn new_auth_raw(
    secret: String,
    token_ttl_secs: u64,
    refresh_ttl_secs: u64,
    issuer: Option<String>,
) -> (r: Result<rok_auth::Auth, rok_auth::AuthError>)
    ensures
        r is Err <==> secret@.len() == 0,
{
    rok_auth::Auth::new(rok_auth::AuthConfig {
        secret,
        token_ttl: std::time::Duration::from_secs(token_ttl_secs),
        refresh_ttl: std::time::Duration::from_secs(refresh_ttl_secs),
        issuer,
        ..Default::default()
    })
}

/// A signing handle together with the settings it was built with.  Only
/// `new_auth` makes one, so the two always belong together.
pub struct AuthHandle {
    auth: rok_auth::Auth,
    secret: String,
    token_ttl_secs: u64,
    refresh_ttl_secs: u64,
    issuer: Option<String>,
}

impl AuthHandle {
    /// The secret that the handle signs and seals with.
    pub closed spec fn secret(&self) -> Seq<char> {
        self.secret@
    }

    /// How long its access tokens are valid, in seconds.
    pub closed spec fn token_ttl(&self) -> u64 {
        self.token_ttl_secs
    }

    /// How long its refresh tokens are valid, in seconds.
    pub closed spec fn refresh_ttl(&self) -> u64 {
        self.refresh_ttl_secs
    }

    /// The issuer (`iss`) it writes into tokens, if any.
    pub closed spec fn issuer(&self) -> Option<Seq<char>> {
        match self.issuer {
            Some(i) => Some(i@),
            None => None,
        }
    }

    /// The `rok_auth` handle itself.
    pub fn jwt(&self) -> &rok_auth::Auth {
        &self.auth
    }

    /// The secret, as text.
    pub fn secret_text(&self) -> (r: &String)
        ensures
            r@ == self.secret(),
    {
        &self.secret
    }

    /// The access-token lifetime, in seconds.
    pub fn token_ttl_secs(&self) -> (r: u64)
        ensures
            r == self.token_ttl(),
    {
        self.token_ttl_secs
    }

    /// The refresh-token lifetime, in seconds.
    pub fn refresh_ttl_secs(&self) -> (r: u64)
        ensures
            r == self.refresh_ttl(),
    {
        self.refresh_ttl_secs
    }

    /// The issuer, as text, if any.
    pub fn issuer_text(&self) -> (r: Option<&String>)
        ensures
            match r {
                Some(i) => self.issuer() == Some(i@),
                None => self.issuer() is None,
            },
    {
        match &self.issuer {
            Some(i) => Some(i),
            None => None,
        }
    }
}

/// The signing handle for `jwt_secret`, with the default settings: access
/// tokens valid for an hour, refresh tokens for seven days, no issuer.
/// Refused when the secret is empty.
pub fn new_auth(jwt_secret: String) -> (r: Result<AuthHandle, AuthFailure>)
    ensures
        r is Err <==> jwt_secret@.len() == 0,
        r matches Ok(h) ==> h.secret() == jwt_secret@,
        r matches Ok(h) ==> h.token_ttl() == DEFAULT_TOKEN_TTL_SECS,
        r matches Ok(h) ==> h.refresh_ttl() == DEFAULT_REFRESH_TTL_SECS,
        r matches Ok(h) ==> h.issuer() is None,
{
    let secret = jwt_secret.clone();
    match new_auth_raw(jwt_secret, DEFAULT_TOKEN_TTL_SECS, DEFAULT_REFRESH_TTL_SECS, None) {
        Ok(a) => Ok(
            AuthHandle {
                auth: a,
                secret,
                token_ttl_secs: DEFAULT_TOKEN_TTL_SECS,
                refresh_ttl_secs: DEFAULT_REFRESH_TTL_SECS,
                issuer: None,
            },
        ),
        Err(e) => Err(classify(e)),
    }
}

/// `rok_auth::Claims::new`: claims for `subject` with `roles`, issued now
/// and expiring one hour later.  The clock reading is left free.
#[verifier::external_body]
pub(crate) fn claims_now(subject: String, roles: Vec<String>) -> (r: Claims)
    ensures
        r.sub@ == subject@,
        r.roles@ == roles@,
        r.iss is None,
        r.email_verified is None,
        r.exp == r.iat + 3600,
{
    let c = rok_auth::Claims::new(subject, roles);
    Claims {
        sub: c.sub,
        roles: c.roles,
        exp: c.exp,
        iat: c.iat,
        iss: c.iss,
        email_verified: c.email_verified,
    }
}

/// The first part of every HS256 token that `jsonwebtoken::encode` writes
/// with `Header::new(Algorithm::HS256)`: base64url of
/// `{"typ":"JWT","alg":"HS256"}`, then the `.` before the payload.
pub open spec fn hs256_header_part() -> Seq<char> {
    "eyJ0eXAiOiJKV1QiLCJhbGciOiJIUzI1NiJ9."@
}

/// A compact HS256 JWT: the fixed header part, then payload and signature.
pub open spec fn is_hs256_token(t: Seq<char>) -> bool {
    t.len() > hs256_header_part().len() && t.subrange(0, hs256_header_part().len() as int)
        == hs256_header_part()
}

/// The `sub` field and the `roles` field (empty when the payload has none)
/// that a JWT's payload part decodes to, when it decodes: a function of the
/// token text alone.
pub uninterp spec fn jwt_subject_roles(token: Seq<char>) -> Option<(Seq<char>, Seq<Seq<char>>)>;

pub open spec fn role_texts(roles: Seq<String>) -> Seq<Seq<char>> {
    roles.map_values(|r: String| r@)
}

/// An access token for the user with `id`: an HS256 JWT whose subject is the
/// id as decimal text and whose one role is `user`.
pub open spec fn is_user_token(t: Seq<char>, id: i64) -> bool {
    &&& is_hs256_token(t)
    &&& jwt_subject_roles(t) == Some((spec_i64_text(id as int), seq!["user"@]))
}

/// A refresh token for the user with `id`: an HS256 JWT whose subject is the
/// id as decimal text, with no roles.
pub open spec fn is_refresh_token(t: Seq<char>, id: i64) -> bool {
    &&& is_hs256_token(t)
    &&& jwt_subject_roles(t) == Some((spec_i64_text(id as int), Seq::<Seq<char>>::empty()))
}

/// `rok_auth::Auth::sign`: a compact JWT for `claims`.  The key is an HMAC
/// secret and the header asks for HS256, so `jsonwebtoken::encode` cannot
/// refuse it, and serialising the header and the claims cannot fail: the
/// call always succeeds.  The payload carries the claims' subject and roles
/// unchanged; its issue and expiry times come from the clock, and with them
/// the signature, so those are not stated.
#[verifier::external_body]
fn sign_raw(auth: &rok_auth::Auth, claims: &Claims) -> (r: Result<String, rok_auth::AuthError>)
    ensures
        r is Ok,
        r matches Ok(t) ==> is_hs256_token(t@),
        r matches Ok(t) ==> jwt_subject_roles(t@) == Some((claims.sub@, role_texts(claims.roles@))),
{
    auth.sign(
        &rok_auth::Claims {
            sub: claims.sub.clone(),
            roles: claims.roles.clone(),
            exp: claims.exp,
            iat: claims.iat,
            iss: claims.iss.clone(),
            email_verified: claims.email_verified,
        },
    )
}

/// Signs `claims` as an access token; this always succeeds, and the token
/// carries the claims' subject and roles.
pub(crate) fn sign(auth: &AuthHandle, claims: &Claims) -> (r: Result<String, AuthFailure>)
    ensures
        r is Ok,
        r matches Ok(t) ==> is_hs256_token(t@),
        r matches Ok(t) ==> jwt_subject_roles(t@) == Some((claims.sub@, role_texts(claims.roles@))),
{
    match sign_raw(&auth.auth, claims) {
        Ok(t) => Ok(t),
        Err(e) => Err(classify(e)),
    }
}

/// Signs an access token for the user with `user_id`: the subject is the
/// id as decimal text, and the one role is `user`.  This always succeeds.
pub(crate) fn sign_user_token(auth: &AuthHandle, user_id: i64) -> (r: Result<String, AuthFailure>)
    ensures
        r is Ok,
        r matches Ok(t) ==> is_user_token(t@, user_id),
{
    let mut roles: Vec<String> = Vec::new();
    roles.push(String::from_str("user"));
    let claims = claims_now(i64_to_text(user_id), roles);
    let r = sign(auth, &claims);
    assert(role_texts(claims.roles@) =~= seq!["user"@]);
    r
}

/// `rok_auth::Auth::sign_refresh`: a refresh token for `subject`, encoded
/// with `jsonwebtoken::encode` under the HS256 header and the HMAC key, which
/// cannot fail: it always succeeds.  Its payload carries `subject` and no
/// roles, besides the clock and a fresh random family id, which are not
/// stated.
#[verifier::external_body]
fn sign_refresh_raw(auth: &rok_auth::Auth, subject: &str) -> (r: Result<String, rok_auth::AuthError>)
    ensures
        r is Ok,
        r matches Ok(t) ==> is_hs256_token(t@),
        r matches Ok(t) ==> jwt_subject_roles(t@) == Some((subject@, Seq::<Seq<char>>::empty())),
{
    auth.sign_refresh(subject)
}

/// Signs a refresh token for `subject`; this always succeeds.
pub(crate) fn sign_refresh(auth: &AuthHandle, subject: &str) -> (r: Result<String, AuthFailure>)
    ensures
        r is Ok,
        r matches Ok(t) ==> is_hs256_token(t@),
        r matches Ok(t) ==> jwt_subject_roles(t@) == Some((subject@, Seq::<Seq<char>>::empty())),
{
    match sign_refresh_raw(&auth.auth, subject) {
        Ok(t) => Ok(t),
        Err(e) => Err(classify(e)),
    }
}

/// The e-mail that a magic-link token sealed under `secret` holds: what
/// `Encrypter::open_for("magic-link", token)`, keyed from `secret`, decrypts
/// before it checks the expiry.  A function of the two texts alone.
pub uninterp spec fn magic_link_email(secret: Seq<char>, token: Seq<char>) -> Option<Seq<char>>;

/// A character of the URL-safe base64 alphabet.
pub open spec fn is_url_safe_char(c: char) -> bool {
    ('A' <= c && c <= 'Z') || ('a' <= c && c <= 'z') || ('0' <= c && c <= '9') || c == '-' || c == '_'
}

/// Non-empty URL-safe base64 text, as the sealer writes it.
pub open spec fn is_url_safe_token(t: Seq<char>) -> bool {
    t.len() > 0 && forall|i: int| 0 <= i < t.len() ==> is_url_safe_char(#[trigger] t[i])
}

/// `MagicLink::issue` with the default settings, under an `Encrypter` keyed
/// from `secret`: the base64url (no padding) form of a fresh nonce and the
/// AES-256-GCM sealing of `email`, the `magic-link` purpose and an expiry.
/// The nonce and the clock go into it, so the text is left free beyond its
/// form and the e-mail it opens to.
#[verifier::external_body]
pub(crate) fn issue_magic_link(secret: &str, email: &str) -> (r: String)
    ensures
        is_url_safe_token(r@),
        magic_link_email(secret@, r@) == Some(email@),
{
    rok_auth::MagicLink::issue(
        &rok_core::crypto::encrypt::Encrypter::from_config(
            rok_core::crypto::encrypt::EncryptConfig::new(secret),
        ),
        email,
        &rok_auth::MagicLinkConfig::default(),
    )
}

/// `uuid::Uuid::new_v4().to_string()`: a random UUID in its hyphenated
/// form, 36 ASCII characters (hex digits and hyphens).
#[verifier::external_body]
pub(crate) fn random_uuid_text() -> (r: String)
    ensures
        r@.len() == 36,
        vstd::utf8::is_ascii_chars(r@),
{
    uuid::Uuid::new_v4().to_string()
}

} // verus!
