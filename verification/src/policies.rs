//! Who may do what to user records.

use vstd::prelude::*;
use crate::claims::{Claims, roles_contain, same_text};
use crate::decimal::{i64_to_text, spec_i64_text, spec_parse_i64, law_i64_text_round_trip};

verus! {

pub struct UserPolicy;

pub open spec fn is_admin(claims: Claims) -> bool {
    roles_contain(claims.roles@, "admin"@)
}

/// Whether the claims name the user with `id` as their subject.
pub open spec fn is_subject(claims: Claims, id: i64) -> bool {
    claims.sub@ == spec_i64_text(id as int)
}

impl UserPolicy {
    /// Listing every user is for admins.
    pub fn can_view_all(claims: &Claims) -> (r: bool)
        ensures
            r == is_admin(*claims),
    {
        claims.has_role("admin")
    }

    /// Admins may read any user; a user may read their own record.
    pub fn can_view(claims: &Claims, target_user_id: i64) -> (r: bool)
        ensures
            r == (is_admin(*claims) || is_subject(*claims, target_user_id)),
    {
        claims.has_role("admin") || same_text(claims.sub.as_str(), i64_to_text(target_user_id).as_str())
    }

    /// Admins may change any user; a user may change their own record.
    pub fn can_update(claims: &Claims, target_user_id: i64) -> (r: bool)
        ensures
            r == (is_admin(*claims) || is_subject(*claims, target_user_id)),
    {
        claims.has_role("admin") || same_text(claims.sub.as_str(), i64_to_text(target_user_id).as_str())
    }

    /// Deleting users is for admins.
    pub fn can_delete(claims: &Claims) -> (r: bool)
        ensures
            r == is_admin(*claims),
    {
        claims.has_role("admin")
    }
}

/// A caller is the subject of one id at most: the id that their token's
/// subject reads as.  So a user's own-record rights reach no other record.
pub proof fn law_subject_names_one_user(claims: Claims, id: i64, other: i64)
    ensures
        is_subject(claims, id) ==> spec_parse_i64(claims.sub@) == Some(id),
        is_subject(claims, id) && is_subject(claims, other) ==> id == other,
{
    law_i64_text_round_trip(id);
    law_i64_text_round_trip(other);
}

} // verus!
