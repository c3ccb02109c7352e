//! The claims that an access token carries, and what they grant.

use vstd::prelude::*;
use crate::text::chars_of;

verus! {

/// The claims of an access token, as plain values.
pub struct Claims {
    /// Subject: the user's id as decimal text.
    pub sub: String,
    /// Roles assigned to the subject.
    pub roles: Vec<String>,
    /// Expiry (Unix timestamp).
    pub exp: i64,
    /// Issued-at (Unix timestamp).
    pub iat: i64,
    /// Issuer.
    pub iss: Option<String>,
    /// Whether the user's email address has been verified.
    pub email_verified: Option<bool>,
}

/// Whether `roles` holds `role`.
pub open spec fn roles_contain(roles: Seq<String>, role: Seq<char>) -> bool {
    exists|i: int| 0 <= i < roles.len() && #[trigger] roles[i]@ == role
}

/// Whether two texts are equal, character by character.
pub fn same_text(a: &str, b: &str) -> (r: bool)
    ensures
        r == (a@ == b@),
{
    let x = chars_of(a);
    let y = chars_of(b);
    if x.len() != y.len() {
        return false;
    }
    let mut i: usize = 0;
    while i < x.len()
        invariant
            x@ == a@,
            y@ == b@,
            x.len() == y.len(),
            i <= x.len(),
            forall|j: int| 0 <= j < i ==> x@[j] == y@[j],
        decreases x.len() - i,
    {
        if x[i] != y[i] {
            return false;
        }
        i = i + 1;
    }
    assert(x@ =~= y@);
    true
}

impl Claims {
    /// Whether `role` is among the claims' roles.
    pub fn has_role(&self, role: &str) -> (r: bool)
        ensures
            r == roles_contain(self.roles@, role@),
    {
        let mut i: usize = 0;
        while i < self.roles.len()
            invariant
                i <= self.roles.len(),
                forall|j: int| 0 <= j < i ==> self.roles@[j]@ != role@,
            decreases self.roles.len() - i,
        {
            if same_text(self.roles[i].as_str(), role) {
                return true;
            }
            i = i + 1;
        }
        false
    }
}

} // verus!
