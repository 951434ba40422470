//! A user profile record: an activity flag, a name, an email address and a
//! sign-in counter. New records are built field by field, or from an
//! existing record with a fresh email and name.

use vstd::prelude::*;

verus! {

/// A user profile.
pub struct User {
    pub active: bool,
    pub username: String,
    pub email: String,
    pub sign_in_count: u64,
}

/// Builds a fresh profile for the given contact details: it starts out
/// active, with a single sign-in recorded.
pub fn build_user(email: String, username: String) -> (r: User)
    ensures
        r.email@ == email@,
        r.username@ == username@,
        r.active == true,
        r.sign_in_count == 1,
{
    User { email, username, active: true, sign_in_count: 1 }
}

/// Rebuilds a profile around new contact details. Only the email and the
/// name are replaced: every other field of the result is identical to the
/// corresponding field of the source, which is consumed.
pub fn with_contact(source: User, email: String, username: String) -> (r: User)
    ensures
        r.email@ == email@,
        r.username@ == username@,
        r.active == source.active,
        r.sign_in_count == source.sign_in_count,
{
    User { email, username, ..source }
}

} // verus!
