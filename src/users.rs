//! User accounts.
use vstd::prelude::*;

verus! {

/// An account: its name, its address, how often it signed in, and whether
/// it is active.
pub struct User {
    pub username: String,
    pub email: String,
    pub sign_in_count: u64,
    pub active: bool,
}

/// Returns an active account, signed in once, with the given address and name.
pub fn build_struct(email: String, username: String) -> (r: User)
    ensures
        r.email == email,
        r.username == username,
        r.active,
        r.sign_in_count == 1,
{
    User { email, username, active: true, sign_in_count: 1 }
}

} // verus!
