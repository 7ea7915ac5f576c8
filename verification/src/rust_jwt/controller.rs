//! Who may log in.

use vstd::prelude::*;

verus! {

/// Whether the pair of a user name and a password is taken: both have to be
/// given, that is, neither may be empty.
pub fn is_valid_user(username: &str, password: &str) -> (valid: bool)
    ensures
        valid == (username@.len() > 0 && password@.len() > 0),
{
    !username.is_empty() && !password.is_empty()
}

} // verus!
