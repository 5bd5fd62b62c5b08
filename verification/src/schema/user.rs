//! Shapes of the user-facing requests.

use vstd::prelude::*;

verus! {

/// The body of a user signup request; on its way into the store the
/// `password` field carries the salted hash instead of the plaintext.
#[derive(Debug)]
pub struct CreateUser {
    pub name: String,
    pub email: String,
    pub password: String,
}

} // verus!
