//! The shapes that requests and responses travel in.

use vstd::prelude::*;

pub mod admin;
pub mod user;

verus! {

/// The claim set carried by a signed token: the principal's email as
/// subject, and the expiry as a unix timestamp.
#[derive(Debug)]
pub struct JWTClaims {
    pub sub: String,
    pub exp: usize,
}

/// A single identifier, in its display form.
#[derive(Debug)]
pub struct StructWithId {
    pub id: String,
}

/// A single looked-up value.
#[derive(Debug)]
pub struct StructWithVal {
    pub val: String,
}

/// The response to a successful signup.
#[derive(Debug)]
pub struct SignupResponse {
    pub message: String,
    pub id: String,
}

/// The credentials presented on signin.
#[derive(Debug)]
pub struct EmailAndPassword {
    pub email: String,
    pub password: String,
}

/// The response to a successful signin.
#[derive(Debug)]
pub struct SigninResponse {
    pub message: String,
    pub token: String,
}

/// The authenticated user principal's email, as the user-kind middleware
/// attaches it to the request context.
#[derive(Debug, Clone)]
pub struct StructWithEmail {
    pub email: String,
}

/// The response to a successful purchase.
#[derive(Debug)]
pub struct PurchaseResponse {
    pub id: String,
    pub message: &'static str,
}

} // verus!
