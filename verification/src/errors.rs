use vstd::prelude::*;

verus! {

/// Failures that can stop the process before or while it serves: all of them
/// are reported as an internal server error.
#[derive(Clone, Copy, Debug, PartialEq, Eq, Structural)]
pub enum AppError {
    SocketBind,
    DbConnect,
    ServerStart,
    InternalError,
}

impl AppError {
    /// Every process-level failure maps to HTTP 500.
    pub fn status_code(&self) -> (code: u16)
        ensures
            code == 500,
    {
        match self {
            AppError::SocketBind => 500,
            AppError::DbConnect => 500,
            AppError::ServerStart => 500,
            AppError::InternalError => 500,
        }
    }
}

/// The wire shape of every error body: a single human-readable message.
#[derive(Clone, Debug)]
pub struct CustomError {
    pub error: String,
}

/// The kind of principal a request authenticates as. The two kinds are
/// authorization-disjoint: a token of one kind never authorizes a route of
/// the other.
#[derive(Clone, Copy, Debug, PartialEq, Eq, Structural)]
pub enum PrincipalKind {
    Admin,
    User,
}

/// Every way a request can fail, as a tagged variant set. A variant together
/// with the principal kind of the route determines the wire message
/// ([`error_message`]), and the variant alone determines the HTTP status
/// ([`error_status`]).
#[derive(Clone, Copy, Debug, PartialEq, Eq, Structural)]
pub enum ApiError {
    /// Signup with an email that is already registered for this kind.
    DuplicateEmail,
    /// Signin with an email that is not registered for this kind.
    NotRegistered,
    /// Signin with a password that does not match the stored hash.
    InvalidCredentials,
    /// A protected route invoked without an `Authorization` header.
    TokenMissing,
    /// A protected route invoked with a token that does not verify under the
    /// route's secret (malformed, expired, or signed with another secret).
    InvalidToken,
    /// An authenticated principal acting on a resource it does not own, or a
    /// handler invoked without its authentication context.
    Forbidden,
    /// A purchase of a course the user has already purchased.
    DuplicatePurchase,
    /// A store, crypto or parse failure.
    InternalError,
}

pub open spec fn spec_error_status(e: ApiError) -> u16 {
    match e {
        ApiError::DuplicateEmail => 400,
        ApiError::NotRegistered => 400,
        ApiError::InvalidCredentials => 400,
        ApiError::TokenMissing => 403,
        ApiError::InvalidToken => 403,
        ApiError::Forbidden => 403,
        ApiError::DuplicatePurchase => 400,
        ApiError::InternalError => 500,
    }
}

/// The HTTP status of a failure: 400 for validation and business failures,
/// 403 for authorization failures, 500 for internal ones.
pub fn error_status(e: &ApiError) -> (code: u16)
    ensures
        code == spec_error_status(*e),
{
    match e {
        ApiError::DuplicateEmail => 400,
        ApiError::NotRegistered => 400,
        ApiError::InvalidCredentials => 400,
        ApiError::TokenMissing => 403,
        ApiError::InvalidToken => 403,
        ApiError::Forbidden => 403,
        ApiError::DuplicatePurchase => 400,
        ApiError::InternalError => 500,
    }
}

pub open spec fn spec_error_message(kind: PrincipalKind, e: ApiError) -> Seq<char> {
    match e {
        ApiError::DuplicateEmail => "User exists already with this email"@,
        ApiError::NotRegistered => "Signup first"@,
        ApiError::InvalidCredentials => "Enter Valid Password"@,
        ApiError::TokenMissing => match kind {
            PrincipalKind::Admin => "token missing"@,
            PrincipalKind::User => "Token Not found"@,
        },
        ApiError::InvalidToken => match kind {
            PrincipalKind::Admin => "Internal Error"@,
            PrincipalKind::User => "Invalid token"@,
        },
        ApiError::Forbidden => "Unauthorized"@,
        ApiError::DuplicatePurchase => "Already Purchased"@,
        ApiError::InternalError => "Internal Error"@,
    }
}

/// The authoritative human-readable message of a failure, per principal kind.
pub fn error_message(kind: PrincipalKind, e: &ApiError) -> (m: String)
    ensures
        m@ == spec_error_message(kind, *e),
{
    match e {
        ApiError::DuplicateEmail => "User exists already with this email".to_owned(),
        ApiError::NotRegistered => "Signup first".to_owned(),
        ApiError::InvalidCredentials => "Enter Valid Password".to_owned(),
        ApiError::TokenMissing => match kind {
            PrincipalKind::Admin => "token missing".to_owned(),
            PrincipalKind::User => "Token Not found".to_owned(),
        },
        ApiError::InvalidToken => match kind {
            PrincipalKind::Admin => "Internal Error".to_owned(),
            PrincipalKind::User => "Invalid token".to_owned(),
        },
        ApiError::Forbidden => "Unauthorized".to_owned(),
        ApiError::DuplicatePurchase => "Already Purchased".to_owned(),
        ApiError::InternalError => "Internal Error".to_owned(),
    }
}

/// The structured error body sent over the wire for a failure.
pub fn error_body(kind: PrincipalKind, e: &ApiError) -> (body: CustomError)
    ensures
        body.error@ == spec_error_message(kind, *e),
{
    CustomError { error: error_message(kind, e) }
}

} // verus!
