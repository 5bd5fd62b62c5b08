//! Authorization of user requests.

use vstd::prelude::*;

use crate::errors::ApiError;
use crate::schema::StructWithEmail;
use crate::token::jwt_decode;
use crate::token::token_authorizes;

verus! {

/// Gate a user-only route on the `Authorization` header. A missing header
/// fails with `TokenMissing`; a header that does not verify under the user
/// secret fails with `InvalidToken`; on success the verified principal's
/// email is handed on in the user-kind context shape, distinct from the
/// admin one to prevent cross-kind confusion. An accepted header is a
/// token minted under the user secret for that very email — never under a
/// secret deriving a different HMAC key, so a token of the other
/// principal kind is always rejected whenever the two kinds' secrets
/// derive distinct keys.
pub fn user_middleware(auth_header: Option<&String>, secret: &[u8]) -> (r: Result<
    StructWithEmail,
    ApiError,
>)
    ensures
        auth_header is None ==> r == Err::<StructWithEmail, ApiError>(ApiError::TokenMissing),
        auth_header is Some ==> (r is Ok || r == Err::<StructWithEmail, ApiError>(
            ApiError::InvalidToken,
        )),
        r matches Ok(ctx) ==> (auth_header matches Some(t) && token_authorizes(
            t@,
            secret@,
            ctx.email@,
        )),
{
    match auth_header {
        None => Err(ApiError::TokenMissing),
        Some(token) => match jwt_decode(token.as_str(), secret) {
            Some(claims) => Ok(StructWithEmail { email: claims.sub }),
            None => Err(ApiError::InvalidToken),
        },
    }
}

} // verus!
