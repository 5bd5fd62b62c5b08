//! Authorization of admin requests.

use vstd::prelude::*;

use crate::errors::ApiError;
use crate::token::jwt_decode;
use crate::token::token_authorizes;

verus! {

/// Gate an admin-only route on the `Authorization` header. A missing
/// header fails with `TokenMissing`; a header that does not verify under
/// the admin secret fails with `InvalidToken`; on success the verified
/// principal's email is handed on, to be attached to the request context.
/// An accepted header is a token minted under the admin secret for that
/// very email — never under a secret deriving a different HMAC key, so a
/// token of the other principal kind is always rejected whenever the two
/// kinds' secrets derive distinct keys.
pub fn admin_middleware(auth_header: Option<&String>, secret: &[u8]) -> (r: Result<
    String,
    ApiError,
>)
    ensures
        auth_header is None ==> r == Err::<String, ApiError>(ApiError::TokenMissing),
        auth_header is Some ==> (r is Ok || r == Err::<String, ApiError>(ApiError::InvalidToken)),
        r matches Ok(email) ==> (auth_header matches Some(t) && token_authorizes(
            t@,
            secret@,
            email@,
        )),
{
    match auth_header {
        None => Err(ApiError::TokenMissing),
        Some(token) => match jwt_decode(token.as_str(), secret) {
            Some(claims) => Ok(claims.sub),
            None => Err(ApiError::InvalidToken),
        },
    }
}

} // verus!
