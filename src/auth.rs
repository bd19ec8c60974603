//! The authentication check in front of the protected routes.
use vstd::prelude::*;
use crate::ctx::Ctx;
use crate::error::InternalError;

verus! {

/// What checking a presented authentication token found.
#[derive(Debug, Clone, Copy, PartialEq, Eq, Structural)]
pub enum TokenVerdict {
    /// The token is well formed, correctly signed and current.
    Valid { user_id: u64 },
    /// The token could not be parsed or its signature does not match.
    WrongFormat,
    /// The token was valid once but has expired.
    Expired,
}

/// The authentication failure for a token that was presented (`Some`) or
/// not (`None`); `None` when the token is valid.
pub open spec fn auth_failure(token: Option<TokenVerdict>) -> Option<InternalError> {
    match token {
        None => Some(InternalError::AuthFailNoAuthTokenCookie),
        Some(TokenVerdict::WrongFormat) => Some(InternalError::AuthFailTokenWrongFormat),
        Some(TokenVerdict::Expired) => Some(InternalError::AuthFailTokenExpired),
        Some(TokenVerdict::Valid { .. }) => None,
    }
}

/// Binds the caller's identity to the request, or rejects the request with
/// the authentication failure that the token shows.
pub fn require_auth(token: Option<TokenVerdict>) -> (r: Result<Ctx, InternalError>)
    ensures
        match auth_failure(token) {
            Some(e) => r == Err::<Ctx, InternalError>(e),
            None => r is Ok && token == Some(TokenVerdict::Valid { user_id: r->Ok_0.spec_user_id() }),
        },
{
    match token {
        None => Err(InternalError::AuthFailNoAuthTokenCookie),
        Some(TokenVerdict::WrongFormat) => Err(InternalError::AuthFailTokenWrongFormat),
        Some(TokenVerdict::Expired) => Err(InternalError::AuthFailTokenExpired),
        Some(TokenVerdict::Valid { user_id }) => Ok(Ctx::new(user_id)),
    }
}

} // verus!
