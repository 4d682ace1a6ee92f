//! What a bearer token is worth to a request.

use vstd::prelude::*;
use crate::models::Claims;

verus! {

/// The refusal of a request that carries no token.
pub const TOKEN_NOT_FOUND: &'static str = "token not found";

/// The refusal of a request whose token does not verify.
pub const INVALID_TOKEN: &'static str = "invalid token";

/// What checking the bearer token of a request gave.
#[derive(Debug, PartialEq, Eq)]
pub enum Bearer {
    /// The request carries no token that can be read.
    Absent,
    /// The token is forged, malformed or expired.
    Rejected,
    /// The token verifies and asserts these claims.
    Verified(Claims),
}

/// The claims of the request, or the words with which it is refused.
pub open spec fn authorized(bearer: Bearer) -> Result<Claims, &'static str> {
    match bearer {
        Bearer::Absent => Err(TOKEN_NOT_FOUND),
        Bearer::Rejected => Err(INVALID_TOKEN),
        Bearer::Verified(claims) => Ok(claims),
    }
}

/// The claims of the request, or the words with which it is refused: a
/// request without a token is told so, one with a token that does not
/// verify is told that it is invalid, whatever is wrong with the token.
pub fn authorize(bearer: Bearer) -> (r: Result<Claims, &'static str>)
    ensures
        r == authorized(bearer),
        r is Ok <==> bearer is Verified,
{
    match bearer {
        Bearer::Absent => Err(TOKEN_NOT_FOUND),
        Bearer::Rejected => Err(INVALID_TOKEN),
        Bearer::Verified(claims) => Ok(claims),
    }
}

} // verus!
