use vstd::prelude::*;

use crate::domain::data_stores::BannedTokenStore;
use crate::domain::error::AuthAPIError;
use crate::utils::auth::{token_validity, validate_token};

verus! {

pub struct VerifyTokenRequest {
    pub token: String,
}

/// Reports whether a token is currently valid: well signed, unexpired, and
/// not revoked. Every failure, a failing store probe included, collapses to
/// `InvalidToken`.
pub fn verify_token<B: BannedTokenStore>(
    banned_token_store: &B,
    secret: &str,
    now: u64,
    request: VerifyTokenRequest,
) -> (r: Result<(), AuthAPIError>)
    ensures
        r is Ok ==> token_validity(
            secret@,
            banned_token_store.tokens(),
            now,
            request.token@,
        ) is Some,
        token_validity(secret@, banned_token_store.tokens(), now, request.token@) is None ==> r
            == Err::<(), AuthAPIError>(AuthAPIError::InvalidToken),
        r is Ok || r == Err::<(), AuthAPIError>(AuthAPIError::InvalidToken),
{
    match validate_token(secret, banned_token_store, request.token.as_str(), now) {
        Ok(_) => Ok(()),
        Err(_) => Err(AuthAPIError::InvalidToken),
    }
}

} // verus!
