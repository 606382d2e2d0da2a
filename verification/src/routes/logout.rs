use vstd::prelude::*;

use crate::domain::data_stores::BannedTokenStore;
use crate::domain::error::AuthAPIError;
use crate::utils::auth::{token_expiry_val, token_validity, validate_token, well_signed};

verus! {

/// Ends a session: the token must be present and still valid; it is then
/// revoked. `UnexpectedError` is reserved for a failing store backend.
pub fn logout<B: BannedTokenStore>(
    banned_token_store: &mut B,
    secret: &str,
    now: u64,
    token: Option<String>,
) -> (r: Result<(), AuthAPIError>)
    ensures
        token is None <==> r == Err::<(), AuthAPIError>(AuthAPIError::MissingToken),
        r is Ok ==> ({
            &&& token matches Some(t) && token_validity(
                secret@,
                old(banned_token_store).tokens(),
                now,
                t@,
            ) is Some
            &&& final(banned_token_store).tokens() == old(banned_token_store).tokens().insert(
                (token -> Some_0)@,
            )
        }),
        r == Err::<(), AuthAPIError>(AuthAPIError::InvalidToken) ==> ({
            &&& token matches Some(t) && token_validity(
                secret@,
                old(banned_token_store).tokens(),
                now,
                t@,
            ) is None
            &&& final(banned_token_store).tokens() == old(banned_token_store).tokens()
        }),
        r == Err::<(), AuthAPIError>(AuthAPIError::MissingToken) || r == Err::<(), AuthAPIError>(
            AuthAPIError::UnexpectedError,
        ) ==> final(banned_token_store).tokens() == old(banned_token_store).tokens(),
        r is Ok || r == Err::<(), AuthAPIError>(AuthAPIError::MissingToken) || r == Err::<
            (),
            AuthAPIError,
        >(AuthAPIError::InvalidToken) || r == Err::<(), AuthAPIError>(AuthAPIError::UnexpectedError),
        token matches Some(t) && (!well_signed(secret@, t@) || token_expiry_val(t@) <= now) ==> r
            == Err::<(), AuthAPIError>(AuthAPIError::InvalidToken),
{
    let token = match token {
        Some(t) => t,
        None => {
            return Err(AuthAPIError::MissingToken);
        },
    };

    match validate_token(secret, banned_token_store, token.as_str(), now) {
        Ok(_) => {},
        Err(AuthAPIError::UnexpectedError) => {
            return Err(AuthAPIError::UnexpectedError);
        },
        Err(_) => {
            return Err(AuthAPIError::InvalidToken);
        },
    }

    if banned_token_store.add_token(token).is_err() {
        return Err(AuthAPIError::UnexpectedError);
    }

    Ok(())
}

} // verus!
