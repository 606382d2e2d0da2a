use vstd::prelude::*;

use crate::domain::data_stores::{
    canonical_attempt_id, six_digit_code, LoginAttemptId, TwoFACode, TwoFACodeStore,
    TwoFACodeStoreError,
};
use crate::domain::email::{valid_email, Email};
use crate::domain::error::AuthAPIError;
use crate::utils::auth::{generate_auth_token, token_chars, TOKEN_TTL_SECONDS};

verus! {

pub struct Verify2FARequest {
    pub email: String,
    pub login_attempt_id: String,
    pub two_fa_code: String,
}

/// What verifying a second factor does to the pending challenges, and with
/// which outcome. The challenge is consumed exactly on full match.
pub open spec fn verify_2fa_result(
    codes: Map<Seq<char>, (Seq<char>, Seq<char>)>,
    email: Seq<char>,
    login_attempt_id: Seq<char>,
    code: Seq<char>,
) -> (Map<Seq<char>, (Seq<char>, Seq<char>)>, Result<(), AuthAPIError>) {
    if !valid_email(email) || !canonical_attempt_id(login_attempt_id) || !six_digit_code(code) {
        (codes, Err(AuthAPIError::InvalidCredentials))
    } else if !codes.contains_key(email) {
        (codes, Err(AuthAPIError::IncorrectCredentials))
    } else if codes[email] != (login_attempt_id, code) {
        (codes, Err(AuthAPIError::IncorrectCredentials))
    } else {
        (codes.remove(email), Ok(()))
    }
}

/// Completes a pending second-factor login: all three inputs must parse,
/// and the attempt id and code must both match the stored challenge, which
/// is then consumed. On success the session token is returned.
/// `UnexpectedError` is reserved for a failing store backend.
pub fn verify_2fa<T: TwoFACodeStore>(
    two_fa_code_store: &mut T,
    secret: &str,
    now: u64,
    request: Verify2FARequest,
) -> (r: Result<String, AuthAPIError>)
    requires
        now + TOKEN_TTL_SECONDS <= u64::MAX,
    ensures
        r != Err::<String, AuthAPIError>(AuthAPIError::UnexpectedError) ==> ({
            let (new_codes, outcome) = verify_2fa_result(
                old(two_fa_code_store).codes(),
                request.email@,
                request.login_attempt_id@,
                request.two_fa_code@,
            );
            &&& final(two_fa_code_store).codes() == new_codes
            &&& (r is Ok <==> outcome is Ok)
            &&& (r matches Err(e) ==> outcome == Err::<(), AuthAPIError>(e))
        }),
        r matches Ok(token) ==> token@ == token_chars(
            secret@,
            request.email@,
            (now + TOKEN_TTL_SECONDS) as u64,
        ),
        r == Err::<String, AuthAPIError>(AuthAPIError::UnexpectedError) ==> final(two_fa_code_store).codes() == old(two_fa_code_store).codes(),
        !(valid_email(request.email@) && canonical_attempt_id(request.login_attempt_id@)
            && six_digit_code(request.two_fa_code@)) ==> r == Err::<String, AuthAPIError>(
            AuthAPIError::InvalidCredentials,
        ),
        valid_email(request.email@) && canonical_attempt_id(request.login_attempt_id@)
            && six_digit_code(request.two_fa_code@) ==> (r is Ok || r == Err::<String, AuthAPIError>(
            AuthAPIError::IncorrectCredentials,
        ) || r == Err::<String, AuthAPIError>(AuthAPIError::UnexpectedError)),
{
    let email = match Email::parse(request.email) {
        Ok(e) => e,
        Err(_) => {
            return Err(AuthAPIError::InvalidCredentials);
        },
    };
    let login_attempt_id = match LoginAttemptId::parse(request.login_attempt_id) {
        Ok(v) => v,
        Err(_) => {
            return Err(AuthAPIError::InvalidCredentials);
        },
    };
    let two_fa_code = match TwoFACode::parse(request.two_fa_code) {
        Ok(v) => v,
        Err(_) => {
            return Err(AuthAPIError::InvalidCredentials);
        },
    };

    let code_tuple = match two_fa_code_store.get_code(&email) {
        Ok(tuple) => tuple,
        Err(TwoFACodeStoreError::LoginAttemptIdNotFound) => {
            return Err(AuthAPIError::IncorrectCredentials);
        },
        Err(_) => {
            return Err(AuthAPIError::UnexpectedError);
        },
    };

    let id_matches = code_tuple.0 == login_attempt_id;
    let code_matches = code_tuple.1 == two_fa_code;
    if !id_matches || !code_matches {
        return Err(AuthAPIError::IncorrectCredentials);
    }

    if two_fa_code_store.remove_code(&email).is_err() {
        return Err(AuthAPIError::UnexpectedError);
    }

    Ok(generate_auth_token(secret, &email, now))
}

/// Issuing a new challenge for an email invalidates the previous pair:
/// after the reissue, verifying with the old pair is rejected and consumes
/// nothing.
pub proof fn lemma_reissue_invalidates_previous(
    codes: Map<Seq<char>, (Seq<char>, Seq<char>)>,
    email: Seq<char>,
    old_id: Seq<char>,
    old_code: Seq<char>,
    new_id: Seq<char>,
    new_code: Seq<char>,
)
    requires
        valid_email(email),
        canonical_attempt_id(old_id),
        six_digit_code(old_code),
        (old_id, old_code) != (new_id, new_code),
    ensures
        verify_2fa_result(codes.insert(email, (new_id, new_code)), email, old_id, old_code) == (
            codes.insert(email, (new_id, new_code)),
            Err::<(), AuthAPIError>(AuthAPIError::IncorrectCredentials),
        ),
{
}

/// A challenge is single-use: after a successful verification, repeating
/// the very same request is rejected and consumes nothing.
pub proof fn lemma_challenge_single_use(
    codes: Map<Seq<char>, (Seq<char>, Seq<char>)>,
    email: Seq<char>,
    login_attempt_id: Seq<char>,
    code: Seq<char>,
)
    requires
        verify_2fa_result(codes, email, login_attempt_id, code).1 is Ok,
    ensures
        verify_2fa_result(
            verify_2fa_result(codes, email, login_attempt_id, code).0,
            email,
            login_attempt_id,
            code,
        ) == (
            verify_2fa_result(codes, email, login_attempt_id, code).0,
            Err::<(), AuthAPIError>(AuthAPIError::IncorrectCredentials),
        ),
{
}

} // verus!
