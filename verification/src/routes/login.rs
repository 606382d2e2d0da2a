use vstd::prelude::*;
use vstd::string::StringExecFns;

use crate::domain::data_stores::{
    canonical_attempt_id, six_digit_code, LoginAttemptId, TwoFACode, TwoFACodeStore, UserStore,
};
use crate::domain::email::{valid_email, Email};
use crate::domain::email_client::EmailClient;
use crate::domain::error::AuthAPIError;
use crate::domain::password::{valid_password, Password};
use crate::utils::auth::{generate_auth_token, token_chars, TOKEN_TTL_SECONDS};

verus! {

pub struct LoginRequest {
    pub email: String,
    pub password: String,
}

/// A successful login: either a full session, or a pending second factor
/// correlated by a fresh attempt id.
#[derive(Debug, PartialEq)]
pub enum LoginResponse {
    RegularAuth { token: String },
    TwoFactorAuth { message: String, login_attempt_id: LoginAttemptId },
}

/// Checks credentials and either establishes a session or issues a
/// second-factor challenge, replacing any pending challenge for the email.
/// Unknown email and wrong password are deliberately indistinguishable.
pub fn login<U: UserStore, T: TwoFACodeStore, E: EmailClient>(
    user_store: &U,
    two_fa_code_store: &mut T,
    email_client: &E,
    secret: &str,
    now: u64,
    request: LoginRequest,
) -> (r: Result<LoginResponse, AuthAPIError>)
    requires
        now + TOKEN_TTL_SECONDS <= u64::MAX,
    ensures
        r == Err::<LoginResponse, AuthAPIError>(AuthAPIError::InvalidCredentials) <==> !(
        valid_email(request.email@) && valid_password(request.password@)),
        r == Err::<LoginResponse, AuthAPIError>(AuthAPIError::InvalidCredentials) ==> final(two_fa_code_store).codes() == old(two_fa_code_store).codes(),
        valid_email(request.email@) && valid_password(request.password@)
            && user_store.users().contains_key(request.email@)
            && user_store.users()[request.email@].password != request.password@ ==> r == Err::<
            LoginResponse,
            AuthAPIError,
        >(AuthAPIError::IncorrectCredentials),
        valid_email(request.email@) && valid_password(request.password@)
            && !user_store.users().contains_key(request.email@) ==> r == Err::<
            LoginResponse,
            AuthAPIError,
        >(AuthAPIError::IncorrectCredentials),
        r == Err::<LoginResponse, AuthAPIError>(AuthAPIError::IncorrectCredentials) ==> final(two_fa_code_store).codes() == old(two_fa_code_store).codes(),
        r matches Ok(LoginResponse::RegularAuth { token }) ==> {
            &&& user_store.users().contains_key(request.email@)
            &&& user_store.users()[request.email@].password == request.password@
            &&& !user_store.users()[request.email@].requires_2fa
            &&& token@ == token_chars(secret@, request.email@, (now + TOKEN_TTL_SECONDS) as u64)
            &&& final(two_fa_code_store).codes() == old(two_fa_code_store).codes()
        },
        r matches Ok(LoginResponse::TwoFactorAuth { message, login_attempt_id }) ==> {
            &&& user_store.users().contains_key(request.email@)
            &&& user_store.users()[request.email@].password == request.password@
            &&& user_store.users()[request.email@].requires_2fa
            &&& canonical_attempt_id(login_attempt_id@)
            &&& message@ == "2FA required"@
            &&& exists|code: Seq<char>|
                six_digit_code(code) && final(two_fa_code_store).codes() == old(
                    two_fa_code_store,
                ).codes().insert(request.email@, (login_attempt_id@, code))
        },
        valid_email(request.email@) && valid_password(request.password@)
            && user_store.users().contains_key(request.email@)
            && user_store.users()[request.email@].password == request.password@
            && !user_store.users()[request.email@].requires_2fa ==> (r is Ok || r == Err::<
            LoginResponse,
            AuthAPIError,
        >(AuthAPIError::IncorrectCredentials)),
        valid_email(request.email@) && valid_password(request.password@)
            && user_store.users().contains_key(request.email@)
            && user_store.users()[request.email@].password == request.password@
            && user_store.users()[request.email@].requires_2fa ==> (r is Ok || r == Err::<
            LoginResponse,
            AuthAPIError,
        >(AuthAPIError::IncorrectCredentials) || r == Err::<LoginResponse, AuthAPIError>(
            AuthAPIError::UnexpectedError,
        )),
        // a store write that succeeds before the email send fails leaves an
        // orphaned challenge behind, which simply expires unconsumed
        r == Err::<LoginResponse, AuthAPIError>(AuthAPIError::UnexpectedError) ==> (final(two_fa_code_store).codes() == old(two_fa_code_store).codes() || exists|id: Seq<char>, code: Seq<char>|
            canonical_attempt_id(id) && six_digit_code(code) && final(two_fa_code_store).codes()
                == old(two_fa_code_store).codes().insert(request.email@, (id, code))),
{
    let email = match Email::parse(request.email) {
        Ok(e) => e,
        Err(_) => {
            return Err(AuthAPIError::InvalidCredentials);
        },
    };
    let password = match Password::parse(request.password) {
        Ok(p) => p,
        Err(_) => {
            return Err(AuthAPIError::InvalidCredentials);
        },
    };

    if user_store.validate_user(&email, &password).is_err() {
        return Err(AuthAPIError::IncorrectCredentials);
    }

    let user = match user_store.get_user(&email) {
        Ok(u) => u,
        Err(_) => {
            return Err(AuthAPIError::IncorrectCredentials);
        },
    };

    if user.requires_2fa {
        let login_attempt_id = LoginAttemptId::default();
        let two_fa_code = TwoFACode::default();

        if two_fa_code_store.add_code(
            email.clone(),
            login_attempt_id.clone(),
            two_fa_code.clone(),
        ).is_err() {
            return Err(AuthAPIError::UnexpectedError);
        }

        if email_client.send_email(&email, "2FA Code", two_fa_code.as_ref()).is_err() {
            return Err(AuthAPIError::UnexpectedError);
        }

        Ok(
            LoginResponse::TwoFactorAuth {
                message: String::from_str("2FA required"),
                login_attempt_id,
            },
        )
    } else {
        let token = generate_auth_token(secret, &email, now);
        Ok(LoginResponse::RegularAuth { token })
    }
}

/// An attempt id is never equal to a code: their shapes differ.
pub proof fn lemma_attempt_id_differs_from_code(id: Seq<char>, code: Seq<char>)
    requires
        canonical_attempt_id(id),
        six_digit_code(code),
    ensures
        id != code,
{
}

} // verus!
