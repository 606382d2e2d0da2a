use vstd::prelude::*;
use vstd::string::StringExecFns;

use crate::domain::data_stores::UserStore;
use crate::domain::email::{valid_email, Email};
use crate::domain::error::AuthAPIError;
use crate::domain::password::{valid_password, Password};
use crate::domain::user::{User, UserV};

verus! {

pub struct SignupRequest {
    pub email: String,
    pub password: String,
    pub requires_2fa: bool,
}

#[derive(Debug, PartialEq)]
pub struct SignupResponse {
    pub message: String,
}

/// What signing up does to the user records, and with which outcome.
pub open spec fn signup_result(
    users: Map<Seq<char>, UserV>,
    email: Seq<char>,
    password: Seq<char>,
    requires_2fa: bool,
) -> (Map<Seq<char>, UserV>, Result<(), AuthAPIError>) {
    if !valid_email(email) || !valid_password(password) {
        (users, Err(AuthAPIError::InvalidCredentials))
    } else if users.contains_key(email) {
        (users, Err(AuthAPIError::UserAlreadyExists))
    } else {
        (users.insert(email, UserV { email, password, requires_2fa }), Ok(()))
    }
}

/// Registers a new user: both inputs must parse, and the email must not be
/// taken yet. `UnexpectedError` is reserved for a failing store backend.
pub fn signup<U: UserStore>(user_store: &mut U, request: SignupRequest) -> (r: Result<
    SignupResponse,
    AuthAPIError,
>)
    ensures
        r != Err::<SignupResponse, AuthAPIError>(AuthAPIError::UnexpectedError) ==> ({
            let (new_users, outcome) = signup_result(
                old(user_store).users(),
                request.email@,
                request.password@,
                request.requires_2fa,
            );
            &&& final(user_store).users() == new_users
            &&& (r is Ok <==> outcome is Ok)
            &&& (r matches Err(e) ==> outcome == Err::<(), AuthAPIError>(e))
        }),
        r matches Ok(resp) ==> resp.message@ == "User created successfully!"@,
        r == Err::<SignupResponse, AuthAPIError>(AuthAPIError::UnexpectedError) ==> final(user_store).users() == old(user_store).users(),
        !(valid_email(request.email@) && valid_password(request.password@)) ==> r == Err::<
            SignupResponse,
            AuthAPIError,
        >(AuthAPIError::InvalidCredentials),
        valid_email(request.email@) && valid_password(request.password@) ==> (r is Ok || r
            == Err::<SignupResponse, AuthAPIError>(AuthAPIError::UserAlreadyExists) || r == Err::<
            SignupResponse,
            AuthAPIError,
        >(AuthAPIError::UnexpectedError)),
{
    let email = match Email::parse(request.email) {
        Ok(e) => e,
        Err(_) => {
            return Err(AuthAPIError::InvalidCredentials);
        },
    };
    let password = match Password::parse(request.password) {
        Ok(p) => p,
        Err(_) => {
            return Err(AuthAPIError::InvalidCredentials);
        },
    };

    let user = User::new(email.clone(), password, request.requires_2fa);

    if let Ok(_) = user_store.get_user(&email) {
        return Err(AuthAPIError::UserAlreadyExists);
    }

    let result = user_store.add_user(user);
    if result.is_err() {
        return Err(AuthAPIError::UnexpectedError);
    }

    Ok(SignupResponse { message: String::from_str("User created successfully!") })
}

/// Signing up twice with the same email creates the account once and then
/// reports it as already existing, leaving the records unchanged.
pub proof fn lemma_signup_twice_same_email(
    users: Map<Seq<char>, UserV>,
    email: Seq<char>,
    password: Seq<char>,
    requires_2fa: bool,
    password2: Seq<char>,
    requires_2fa2: bool,
)
    requires
        signup_result(users, email, password, requires_2fa).1 is Ok,
        valid_password(password2),
    ensures
        signup_result(
            signup_result(users, email, password, requires_2fa).0,
            email,
            password2,
            requires_2fa2,
        ) == (
            signup_result(users, email, password, requires_2fa).0,
            Err::<(), AuthAPIError>(AuthAPIError::UserAlreadyExists),
        ),
{
}

} // verus!
