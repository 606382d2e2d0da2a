use auth_service::domain::data_stores::{LoginAttemptId, TwoFACode, TwoFACodeStore};
use auth_service::domain::email::Email;
use auth_service::domain::error::AuthAPIError;
use auth_service::routes::login::{login, LoginRequest, LoginResponse};
use auth_service::routes::logout::logout;
use auth_service::routes::signup::{signup, SignupRequest};
use auth_service::routes::verify_2fa::{verify_2fa, Verify2FARequest};
use auth_service::routes::verify_token::{verify_token, VerifyTokenRequest};
use auth_service::services::data_stores::hashmap_two_fa_code_store::HashmapTwoFACodeStore;
use auth_service::services::data_stores::hashset_banned_token_store::HashsetBannedTokenStore;
use auth_service::services::hashmap_user_store::HashmapUserStore;
use auth_service::services::mock_email_client::MockEmailClient;

const SECRET: &str = "test-signing-secret";
const NOW: u64 = 1_000_000;

fn signup_request(email: &str, password: &str, requires_2fa: bool) -> SignupRequest {
    SignupRequest {
        email: email.to_string(),
        password: password.to_string(),
        requires_2fa,
    }
}

fn login_request(email: &str, password: &str) -> LoginRequest {
    LoginRequest {
        email: email.to_string(),
        password: password.to_string(),
    }
}

#[test]
fn signup_rejects_invalid_inputs() {
    let mut users = HashmapUserStore::default();

    let no_at = signup(&mut users, signup_request("userexample.com", "password123", false));
    assert_eq!(no_at.unwrap_err(), AuthAPIError::InvalidCredentials);

    let short_password = signup(&mut users, signup_request("a@x.com", "short", false));
    assert_eq!(short_password.unwrap_err(), AuthAPIError::InvalidCredentials);
}

#[test]
fn signup_twice_with_same_email() {
    let mut users = HashmapUserStore::default();

    let first = signup(&mut users, signup_request("a@x.com", "password123", false));
    assert_eq!(first.unwrap().message, "User created successfully!");

    let second = signup(&mut users, signup_request("a@x.com", "password123", false));
    assert_eq!(second.unwrap_err(), AuthAPIError::UserAlreadyExists);
}

#[test]
fn login_with_wrong_password_or_unknown_email_is_incorrect_credentials() {
    let mut users = HashmapUserStore::default();
    let mut codes = HashmapTwoFACodeStore::default();
    let client = MockEmailClient;
    signup(&mut users, signup_request("a@x.com", "password123", false)).unwrap();

    let wrong_password = login(
        &users,
        &mut codes,
        &client,
        SECRET,
        NOW,
        login_request("a@x.com", "wrong-password"),
    );
    assert_eq!(wrong_password.unwrap_err(), AuthAPIError::IncorrectCredentials);

    let unknown_email = login(
        &users,
        &mut codes,
        &client,
        SECRET,
        NOW,
        login_request("b@x.com", "password123"),
    );
    assert_eq!(unknown_email.unwrap_err(), AuthAPIError::IncorrectCredentials);
}

#[test]
fn login_without_second_factor_establishes_a_session() {
    let mut users = HashmapUserStore::default();
    let mut codes = HashmapTwoFACodeStore::default();
    let banned = HashsetBannedTokenStore::default();
    let client = MockEmailClient;
    signup(&mut users, signup_request("a@x.com", "password123", false)).unwrap();

    let response = login(
        &users,
        &mut codes,
        &client,
        SECRET,
        NOW,
        login_request("a@x.com", "password123"),
    )
    .unwrap();

    let token = match response {
        LoginResponse::RegularAuth { token } => token,
        other => panic!("expected a session, got {:?}", other),
    };

    let result = verify_token(
        &banned,
        SECRET,
        NOW,
        VerifyTokenRequest { token },
    );
    assert!(result.is_ok());
}

#[test]
fn login_with_second_factor_issues_a_matching_challenge() {
    let mut users = HashmapUserStore::default();
    let mut codes = HashmapTwoFACodeStore::default();
    let client = MockEmailClient;
    signup(&mut users, signup_request("a@x.com", "password123", true)).unwrap();

    let response = login(
        &users,
        &mut codes,
        &client,
        SECRET,
        NOW,
        login_request("a@x.com", "password123"),
    )
    .unwrap();

    let attempt_id = match response {
        LoginResponse::TwoFactorAuth { message, login_attempt_id } => {
            assert_eq!(message, "2FA required");
            login_attempt_id
        },
        other => panic!("expected a pending second factor, got {:?}", other),
    };

    let email = Email::parse("a@x.com".to_string()).unwrap();
    let (stored_id, stored_code) = codes.get_code(&email).unwrap();
    assert_eq!(stored_id, attempt_id);
    assert_ne!(stored_id.as_ref(), stored_code.as_ref());
}

#[test]
fn full_two_factor_login_establishes_a_session() {
    let mut users = HashmapUserStore::default();
    let mut codes = HashmapTwoFACodeStore::default();
    let banned = HashsetBannedTokenStore::default();
    let client = MockEmailClient;
    signup(&mut users, signup_request("a@x.com", "password123", true)).unwrap();

    login(
        &users,
        &mut codes,
        &client,
        SECRET,
        NOW,
        login_request("a@x.com", "password123"),
    )
    .unwrap();

    let email = Email::parse("a@x.com".to_string()).unwrap();
    let (stored_id, stored_code) = codes.get_code(&email).unwrap();

    let token = verify_2fa(
        &mut codes,
        SECRET,
        NOW,
        Verify2FARequest {
            email: "a@x.com".to_string(),
            login_attempt_id: stored_id.as_ref().to_string(),
            two_fa_code: stored_code.as_ref().to_string(),
        },
    )
    .unwrap();

    assert!(verify_token(&banned, SECRET, NOW, VerifyTokenRequest { token }).is_ok());
}

#[test]
fn old_challenge_is_rejected_after_reissue() {
    let mut codes = HashmapTwoFACodeStore::default();
    let email = Email::parse("a@x.com".to_string()).unwrap();
    let first_id = LoginAttemptId::parse("67e55044-10b1-426f-9247-bb680e5fe0c8".to_string()).unwrap();
    let first_code = TwoFACode::parse("111111".to_string()).unwrap();
    let second_id = LoginAttemptId::parse("aaaaaaaa-bbbb-cccc-dddd-eeeeeeeeeeee".to_string()).unwrap();
    let second_code = TwoFACode::parse("222222".to_string()).unwrap();

    codes.add_code(email.clone(), first_id.clone(), first_code.clone()).unwrap();
    codes.add_code(email.clone(), second_id, second_code).unwrap();

    let result = verify_2fa(
        &mut codes,
        SECRET,
        NOW,
        Verify2FARequest {
            email: "a@x.com".to_string(),
            login_attempt_id: first_id.as_ref().to_string(),
            two_fa_code: first_code.as_ref().to_string(),
        },
    );
    assert_eq!(result.unwrap_err(), AuthAPIError::IncorrectCredentials);
}

#[test]
fn challenge_is_single_use() {
    let mut codes = HashmapTwoFACodeStore::default();
    let email = Email::parse("a@x.com".to_string()).unwrap();
    let id = LoginAttemptId::parse("67e55044-10b1-426f-9247-bb680e5fe0c8".to_string()).unwrap();
    let code = TwoFACode::parse("111111".to_string()).unwrap();
    codes.add_code(email, id.clone(), code.clone()).unwrap();

    let request = || Verify2FARequest {
        email: "a@x.com".to_string(),
        login_attempt_id: id.as_ref().to_string(),
        two_fa_code: code.as_ref().to_string(),
    };

    assert!(verify_2fa(&mut codes, SECRET, NOW, request()).is_ok());
    assert_eq!(
        verify_2fa(&mut codes, SECRET, NOW, request()).unwrap_err(),
        AuthAPIError::IncorrectCredentials
    );
}

#[test]
fn verify_2fa_rejects_malformed_inputs() {
    let mut codes = HashmapTwoFACodeStore::default();

    let result = verify_2fa(
        &mut codes,
        SECRET,
        NOW,
        Verify2FARequest {
            email: "not-an-email".to_string(),
            login_attempt_id: "67e55044-10b1-426f-9247-bb680e5fe0c8".to_string(),
            two_fa_code: "123456".to_string(),
        },
    );
    assert_eq!(result.unwrap_err(), AuthAPIError::InvalidCredentials);

    let result = verify_2fa(
        &mut codes,
        SECRET,
        NOW,
        Verify2FARequest {
            email: "a@x.com".to_string(),
            login_attempt_id: "invalid".to_string(),
            two_fa_code: "123456".to_string(),
        },
    );
    assert_eq!(result.unwrap_err(), AuthAPIError::InvalidCredentials);

    let result = verify_2fa(
        &mut codes,
        SECRET,
        NOW,
        Verify2FARequest {
            email: "a@x.com".to_string(),
            login_attempt_id: "67e55044-10b1-426f-9247-bb680e5fe0c8".to_string(),
            two_fa_code: "invalid".to_string(),
        },
    );
    assert_eq!(result.unwrap_err(), AuthAPIError::InvalidCredentials);

    // well-formed inputs with no pending challenge
    let result = verify_2fa(
        &mut codes,
        SECRET,
        NOW,
        Verify2FARequest {
            email: "a@x.com".to_string(),
            login_attempt_id: "67e55044-10b1-426f-9247-bb680e5fe0c8".to_string(),
            two_fa_code: "123456".to_string(),
        },
    );
    assert_eq!(result.unwrap_err(), AuthAPIError::IncorrectCredentials);
}

#[test]
fn logout_requires_a_token() {
    let mut banned = HashsetBannedTokenStore::default();
    assert_eq!(
        logout(&mut banned, SECRET, NOW, None).unwrap_err(),
        AuthAPIError::MissingToken
    );
}

#[test]
fn logout_rejects_an_invalid_token() {
    let mut banned = HashsetBannedTokenStore::default();
    assert_eq!(
        logout(&mut banned, SECRET, NOW, Some("not-a-token".to_string())).unwrap_err(),
        AuthAPIError::InvalidToken
    );
}

#[test]
fn end_to_end_signup_login_verify_logout() {
    let mut users = HashmapUserStore::default();
    let mut codes = HashmapTwoFACodeStore::default();
    let mut banned = HashsetBannedTokenStore::default();
    let client = MockEmailClient;

    let created = signup(&mut users, signup_request("a@x.com", "password123", false));
    assert!(created.is_ok());

    let response = login(
        &users,
        &mut codes,
        &client,
        SECRET,
        NOW,
        login_request("a@x.com", "password123"),
    )
    .unwrap();
    let token = match response {
        LoginResponse::RegularAuth { token } => token,
        other => panic!("expected a session, got {:?}", other),
    };

    assert!(verify_token(&banned, SECRET, NOW, VerifyTokenRequest { token: token.clone() }).is_ok());

    assert!(logout(&mut banned, SECRET, NOW, Some(token.clone())).is_ok());

    assert_eq!(
        verify_token(&banned, SECRET, NOW, VerifyTokenRequest { token: token.clone() }).unwrap_err(),
        AuthAPIError::InvalidToken
    );

    // a token from a different, still-open session stays valid
    let mut other_codes = HashmapTwoFACodeStore::default();
    signup(&mut users, signup_request("b@x.com", "password456", false)).unwrap();
    let other = login(
        &users,
        &mut other_codes,
        &client,
        SECRET,
        NOW,
        login_request("b@x.com", "password456"),
    )
    .unwrap();
    let other_token = match other {
        LoginResponse::RegularAuth { token } => token,
        other => panic!("expected a session, got {:?}", other),
    };
    assert!(verify_token(&banned, SECRET, NOW, VerifyTokenRequest { token: other_token }).is_ok());
}
