use auth_service::domain::data_stores::{LoginAttemptId, TwoFACode};
use auth_service::domain::email::Email;
use auth_service::domain::password::Password;

#[test]
fn test_valid_email() {
    let result = Email::parse("user@example.com".to_string());

    assert!(result.is_ok());
    assert_eq!(result.unwrap().as_ref(), "user@example.com")
}

#[test]
fn test_invalid_email_no_at_symbol() {
    let result = Email::parse("userexample.com".to_string());

    assert!(result.is_err());
}

#[test]
fn invalid_email_error_names_the_input() {
    let result = Email::parse("userexample.com".to_string());

    assert_eq!(
        result.unwrap_err(),
        "userexample.com is not a valid email."
    );
}

#[test]
fn email_test_as_ref_trait() {
    let email = Email::parse("user@example.com".to_string()).unwrap();

    assert_eq!(email.as_ref(), "user@example.com");
}

#[test]
fn test_valid_password() {
    let result = Password::parse("password123".to_string());

    assert!(result.is_ok());
    assert_eq!(result.unwrap().as_ref(), "password123");
}

#[test]
fn test_invalid_password_too_short() {
    let result = Password::parse("short".to_string());

    assert!(result.is_err());
    assert_eq!(result.unwrap_err(), "password too short");
}

#[test]
fn password_test_as_ref_trait() {
    let password = Password::parse("password123".to_string()).unwrap();
    assert_eq!(password.as_ref(), "password123");
}

#[test]
fn password_of_exactly_eight_chars_is_accepted() {
    let result = Password::parse("12345678".to_string());
    assert!(result.is_ok());
}

#[test]
fn empty_email_is_rejected() {
    assert!(Email::parse(String::new()).is_err());
}

#[test]
fn six_digit_code_parses_and_round_trips() {
    let code = TwoFACode::parse("123456".to_string()).unwrap();
    assert_eq!(code.as_ref(), "123456");
}

#[test]
fn code_of_wrong_shape_is_rejected() {
    assert!(TwoFACode::parse("12345".to_string()).is_err());
    assert!(TwoFACode::parse("1234567".to_string()).is_err());
    assert!(TwoFACode::parse("12345a".to_string()).is_err());
    assert!(TwoFACode::parse("12 456".to_string()).is_err());
    assert!(TwoFACode::parse(String::new()).is_err());
    assert_eq!(
        TwoFACode::parse("abc".to_string()).unwrap_err(),
        "Invalid 2FA code. It must be a 6-digit number."
    );
}

#[test]
fn generated_code_is_six_digits() {
    for _ in 0..32 {
        let code = TwoFACode::default();
        let reparsed = TwoFACode::parse(code.as_ref().to_string());
        assert!(reparsed.is_ok());
        assert_eq!(reparsed.unwrap(), code);
    }
}

#[test]
fn canonical_attempt_id_parses_and_round_trips() {
    let raw = "67e55044-10b1-426f-9247-bb680e5fe0c8";
    let id = LoginAttemptId::parse(raw.to_string()).unwrap();
    assert_eq!(id.as_ref(), raw);
}

#[test]
fn attempt_id_of_wrong_shape_is_rejected() {
    // too short
    assert!(LoginAttemptId::parse("67e55044".to_string()).is_err());
    // uppercase hex is not canonical
    assert!(LoginAttemptId::parse("67E55044-10B1-426F-9247-BB680E5FE0C8".to_string()).is_err());
    // hyphen out of place
    assert!(LoginAttemptId::parse("67e5504410-b1-426f-9247-bb680e5fe0c8".to_string()).is_err());
    // non-hex character
    assert!(LoginAttemptId::parse("67e55044-10b1-426f-9247-bb680e5fe0cz".to_string()).is_err());
    assert_eq!(
        LoginAttemptId::parse("nope".to_string()).unwrap_err(),
        "Invalid LoginAttemptId"
    );
}

#[test]
fn generated_attempt_id_is_canonical() {
    for _ in 0..32 {
        let id = LoginAttemptId::default();
        let reparsed = LoginAttemptId::parse(id.as_ref().to_string());
        assert!(reparsed.is_ok());
        assert_eq!(reparsed.unwrap(), id);
    }
}

#[test]
fn generated_attempt_ids_differ_from_codes() {
    let id = LoginAttemptId::default();
    let code = TwoFACode::default();
    assert_ne!(id.as_ref(), code.as_ref());
}
