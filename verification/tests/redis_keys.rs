use auth_service::domain::data_stores::{LoginAttemptId, TwoFACode};
use auth_service::domain::email::Email;
use auth_service::services::data_stores::redis_banned_token_store;
use auth_service::services::data_stores::redis_two_fa_code_store;

#[test]
fn banned_token_key_is_prefixed() {
    let key = redis_banned_token_store::get_key("some-token");
    assert_eq!(key, "banned_token:some-token");
}

#[test]
fn two_fa_code_key_is_prefixed() {
    let email = Email::parse("test@example.com".to_string()).unwrap();
    let key = redis_two_fa_code_store::get_key(&email);
    assert_eq!(key, "two_fa_code:test@example.com");
}

#[test]
fn two_fa_tuple_serializes_as_a_pair_of_strings() {
    let id = LoginAttemptId::parse("67e55044-10b1-426f-9247-bb680e5fe0c8".to_string()).unwrap();
    let code = TwoFACode::parse("123456".to_string()).unwrap();

    let serialized = redis_two_fa_code_store::serialize_two_fa_tuple(&id, &code);
    assert_eq!(
        serialized,
        "[\"67e55044-10b1-426f-9247-bb680e5fe0c8\",\"123456\"]"
    );
}

#[test]
fn two_fa_tuple_round_trips() {
    let id = LoginAttemptId::parse("67e55044-10b1-426f-9247-bb680e5fe0c8".to_string()).unwrap();
    let code = TwoFACode::parse("123456".to_string()).unwrap();

    let serialized = redis_two_fa_code_store::serialize_two_fa_tuple(&id, &code);
    let (raw_id, raw_code) =
        redis_two_fa_code_store::deserialize_two_fa_tuple(&serialized).unwrap();
    assert_eq!(raw_id, "67e55044-10b1-426f-9247-bb680e5fe0c8");
    assert_eq!(raw_code, "123456");
}

#[test]
fn malformed_stored_values_are_rejected() {
    assert!(redis_two_fa_code_store::deserialize_two_fa_tuple("").is_none());
    assert!(redis_two_fa_code_store::deserialize_two_fa_tuple("[]").is_none());
    assert!(redis_two_fa_code_store::deserialize_two_fa_tuple("[\"a\"]").is_none());
    assert!(redis_two_fa_code_store::deserialize_two_fa_tuple("[\"a\",\"b\"").is_none());
    assert!(redis_two_fa_code_store::deserialize_two_fa_tuple("{\"a\":\"b\"}").is_none());
}
