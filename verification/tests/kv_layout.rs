use auth_service::kv::banned_token;
use auth_service::kv::two_fa_code;
use auth_service::TwoFACodeStoreError;
use auth_service::Email;
use auth_service::LoginAttemptId;
use auth_service::TwoFACode;

#[test]
fn banned_token_key_is_prefixed() {
    assert_eq!(banned_token::get_key("test_token"), "banned_token:test_token");
    assert_eq!(banned_token::get_key(""), "banned_token:");
}

#[test]
fn two_fa_code_key_is_prefixed() {
    let email = Email::parse("a@x.com").unwrap();
    assert_eq!(two_fa_code::get_key(&email), "two_fa_code:a@x.com");
}

#[test]
fn record_is_rendered_as_a_string_pair() {
    let id = LoginAttemptId::parse("67e55044-10b1-426f-9247-bb680e5fe0c8").unwrap();
    let code = TwoFACode::parse("007421").unwrap();
    let rendered = two_fa_code::encode_record(&id, &code);
    assert_eq!(
        rendered,
        "[\"67e55044-10b1-426f-9247-bb680e5fe0c8\",\"007421\"]"
    );
}

#[test]
fn record_round_trips_through_decode() {
    let id = LoginAttemptId::default();
    let code = TwoFACode::default();
    let rendered = two_fa_code::encode_record(&id, &code);

    let (raw_id, raw_code) = two_fa_code::decode_record(&rendered).unwrap();
    assert_eq!(raw_id, id.as_ref());
    assert_eq!(raw_code, code.as_ref());

    let (parsed_id, parsed_code) = two_fa_code::parse_stored_challenge(&rendered).unwrap();
    assert!(parsed_id == id);
    assert!(parsed_code == code);
}

#[test]
fn malformed_records_are_rejected() {
    assert!(two_fa_code::decode_record("").is_none());
    assert!(two_fa_code::decode_record("[]").is_none());
    assert!(two_fa_code::decode_record("[\"a\"]").is_none());
    assert!(two_fa_code::decode_record("[\"a\",\"b\"").is_none());
    assert!(two_fa_code::decode_record("(\"a\",\"b\")").is_none());
    assert!(two_fa_code::decode_record("[\"a\",\"b\"]x").is_none());
    assert!(two_fa_code::decode_record("[\"a\".\"b\"]").is_none());
}

#[test]
fn stored_challenge_must_hold_valid_values() {
    assert!(two_fa_code::parse_stored_challenge("[\"not-an-id\",\"007421\"]").is_none());
    assert!(
        two_fa_code::parse_stored_challenge(
            "[\"67e55044-10b1-426f-9247-bb680e5fe0c8\",\"0421\"]"
        )
        .is_none()
    );
    assert!(
        two_fa_code::parse_stored_challenge(
            "[\"67e55044-10b1-426f-9247-bb680e5fe0c8\",\"007421\"]"
        )
        .is_some()
    );
}

#[test]
fn removal_outcome_follows_the_deleted_count() {
    assert_eq!(
        two_fa_code::removal_outcome(0),
        Err(TwoFACodeStoreError::LoginAttemptIdNotFound)
    );
    assert_eq!(two_fa_code::removal_outcome(1), Ok(()));
    assert_eq!(
        two_fa_code::removal_outcome(2),
        Err(TwoFACodeStoreError::UnexpectedError)
    );
}

#[test]
fn generated_code_spells_the_padded_number() {
    let code = TwoFACode::parse("007421").unwrap();
    assert_eq!(code.as_ref(), "007421");
    let generated = TwoFACode::default();
    let reparsed = TwoFACode::parse(generated.as_ref()).unwrap();
    assert!(reparsed == generated);
}
