use auth_service::Email;
use auth_service::LoginAttemptId;
use auth_service::Password;
use auth_service::PasswordHash;
use auth_service::TwoFACode;

#[test]
fn email_empty_string_is_rejected() {
    let email = "";
    assert!(Email::parse(email).is_err());
}

#[test]
fn email_without_at_symbol_is_rejected() {
    let email = "alexgmail.com";
    assert!(Email::parse(email).is_err());
}

#[test]
fn email_without_subject_is_rejected() {
    let email = "@gmail.com";
    assert!(Email::parse(email).is_err());
}

#[test]
fn valid_email_is_parsed_unchanged() {
    let email = Email::parse("alexandr@gmail.com").unwrap();
    assert_eq!(email.as_ref(), "alexandr@gmail.com");
    assert!(email == Email::parse("alexandr@gmail.com").unwrap());
    assert!(!(email == Email::parse("other@gmail.com").unwrap()));
}

#[test]
fn password_empty_string_is_rejected() {
    let psswd = "";
    assert!(Password::parse(psswd).is_err());
}

#[test]
fn short_password_is_rejected() {
    let psswd = "aleulom";
    assert!(Password::parse(psswd).is_err());
}

#[test]
fn password_boundary_length_is_exact() {
    assert!(Password::parse("1234567").is_err());
    let p = Password::parse("12345678").unwrap();
    assert_eq!(p.as_ref(), "12345678");
}

#[test]
fn two_fa_code_accepts_exactly_six_digits() {
    let code = TwoFACode::parse("007421").unwrap();
    assert_eq!(code.as_ref(), "007421");
    assert!(TwoFACode::parse("00742").is_err());
    assert!(TwoFACode::parse("0074211").is_err());
    assert!(TwoFACode::parse("00742a").is_err());
    assert!(TwoFACode::parse("").is_err());
}

#[test]
fn generated_two_fa_code_is_six_digits() {
    let code = TwoFACode::default();
    let raw = code.as_ref();
    assert_eq!(raw.len(), 6);
    assert!(raw.bytes().all(|b| b.is_ascii_digit()));
    let reparsed = TwoFACode::parse(raw).unwrap();
    assert!(reparsed == code);
}

#[test]
fn login_attempt_id_rejects_bad_grammar() {
    assert!(LoginAttemptId::parse("").is_err());
    assert!(LoginAttemptId::parse("not-an-id").is_err());
    assert!(LoginAttemptId::parse("67e55044-10b1-426f-9247").is_err());
}

#[test]
fn login_attempt_id_normalizes_to_canonical_form() {
    let id = LoginAttemptId::parse("67e5504410b1426f9247bb680e5fe0c8").unwrap();
    assert_eq!(id.as_ref(), "67e55044-10b1-426f-9247-bb680e5fe0c8");
    let canonical = LoginAttemptId::parse("67e55044-10b1-426f-9247-bb680e5fe0c8").unwrap();
    assert!(id == canonical);
}

#[test]
fn generated_login_attempt_id_round_trips() {
    let id = LoginAttemptId::default();
    let reparsed = LoginAttemptId::parse(id.as_ref()).unwrap();
    assert!(reparsed == id);
    let other = LoginAttemptId::default();
    assert!(!(other == id));
}

#[test]
fn password_hash_is_salted_but_verifies() {
    let password = Password::parse("password123").unwrap();
    let first = PasswordHash::hash(&password).unwrap();
    let second = PasswordHash::hash(&password).unwrap();
    assert!(!(first == second));
    assert!(first.verify("password123"));
    assert!(second.verify("password123"));
    assert!(!first.verify("password124"));
    assert!(!first.verify(""));
}

#[test]
fn password_hash_parse_checks_structure() {
    let password = Password::parse("password123").unwrap();
    let hash = PasswordHash::hash(&password).unwrap();
    let stored = hash.as_ref().to_string();
    let reloaded = PasswordHash::parse(&stored).unwrap();
    assert!(reloaded == hash);
    assert!(reloaded.verify("password123"));
    assert!(PasswordHash::parse("").is_err());
    assert!(PasswordHash::parse("password123").is_err());
}
