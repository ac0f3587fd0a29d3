use auth_service::BannedTokenStore;
use auth_service::Email;
use auth_service::HashMapTwoFACodeStore;
use auth_service::HashMapUserStore;
use auth_service::HashSetBannedTokenStore;
use auth_service::HashmapUserStore;
use auth_service::LoginAttemptId;
use auth_service::Password;
use auth_service::PasswordHash;
use auth_service::TwoFACode;
use auth_service::TwoFACodeStore;
use auth_service::User;
use auth_service::UserStore;
use auth_service::UserStoreError;

fn test_email() -> Email {
    Email::parse("test@example.com").unwrap()
}

fn test_login_attempt_id() -> LoginAttemptId {
    LoginAttemptId::default()
}

fn test_code() -> TwoFACode {
    TwoFACode::default()
}

#[test]
fn test_add_and_get_code() {
    let mut store = HashMapTwoFACodeStore::default();
    let email = test_email();
    let login_attempt_id = test_login_attempt_id();
    let code = test_code();

    store
        .add_code(email.clone(), login_attempt_id.clone(), code.clone())
        .unwrap();
    let (stored_id, stored_code) = store.get_code(&email).unwrap();

    assert!(stored_id == login_attempt_id);
    assert!(stored_code == code);
}

#[test]
fn test_remove_code() {
    let mut store = HashMapTwoFACodeStore::default();
    let email = test_email();
    let login_attempt_id = test_login_attempt_id();
    let code = test_code();

    store
        .add_code(email.clone(), login_attempt_id.clone(), code.clone())
        .unwrap();
    store.remove_code(&email).unwrap();
    let result = store.get_code(&email);

    assert!(result.is_err());
}

#[test]
fn test_remove_code_not_found() {
    let mut store = HashMapTwoFACodeStore::default();
    let email = test_email();

    let result = store.remove_code(&email);
    assert!(result.is_err());
}

#[test]
fn test_get_code_not_found() {
    let store = HashMapTwoFACodeStore::default();
    let email = test_email();

    let result = store.get_code(&email);
    assert!(result.is_err());
}

fn create_email(s: &str) -> Email {
    Email::parse(s).expect("valid email")
}

fn create_password(s: &str) -> PasswordHash {
    PasswordHash::hash(&Password::parse(s).expect("valid password")).expect("hashing succeeds")
}

fn make_user(email: &str, password: &str) -> User {
    User::new(create_email(email), create_password(password), true)
}

#[test]
fn hashmap_user_store_test_add_user() {
    let mut store = HashMapUserStore::default();

    let u1 = make_user("a@test.com", "password1");
    assert!(store.add_user(u1).is_ok());

    let u2 = make_user("a@test.com", "password2");
    let err = store.add_user(u2).unwrap_err();
    assert_eq!(err, UserStoreError::UserAlreadyExists);
}

#[test]
fn hashmap_user_store_test_get_user() {
    let mut store = HashMapUserStore::default();
    store.add_user(make_user("a@test.com", "password")).unwrap();

    let email = create_email("a@test.com");
    let u = store.get_user(&email).unwrap();
    assert!(u.email() == &email);

    let missing = create_email("missing@test.com");
    let err = store.get_user(&missing).unwrap_err();
    assert_eq!(err, UserStoreError::UserNotFound);
}

#[test]
fn hashmap_user_store_test_validate_user() {
    let mut store = HashMapUserStore::default();
    store.add_user(make_user("a@test.com", "password")).unwrap();

    let email = create_email("a@test.com");

    assert!(store.validate_user(&email, "password").is_ok());

    let err = store.validate_user(&email, "wrongpassword").unwrap_err();
    assert_eq!(err, UserStoreError::InvalidCredentials);

    let missing = create_email("missing@test.com");
    let err = store.validate_user(&missing, "password").unwrap_err();
    assert_eq!(err, UserStoreError::UserNotFound);
}

#[test]
fn test_ban_and_check_token() {
    let mut store = HashSetBannedTokenStore::default();
    let token = "test_token";

    assert_eq!(store.contains_token(token).unwrap(), false);

    store.add_token(token).unwrap();

    assert_eq!(store.contains_token(token).unwrap(), true);
}

#[test]
fn test_multiple_tokens() {
    let mut store = HashSetBannedTokenStore::default();
    let token1 = "token1";
    let token2 = "token2";

    store.add_token(token1).unwrap();
    assert_eq!(store.contains_token(token1).unwrap(), true);
    assert_eq!(store.contains_token(token2).unwrap(), false);
}

#[test]
fn hashmapuserstore_test_add_user() {
    let mut user_store = HashmapUserStore::default();
    let email = Email::parse("alexandr@gmail.com").unwrap();
    let password = create_password("password");
    let user = User::new(email, password, true);

    let res = user_store.add_user(user.clone());
    assert!(res.is_ok());

    let res = user_store.add_user(user.clone());
    assert_eq!(res.unwrap_err(), UserStoreError::UserAlreadyExists);
}

#[test]
fn hashmapuserstore_test_get_user() {
    let mut user_store = HashmapUserStore::default();
    let email = Email::parse("alexandr@gmail.com").unwrap();
    let password = create_password("password");
    let user = User::new(email.clone(), password, true);

    let res = user_store.get_user(&email);
    assert_eq!(res.unwrap_err(), UserStoreError::UserNotFound);

    let _ = user_store.add_user(user.clone());
    let res = user_store.get_user(&email);
    assert!(res.unwrap() == user);
}

#[test]
fn hashmapuserstore_test_validate_user() {
    let mut user_store = HashmapUserStore::default();
    let email = Email::parse("alexandr@gmail.com").unwrap();
    let password = Password::parse("password").unwrap();
    let hash = PasswordHash::hash(&password).unwrap();
    let user = User::new(email.clone(), hash, true);

    let res = user_store.validate_password(&email, &password);
    assert_eq!(res.unwrap_err(), UserStoreError::UserNotFound);

    let _ = user_store.add_user(user.clone());

    let wrong = Password::parse("Wrong password").unwrap();
    let res = user_store.validate_password(&email, &wrong);
    assert_eq!(res.unwrap_err(), UserStoreError::InvalidCredentials);

    let res = user_store.validate_password(&email, &password);
    assert!(res.is_ok());
}
