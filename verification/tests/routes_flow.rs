use auth_service::handle_2fa;
use auth_service::login;
use auth_service::logout;
use auth_service::signup;
use auth_service::verify_2fa;
use auth_service::verify_token;
use auth_service::AppState;
use auth_service::AuthAPIError;
use auth_service::HashMapTwoFACodeStore;
use auth_service::HashMapUserStore;
use auth_service::HashSetBannedTokenStore;
use auth_service::LoginAttemptId;
use auth_service::LoginFlow;
use auth_service::LoginRequest;
use auth_service::LoginResponse;
use auth_service::SignupRequest;
use auth_service::SignupResponse;
use auth_service::TwoFACode;
use auth_service::TwoFACodeStore;
use auth_service::Verify2FARequest;
use auth_service::VerifyTokenRequest;

type TestState = AppState<HashMapUserStore, HashSetBannedTokenStore, HashMapTwoFACodeStore>;

fn new_state() -> TestState {
    AppState::new(
        HashMapUserStore::default(),
        HashSetBannedTokenStore::default(),
        HashMapTwoFACodeStore::default(),
    )
}

fn signup_request(email: &str, password: &str, requires_2fa: bool) -> SignupRequest {
    SignupRequest {
        email: email.to_string(),
        password: password.to_string(),
        requires_2fa,
    }
}

fn login_request(email: &str, password: &str) -> LoginRequest {
    LoginRequest {
        email: email.to_string(),
        password: password.to_string(),
    }
}

#[test]
fn should_return_201_if_valid_input() {
    let mut state = new_state();
    let res = signup(&mut state, &signup_request("a@x.com", "password123", true)).unwrap();
    let expected = SignupResponse {
        message: "User created successfully!".to_string(),
    };
    assert!(res == expected);
}

#[test]
fn should_return_400_if_invalid_input() {
    let mut state = new_state();
    let cases = [
        signup_request("", "password123", true),
        signup_request("alexgmail.com", "password123", true),
        signup_request("a@x.com", "pass123", true),
    ];
    for case in cases {
        let err = signup(&mut state, &case).unwrap_err();
        assert_eq!(err, AuthAPIError::InvalidCredentials);
        assert_eq!(err.status_code(), 400);
        assert_eq!(err.message(), "Invalid credentials");
    }
}

#[test]
fn should_return_409_if_email_already_exists() {
    let mut state = new_state();
    signup(&mut state, &signup_request("a@x.com", "password123", true)).unwrap();
    let err = signup(&mut state, &signup_request("a@x.com", "password123", true)).unwrap_err();
    assert_eq!(err, AuthAPIError::UserAlreadyExists);
    assert_eq!(err.status_code(), 409);
    assert_eq!(err.message(), "User already exists");
}

#[test]
fn should_return_200_if_valid_credentials_and_2fa_disabled() {
    let mut state = new_state();
    signup(&mut state, &signup_request("a@x.com", "password123", false)).unwrap();
    match login(&state, &login_request("a@x.com", "password123")).unwrap() {
        LoginFlow::Regular(email) => assert_eq!(email.as_ref(), "a@x.com"),
        LoginFlow::TwoFactor(_) => panic!("expected a regular login"),
    }
}

#[test]
fn should_return_400_if_invalid_credentials() {
    let state = new_state();
    let cases = [
        login_request("", "password123"),
        login_request("alexgmail.com", "password123"),
        login_request("a@x.com", "pass123"),
    ];
    for case in cases {
        let err = login(&state, &case).unwrap_err();
        assert_eq!(err, AuthAPIError::InvalidCredentials);
        assert_eq!(err.status_code(), 400);
        assert_eq!(err.message(), "Invalid credentials");
    }
}

#[test]
fn should_return_401_if_incorrect_credentials() {
    let mut state = new_state();
    signup(&mut state, &signup_request("a@x.com", "password123", false)).unwrap();
    let cases = [
        login_request("a@x.com", "wrong-password"),
        login_request("wrongemail@gmail.com", "password123"),
        login_request("wrongemail@gmail.com", "wrong-password"),
    ];
    for case in cases {
        let err = login(&state, &case).unwrap_err();
        assert_eq!(err, AuthAPIError::IncorrectCredentials);
        assert_eq!(err.status_code(), 401);
        assert_eq!(err.message(), "Incorrect credentials");
    }
}

#[test]
fn two_fa_challenge_succeeds_exactly_once() {
    let mut state = new_state();
    signup(&mut state, &signup_request("a@x.com", "password123", true)).unwrap();

    let email = match login(&state, &login_request("a@x.com", "password123")).unwrap() {
        LoginFlow::TwoFactor(email) => email,
        LoginFlow::Regular(_) => panic!("expected a two-factor login"),
    };

    let id = LoginAttemptId::default();
    let code = TwoFACode::default();
    let response = handle_2fa(
        &mut state.two_fa_code_store,
        &email,
        id.clone(),
        code.clone(),
        true,
    )
    .unwrap();
    let attempt_id = match response {
        LoginResponse::TwoFactorAuth(body) => {
            assert_eq!(body.message, "2FA required");
            body.login_attempt_id
        },
        LoginResponse::RegularAuth => panic!("expected the two-factor body"),
    };
    assert_eq!(attempt_id, id.as_ref());

    let (_, stored_code) = state.two_fa_code_store.get_code(&email).unwrap();
    let request = Verify2FARequest {
        email: "a@x.com".to_string(),
        login_attempt_id: attempt_id,
        two_fa_code: stored_code.as_ref().to_string(),
    };
    let verified = verify_2fa(&mut state, &request).unwrap();
    assert_eq!(verified.as_ref(), "a@x.com");

    let err = verify_2fa(&mut state, &request).unwrap_err();
    assert_eq!(err, AuthAPIError::IncorrectCredentials);
    assert_eq!(err.status_code(), 401);
    assert_eq!(err.message(), "Incorrect credentials");
}

#[test]
fn second_login_attempt_invalidates_first_challenge() {
    let mut state = new_state();
    signup(&mut state, &signup_request("a@x.com", "password123", true)).unwrap();
    let email = match login(&state, &login_request("a@x.com", "password123")).unwrap() {
        LoginFlow::TwoFactor(email) => email,
        LoginFlow::Regular(_) => panic!("expected a two-factor login"),
    };

    let first_id = LoginAttemptId::default();
    let first_code = TwoFACode::default();
    handle_2fa(
        &mut state.two_fa_code_store,
        &email,
        first_id.clone(),
        first_code.clone(),
        true,
    )
    .unwrap();

    let second_id = LoginAttemptId::default();
    let second_code = TwoFACode::default();
    handle_2fa(
        &mut state.two_fa_code_store,
        &email,
        second_id.clone(),
        second_code,
        true,
    )
    .unwrap();

    let request = Verify2FARequest {
        email: "a@x.com".to_string(),
        login_attempt_id: first_id.as_ref().to_string(),
        two_fa_code: first_code.as_ref().to_string(),
    };
    let err = verify_2fa(&mut state, &request).unwrap_err();
    assert_eq!(err, AuthAPIError::IncorrectCredentials);
}

#[test]
fn two_fa_rejects_wrong_pair_and_malformed_input() {
    let mut state = new_state();
    signup(&mut state, &signup_request("a@x.com", "password123", true)).unwrap();
    let email = match login(&state, &login_request("a@x.com", "password123")).unwrap() {
        LoginFlow::TwoFactor(email) => email,
        LoginFlow::Regular(_) => panic!("expected a two-factor login"),
    };
    let id = LoginAttemptId::default();
    let code = TwoFACode::parse("111111").unwrap();
    handle_2fa(&mut state.two_fa_code_store, &email, id.clone(), code, true).unwrap();

    let wrong_code = Verify2FARequest {
        email: "a@x.com".to_string(),
        login_attempt_id: id.as_ref().to_string(),
        two_fa_code: "222222".to_string(),
    };
    assert_eq!(
        verify_2fa(&mut state, &wrong_code).unwrap_err(),
        AuthAPIError::IncorrectCredentials
    );

    let wrong_id = Verify2FARequest {
        email: "a@x.com".to_string(),
        login_attempt_id: LoginAttemptId::default().as_ref().to_string(),
        two_fa_code: "111111".to_string(),
    };
    assert_eq!(
        verify_2fa(&mut state, &wrong_id).unwrap_err(),
        AuthAPIError::IncorrectCredentials
    );

    let malformed = Verify2FARequest {
        email: "a@x.com".to_string(),
        login_attempt_id: "not-an-id".to_string(),
        two_fa_code: "111111".to_string(),
    };
    let err = verify_2fa(&mut state, &malformed).unwrap_err();
    assert_eq!(err, AuthAPIError::InvalidCredentials);

    let never_issued = Verify2FARequest {
        email: "b@x.com".to_string(),
        login_attempt_id: id.as_ref().to_string(),
        two_fa_code: "111111".to_string(),
    };
    assert_eq!(
        verify_2fa(&mut state, &never_issued).unwrap_err(),
        AuthAPIError::IncorrectCredentials
    );
}

#[test]
fn notification_failure_leaves_no_challenge_behind() {
    let mut state = new_state();
    let email = auth_service::Email::parse("a@x.com").unwrap();
    let err = match handle_2fa(
        &mut state.two_fa_code_store,
        &email,
        LoginAttemptId::default(),
        TwoFACode::default(),
        false,
    ) {
        Ok(_) => panic!("expected the notification failure to surface"),
        Err(e) => e,
    };
    assert_eq!(err, AuthAPIError::UnexpectedError);
    assert_eq!(err.status_code(), 500);
    assert!(state.two_fa_code_store.get_code(&email).is_err());
}

#[test]
fn revoked_token_fails_verification() {
    let mut state = new_state();
    let token = "session-token".to_string();
    let request = VerifyTokenRequest {
        token: token.clone(),
    };

    assert!(verify_token(&state, &request, true).is_ok());

    logout(&mut state, Some(&token)).unwrap();

    let err = verify_token(&state, &request, true).unwrap_err();
    assert_eq!(err, AuthAPIError::InvalidToken);
    assert_eq!(err.status_code(), 401);

    logout(&mut state, Some(&token)).unwrap();
    assert!(verify_token(&state, &request, true).is_err());
}

#[test]
fn invalid_signature_is_rejected_even_if_not_revoked() {
    let state = new_state();
    let request = VerifyTokenRequest {
        token: "session-token".to_string(),
    };
    let err = verify_token(&state, &request, false).unwrap_err();
    assert_eq!(err, AuthAPIError::InvalidToken);
    assert_eq!(err.message(), "Invalid auth token");
}

#[test]
fn logout_without_token_is_rejected() {
    let mut state = new_state();
    let err = logout(&mut state, None).unwrap_err();
    assert_eq!(err, AuthAPIError::MissingToken);
    assert_eq!(err.status_code(), 400);
    assert_eq!(err.message(), "Missing token");
}
