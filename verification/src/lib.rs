//! A credential-and-session authentication core.
//!
//! The library validates user identity, optionally enforces a two-factor
//! challenge, issues and revokes bearer session tokens, and keeps
//! identity/session state behind three store contracts: user credentials,
//! revoked tokens, and ephemeral two-factor challenges.

pub mod app_state;
pub mod domain;
pub mod kv;
pub mod laws;
pub mod routes;
pub mod services;

pub use app_state::AppState;
pub use domain::data_stores::{
    BannedTokenStore, BannedTokenStoreError, LoginAttemptId, TwoFACode, TwoFACodeStore,
    TwoFACodeStoreError, UserStore, UserStoreError,
};
pub use domain::email::Email;
pub use domain::error::AuthAPIError;
pub use domain::password::Password;
pub use domain::password_hash::PasswordHash;
pub use domain::user::User;
pub use routes::login::{handle_2fa, login, LoginFlow, LoginRequest, LoginResponse, TwoFactorAuthResponse};
pub use routes::logout::logout;
pub use routes::signup::{signup, signup_with_hash, SignupRequest, SignupResponse};
pub use routes::verify_2fa::{verify_2fa, Verify2FARequest};
pub use routes::verify_token::{verify_token, VerifyTokenRequest};
pub use services::data_stores::{HashMapTwoFACodeStore, HashMapUserStore, HashSetBannedTokenStore};
pub use services::hashmap_user_store::HashmapUserStore;
