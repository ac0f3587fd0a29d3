//! The login/2FA/logout protocol: request and response shapes, and the
//! orchestration of the three stores. Everything that computes or decides
//! lives here; transport, cookies, token signing and notification delivery
//! are collaborators of the caller.

pub mod login;
pub mod logout;
pub mod signup;
pub mod verify_2fa;
pub mod verify_token;
