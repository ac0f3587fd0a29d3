//! Identity value types, the user entity, the error taxonomy and the three
//! store contracts.

pub mod data_stores;
pub mod email;
pub mod error;
pub mod password;
pub mod password_hash;
pub mod user;
