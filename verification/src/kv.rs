//! The key scheme and record framing used by TTL-keyed backends: one
//! prefixed key per store, and a two-element string-array rendering for
//! challenge records.

pub mod banned_token;
pub mod two_fa_code;
