//! Store implementations: the verified in-memory backends and the shared
//! association-map core they are built on.

pub mod assoc;
pub mod data_stores;
pub mod hashmap_user_store;
