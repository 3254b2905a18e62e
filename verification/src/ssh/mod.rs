//! Console access over SSH.

pub mod auth;
pub mod authorized_keys;
pub mod host_key;
pub mod session;
