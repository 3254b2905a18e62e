//! What the API's requests do.

pub mod healthcheck;
pub mod lifecycle;
pub mod vm;
